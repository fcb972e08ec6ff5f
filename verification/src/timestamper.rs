//! The source of a cryptographic timestamp.

use vstd::prelude::*;
use crate::text::{chars_of, has_prefix, starts_with, str_eq, substring};

verus! {

/// Why a timestamper could not be read from its text.
#[derive(Debug, Clone, Copy, PartialEq, Eq, Structural)]
pub enum TimestamperError {
    InvalidScheme,
}

impl TimestamperError {
    /// The text shown to a user.
    pub fn to_string(&self) -> (out: String)
        ensures
            out@ == "Invalid timestamper scheme: expected 'digicert' or 'custom:http://...'"@,
    {
        "Invalid timestamper scheme: expected 'digicert' or 'custom:http://...'".to_string()
    }
}

/// Source for a cryptographic timestamp.
#[derive(Debug, Clone)]
pub enum Timestamper {
    /// DigiCert's public timestamp authority.
    Digicert,
    /// The authority at this URL.
    Custom(String),
}

pub enum TimestamperModel {
    Digicert,
    Custom(Seq<char>),
}

impl View for Timestamper {
    type V = TimestamperModel;

    open spec fn view(&self) -> TimestamperModel {
        match self {
            Timestamper::Digicert => TimestamperModel::Digicert,
            Timestamper::Custom(url) => TimestamperModel::Custom(url@),
        }
    }
}

/// The length of `custom:`.
pub const CUSTOM_PREFIX_LEN: usize = 7;

/// What a text says of a timestamper: `digicert` is DigiCert's authority,
/// `custom:` and a URL is the authority at that URL, and anything else is refused.
pub open spec fn parsed_timestamper(s: Seq<char>) -> Result<TimestamperModel, TimestamperError> {
    if s == "digicert"@ {
        Ok(TimestamperModel::Digicert)
    } else if has_prefix(s, "custom:"@) {
        Ok(TimestamperModel::Custom(s.subrange(7, s.len() as int)))
    } else {
        Err(TimestamperError::InvalidScheme)
    }
}

impl TimestamperModel {
    /// The URL of the authority.
    pub open spec fn url(self) -> Seq<char> {
        match self {
            TimestamperModel::Digicert => "https://timestamp.digicert.com"@,
            TimestamperModel::Custom(url) => url,
        }
    }
}

impl Timestamper {
    /// Reads a timestamper from its text.
    pub fn parse(s: &str) -> (r: Result<Timestamper, TimestamperError>)
        ensures
            match r {
                Ok(t) => parsed_timestamper(s@) == Ok::<TimestamperModel, TimestamperError>(t@),
                Err(e) => parsed_timestamper(s@) == Err::<TimestamperModel, TimestamperError>(e),
            },
    {
        if str_eq(s, "digicert") {
            return Ok(Timestamper::Digicert);
        }
        let chars = chars_of(s);
        let prefix = chars_of("custom:");
        proof {
            reveal_strlit("custom:");
        }
        if starts_with(&chars, &prefix) {
            Ok(Timestamper::Custom(substring(s, CUSTOM_PREFIX_LEN, chars.len())))
        } else {
            Err(TimestamperError::InvalidScheme)
        }
    }

    /// The URL of the authority. There always is one.
    pub fn resolve(&self) -> (url: Option<String>)
        ensures
            url matches Some(u) && u@ == self@.url(),
    {
        match self {
            Timestamper::Digicert => Some("https://timestamp.digicert.com".to_string()),
            Timestamper::Custom(url) => Some(url.clone()),
        }
    }
}

impl std::str::FromStr for Timestamper {
    type Err = TimestamperError;

    /// Reads a timestamper from its text, as [`Timestamper::parse`] does.
    fn from_str(s: &str) -> (r: Result<Timestamper, TimestamperError>)
        ensures
            match r {
                Ok(t) => parsed_timestamper(s@) == Ok::<TimestamperModel, TimestamperError>(t@),
                Err(e) => parsed_timestamper(s@) == Err::<TimestamperModel, TimestamperError>(e),
            },
    {
        Timestamper::parse(s)
    }
}

} // verus!
