//! Where a signing credential comes from: a pair of files or a pair of
//! environment variables.

use vstd::prelude::*;
use vstd::string::StringExecFns;
use crate::text::{chars_of, find_char, find_from, lemma_find_char, str_eq, substring};

verus! {

/// Why a signer could not be read from its text, or used.
#[derive(Debug, Clone)]
pub enum SignerError {
    InvalidScheme,
    MissingLocalPath,
    MissingEnvVar,
    EnvVarNotFound(String),
}

pub enum SignerErrorModel {
    InvalidScheme,
    MissingLocalPath,
    MissingEnvVar,
    EnvVarNotFound(Seq<char>),
}

impl View for SignerError {
    type V = SignerErrorModel;

    open spec fn view(&self) -> SignerErrorModel {
        match self {
            SignerError::InvalidScheme => SignerErrorModel::InvalidScheme,
            SignerError::MissingLocalPath => SignerErrorModel::MissingLocalPath,
            SignerError::MissingEnvVar => SignerErrorModel::MissingEnvVar,
            SignerError::EnvVarNotFound(name) => SignerErrorModel::EnvVarNotFound(name@),
        }
    }
}

impl SignerErrorModel {
    /// The text shown to a user. It names the variable and never its value.
    pub open spec fn text(self) -> Seq<char> {
        match self {
            SignerErrorModel::InvalidScheme => "Invalid signer URI scheme: expected 'local:' or 'env:'"@,
            SignerErrorModel::MissingLocalPath => "Missing path for 'local:' signer"@,
            SignerErrorModel::MissingEnvVar => "Missing variable name for 'env:' signer"@,
            SignerErrorModel::EnvVarNotFound(name) => "Environment variable not found: "@ + name,
        }
    }
}

impl SignerError {
    /// The text shown to a user.
    pub fn to_string(&self) -> (out: String)
        ensures
            out@ == self@.text(),
    {
        match self {
            SignerError::InvalidScheme => "Invalid signer URI scheme: expected 'local:' or 'env:'".to_string(),
            SignerError::MissingLocalPath => "Missing path for 'local:' signer".to_string(),
            SignerError::MissingEnvVar => "Missing variable name for 'env:' signer".to_string(),
            SignerError::EnvVarNotFound(name) => "Environment variable not found: ".to_string().concat(
                name.as_str(),
            ),
        }
    }
}

/// Source for a certificate and its private key.
///
/// As text: `local:<cert-path>,<key-path>` or `env:<CERT_VAR>,<KEY_VAR>`.
#[derive(Debug, Clone)]
pub enum Signer {
    Local { cert_path: String, key_path: String },
    Env { cert_var: String, key_var: String },
}

pub enum SignerModel {
    Local { cert_path: Seq<char>, key_path: Seq<char> },
    Env { cert_var: Seq<char>, key_var: Seq<char> },
}

impl View for Signer {
    type V = SignerModel;

    open spec fn view(&self) -> SignerModel {
        match self {
            Signer::Local { cert_path, key_path } => SignerModel::Local {
                cert_path: cert_path@,
                key_path: key_path@,
            },
            Signer::Env { cert_var, key_var } => SignerModel::Env {
                cert_var: cert_var@,
                key_var: key_var@,
            },
        }
    }
}

/// What a text says of a signer. The scheme ends at the first colon. What
/// follows must be two parts with one comma between them: no comma, or more
/// than one, is refused, and so is any scheme but `local` and `env`.
pub open spec fn parsed_signer(s: Seq<char>) -> Result<SignerModel, SignerErrorModel> {
    let colon = find_char(s, ':');
    if colon >= s.len() {
        Err(SignerErrorModel::InvalidScheme)
    } else {
        let scheme = s.subrange(0, colon);
        let value = s.subrange(colon + 1, s.len() as int);
        let comma = find_char(value, ',');
        if comma >= value.len() {
            Err(SignerErrorModel::InvalidScheme)
        } else {
            let first = value.subrange(0, comma);
            let second = value.subrange(comma + 1, value.len() as int);
            if find_char(second, ',') < second.len() {
                Err(SignerErrorModel::InvalidScheme)
            } else if scheme == "local"@ {
                Ok(SignerModel::Local { cert_path: first, key_path: second })
            } else if scheme == "env"@ {
                Ok(SignerModel::Env { cert_var: first, key_var: second })
            } else {
                Err(SignerErrorModel::InvalidScheme)
            }
        }
    }
}

impl Signer {
    /// Reads a signer from its text.
    pub fn parse(s: &str) -> (r: Result<Signer, SignerError>)
        ensures
            match r {
                Ok(signer) => parsed_signer(s@) == Ok::<SignerModel, SignerErrorModel>(signer@),
                Err(e) => parsed_signer(s@) == Err::<SignerModel, SignerErrorModel>(e@),
            },
    {
        let chars = chars_of(s);
        let n = chars.len();
        let colon = find_from(&chars, 0, ':');
        assert(chars@.subrange(0, n as int) =~= s@);
        if colon >= n {
            return Err(SignerError::InvalidScheme);
        }
        let ghost value = s@.subrange(colon + 1, n as int);
        let comma = find_from(&chars, colon + 1, ',');
        assert(comma == colon + 1 + find_char(value, ','));
        if comma >= n {
            return Err(SignerError::InvalidScheme);
        }
        let ghost second = value.subrange(comma - colon, value.len() as int);
        assert(second =~= chars@.subrange(comma + 1, n as int));
        let extra = find_from(&chars, comma + 1, ',');
        if extra < n {
            return Err(SignerError::InvalidScheme);
        }
        let scheme = substring(s, 0, colon);
        let first = substring(s, colon + 1, comma);
        let last = substring(s, comma + 1, n);
        assert(first@ =~= value.subrange(0, comma - colon - 1));
        assert(last@ =~= second);
        if str_eq(scheme.as_str(), "local") {
            Ok(Signer::Local { cert_path: first, key_path: last })
        } else if str_eq(scheme.as_str(), "env") {
            Ok(Signer::Env { cert_var: first, key_var: last })
        } else {
            Err(SignerError::InvalidScheme)
        }
    }
}

impl std::str::FromStr for Signer {
    type Err = SignerError;

    /// Reads a signer from its text, as [`Signer::parse`] does.
    fn from_str(s: &str) -> (r: Result<Signer, SignerError>)
        ensures
            match r {
                Ok(signer) => parsed_signer(s@) == Ok::<SignerModel, SignerErrorModel>(signer@),
                Err(e) => parsed_signer(s@) == Err::<SignerModel, SignerErrorModel>(e@),
            },
    {
        Signer::parse(s)
    }
}

/// A text without a colon names no signer.
pub proof fn lemma_signer_needs_scheme(s: Seq<char>)
    requires
        forall|i: int| 0 <= i < s.len() ==> s[i] != ':',
    ensures
        parsed_signer(s) == Err::<SignerModel, SignerErrorModel>(SignerErrorModel::InvalidScheme),
{
    lemma_find_char(s, ':');
}

} // verus!
