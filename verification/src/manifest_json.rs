//! The manifest definition as JSON text, and the two members that the engine
//! sets in it: the URL of the timestamp authority and the claim version.
//!
//! Reading and writing JSON is the work of `serde_json`. Its results are
//! named here, not described: the contracts say which of them comes back when.

use vstd::prelude::*;
use vstd::string::StringExecFns;
use crate::error::{EngineError, EngineResult, ErrorModel};
use crate::features::HTTP_URLS_ENABLED;
use crate::net::IpAddress;
use crate::text::decimal_text;
use crate::timestamper::{Timestamper, TimestamperModel};
use crate::url_validation::{url_decision, url_parse, validate_external_http_url};

verus! {

#[verifier::external_type_specification]
#[verifier::external_body]
pub struct ExJsonValue(serde_json::Value);

/// The compact JSON text that `serde_json` writes for a value.
pub uninterp spec fn json_text(value: serde_json::Value) -> Seq<char>;

/// What `serde_json` reads from a text: the compact text of the value that
/// it read, or the message of its error.
pub uninterp spec fn json_read(text: Seq<char>) -> Result<Seq<char>, Seq<char>>;

/// Whether a compact JSON text is that of an object.
pub uninterp spec fn json_holds_object(compact: Seq<char>) -> bool;

/// The compact text of an object after the member `key` was set to a string.
pub uninterp spec fn json_with_string(compact: Seq<char>, key: Seq<char>, value: Seq<char>) -> Seq<
    char,
>;

/// The compact text of an object after the member `key` was set to a number.
pub uninterp spec fn json_with_number(compact: Seq<char>, key: Seq<char>, value: u64) -> Seq<char>;

/// `serde_json::from_str` for a `Value`: the value that it reads, or the
/// message of its error.
#[verifier::external_body]
pub(crate) fn parse_json(text: &str) -> (r: Result<serde_json::Value, String>)
    ensures
        match r {
            Ok(v) => json_read(text@) == Ok::<Seq<char>, Seq<char>>(json_text(v)),
            Err(m) => json_read(text@) == Err::<Seq<char>, Seq<char>>(m@),
        },
{
    serde_json::from_str::<serde_json::Value>(text).map_err(|e| e.to_string())
}

/// `serde_json::Value::is_object`.
#[verifier::external_body]
pub(crate) fn is_json_object(value: &serde_json::Value) -> (b: bool)
    ensures
        b == json_holds_object(json_text(*value)),
{
    value.is_object()
}

/// `serde_json::Map::insert` on the map of an object, with a string as the
/// member's value: the member is added, or replaced where the key is there
/// already. A value that is no object is left as it is.
#[verifier::external_body]
pub(crate) fn set_string_member(value: &mut serde_json::Value, key: &str, member: &str)
    ensures
        json_holds_object(json_text(*old(value))) ==> json_text(*final(value)) == json_with_string(
            json_text(*old(value)),
            key@,
            member@,
        ) && json_holds_object(json_text(*final(value))),
        !json_holds_object(json_text(*old(value))) ==> *final(value) == *old(value),
{
    if let Some(map) = value.as_object_mut() {
        map.insert(key.to_string(), serde_json::Value::String(member.to_string()));
    }
}

/// `serde_json::Map::insert` on the map of an object, with a number as the
/// member's value. A value that is no object is left as it is.
#[verifier::external_body]
pub(crate) fn set_number_member(value: &mut serde_json::Value, key: &str, member: u64)
    ensures
        json_holds_object(json_text(*old(value))) ==> json_text(*final(value)) == json_with_number(
            json_text(*old(value)),
            key@,
            member,
        ) && json_holds_object(json_text(*final(value))),
        !json_holds_object(json_text(*old(value))) ==> *final(value) == *old(value),
{
    if let Some(map) = value.as_object_mut() {
        map.insert(key.to_string(), serde_json::Value::Number(member.into()));
    }
}

/// `serde_json::to_string` for a `Value`: its compact text. Writing a value
/// into memory does not fail: its keys are strings and its numbers finite.
#[verifier::external_body]
pub(crate) fn write_json(value: &serde_json::Value) -> (r: Result<String, String>)
    ensures
        match r {
            Ok(s) => s@ == json_text(*value),
            Err(_) => false,
        },
{
    serde_json::to_string(value).map_err(|e| e.to_string())
}

/// `serde_json::Map::new` as a value: the object without members, whose
/// compact text is `{}`.
#[verifier::external_body]
pub(crate) fn empty_json_object() -> (value: serde_json::Value)
    ensures
        json_text(value) == "{}"@,
        json_holds_object(json_text(value)),
{
    serde_json::Value::Object(serde_json::Map::new())
}

/// The failure for a manifest definition that is not JSON.
pub open spec fn invalid_manifest(message: Seq<char>) -> ErrorModel {
    ErrorModel::Config("Invalid manifest JSON: "@ + message)
}

fn invalid_manifest_error(message: &str) -> (e: EngineError)
    ensures
        e@ == invalid_manifest(message@),
{
    EngineError::Config("Invalid manifest JSON: ".to_string().concat(message))
}

/// The manifest definition with the URL of the timestamp authority set in it.
///
/// - Without an authority a given definition is passed on as it is, byte for
///   byte, and a missing one is the empty object.
/// - With an authority a given definition must be JSON. Where it is an
///   object, the authority's URL must pass validation, `http` not allowed,
///   and is then set as `ta_url`; where it is some other JSON value it is
///   written back unchanged and no URL is looked at.
/// - With an authority and no definition, the URL must pass validation and
///   is set in the empty object.
pub open spec fn prepared_manifest(
    definition: Option<Seq<char>>,
    authority: Option<TimestamperModel>,
    resolved: Seq<IpAddress>,
) -> Result<Seq<char>, ErrorModel> {
    match authority {
        None => match definition {
            Some(json) => Ok(json),
            None => Ok("{}"@),
        },
        Some(t) => {
            let decision = url_decision(url_parse(t.url()), false, HTTP_URLS_ENABLED, resolved);
            match definition {
                Some(json) => match json_read(json) {
                    Err(m) => Err(invalid_manifest(m)),
                    Ok(compact) => if json_holds_object(compact) {
                        match decision {
                            Err(e) => Err(e),
                            Ok(_) => Ok(json_with_string(compact, "ta_url"@, t.url())),
                        }
                    } else {
                        Ok(compact)
                    },
                },
                None => match decision {
                    Err(e) => Err(e),
                    Ok(_) => Ok(json_with_string("{}"@, "ta_url"@, t.url())),
                },
            }
        },
    }
}

/// The view of a timestamp authority that may be missing.
pub open spec fn authority_view(authority: Option<Timestamper>) -> Option<TimestamperModel> {
    match authority {
        Some(t) => Some(t@),
        None => None,
    }
}

/// The text of a definition that may be missing.
pub open spec fn definition_text(definition: Option<String>) -> Option<Seq<char>> {
    match definition {
        Some(s) => Some(s@),
        None => None,
    }
}

/// Sets the URL of the authority in a JSON value that is an object.
fn inject_authority(value: serde_json::Value, url: &str, resolved: &Vec<IpAddress>) -> (r:
    EngineResult<String>)
    requires
        json_holds_object(json_text(value)),
    ensures
        match r {
            Ok(s) => url_decision(url_parse(url@), false, HTTP_URLS_ENABLED, resolved@) is Ok
                && s@ == json_with_string(json_text(value), "ta_url"@, url@),
            Err(e) => url_decision(url_parse(url@), false, HTTP_URLS_ENABLED, resolved@) == Err::<
                (),
                ErrorModel,
            >(e@),
        },
{
    match validate_external_http_url(url, false, resolved) {
        Err(e) => Err(e),
        Ok(_) => {
            let mut value = value;
            set_string_member(&mut value, "ta_url", url);
            match write_json(&value) {
                Ok(s) => Ok(s),
                Err(m) => Err(EngineError::Config(m)),
            }
        },
    }
}

/// Prepares the manifest definition for signing. `resolved` holds the
/// addresses that the host of the timestamp authority's URL resolved to.
pub fn prepare_manifest_json(
    manifest_definition: Option<String>,
    timestamper: &Option<Timestamper>,
    resolved: &Vec<IpAddress>,
) -> (r: EngineResult<String>)
    ensures
        match r {
            Ok(s) => prepared_manifest(
                definition_text(manifest_definition),
                authority_view(*timestamper),
                resolved@,
            ) == Ok::<Seq<char>, ErrorModel>(s@),
            Err(e) => prepared_manifest(
                definition_text(manifest_definition),
                authority_view(*timestamper),
                resolved@,
            ) == Err::<Seq<char>, ErrorModel>(e@),
        },
{
    match timestamper {
        None => match manifest_definition {
            Some(json) => Ok(json),
            None => Ok("{}".to_string()),
        },
        Some(tsa) => {
            let url = match tsa.resolve() {
                Some(u) => u,
                None => String::new(),
            };
            match manifest_definition {
                Some(json) => {
                    match parse_json(json.as_str()) {
                        Err(m) => Err(invalid_manifest_error(m.as_str())),
                        Ok(value) => {
                            if is_json_object(&value) {
                                inject_authority(value, url.as_str(), resolved)
                            } else {
                                match write_json(&value) {
                                    Ok(s) => Ok(s),
                                    Err(m) => Err(EngineError::Config(m)),
                                }
                            }
                        },
                    }
                },
                None => inject_authority(empty_json_object(), url.as_str(), resolved),
            }
        },
    }
}

/// The definition with the claim version set to 2, where it is an object;
/// any other JSON value written back unchanged; and a failure for a text
/// that is not JSON.
pub open spec fn with_claim_version_2(manifest_json: Seq<char>) -> Result<Seq<char>, ErrorModel> {
    match json_read(manifest_json) {
        Err(m) => Err(invalid_manifest(m)),
        Ok(compact) => if json_holds_object(compact) {
            Ok(json_with_number(compact, "claim_version"@, 2))
        } else {
            Ok(compact)
        },
    }
}

/// Sets the claim version that an identity assertion needs.
pub fn ensure_claim_version_2(manifest_json: String) -> (r: EngineResult<String>)
    ensures
        match r {
            Ok(s) => with_claim_version_2(manifest_json@) == Ok::<Seq<char>, ErrorModel>(s@),
            Err(e) => with_claim_version_2(manifest_json@) == Err::<Seq<char>, ErrorModel>(e@),
        },
{
    match parse_json(manifest_json.as_str()) {
        Err(m) => Err(invalid_manifest_error(m.as_str())),
        Ok(value) => {
            let mut value = value;
            set_number_member(&mut value, "claim_version", 2);
            match write_json(&value) {
                Ok(s) => Ok(s),
                Err(m) => Err(EngineError::Config(m)),
            }
        },
    }
}

/// Without a timestamp authority a definition is not touched: it comes back
/// as it went in, whether or not it is JSON, and no URL is looked at.
pub proof fn lemma_definition_untouched_without_authority(
    definition: Seq<char>,
    resolved: Seq<IpAddress>,
)
    ensures
        prepared_manifest(Some(definition), None, resolved) == Ok::<Seq<char>, ErrorModel>(
            definition,
        ),
{
}

/// No URL that fails validation is ever set in an object: where the
/// definition is an object, or missing, and the authority's URL is refused,
/// preparation fails with the refusal.
pub proof fn lemma_refused_authority_is_not_injected(
    definition: Option<Seq<char>>,
    authority: TimestamperModel,
    resolved: Seq<IpAddress>,
)
    requires
        url_decision(url_parse(authority.url()), false, HTTP_URLS_ENABLED, resolved) is Err,
        definition matches Some(json) ==> json_read(json) matches Ok(compact) && json_holds_object(
            compact,
        ),
    ensures
        prepared_manifest(definition, Some(authority), resolved) == Err::<Seq<char>, ErrorModel>(
            url_decision(url_parse(authority.url()), false, HTTP_URLS_ENABLED, resolved)->Err_0,
        ),
{
}

} // verus!
