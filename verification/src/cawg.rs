//! The identity assertion: a second, independently keyed signature that
//! names the creator, its configuration, and the decisions around it.

use vstd::prelude::*;
use crate::error::{EngineError, EngineResult, ErrorModel};
use crate::key_material::CredentialRole;
use crate::signer::{Signer, SignerModel};
use crate::text::{chars_of, has_prefix, starts_with, str_eq};
use crate::timestamper::{Timestamper, TimestamperModel};
use crate::types::{C2paSigningAlg, SigAlg};

verus! {

/// The credential of the identity assertion.
#[derive(Debug, Clone)]
pub enum CawgSigner {
    /// The credential of the primary signature, used a second time.
    UseMainSigner,
    /// A credential of its own.
    Separate(Signer),
}

/// Configuration of the identity assertion that is added when signing.
#[derive(Debug, Clone)]
pub struct CawgIdentity {
    /// The credential of the identity signer.
    pub signer: CawgSigner,
    /// Signing algorithm for the identity assertion.
    pub signing_alg: SigAlg,
    /// The labels of the assertions that the identity assertion refers to.
    pub referenced_assertions: Vec<String>,
    /// Timestamp authority for the identity signature, where there is one.
    pub timestamper: Option<Timestamper>,
}

/// Options for the verification of an identity assertion.
#[derive(Debug, Clone, Copy, PartialEq, Eq, Structural)]
pub struct CawgVerifyOptions {
    /// Whether to validate identity assertions.
    pub validate: bool,
    /// Whether verification fails where the identity is missing or invalid.
    pub require_valid_identity: bool,
}

/// Result of the verification of an identity assertion.
#[derive(Debug, Clone)]
pub struct CawgVerification {
    /// Whether an identity assertion was present in the manifest.
    pub present: bool,
    /// Whether no identity assertion failed validation.
    pub valid: bool,
    /// What the identity assertion holds, as JSON text, where one is present.
    pub signature_info: Option<String>,
}

/// The algorithm of an identity assertion unless the caller says otherwise.
pub const CAWG_SIGNING_ALGORITHM: SigAlg = SigAlg::Ed25519;

/// An identity configuration with a credential of its own, the Ed25519
/// algorithm and no timestamp authority.
pub fn create_cawg_x509_config(signer: Signer, referenced_assertions: Vec<String>) -> (identity:
    CawgIdentity)
    ensures
        identity.signer == CawgSigner::Separate(signer),
        identity.signing_alg == SigAlg::Ed25519,
        identity.referenced_assertions == referenced_assertions,
        identity.timestamper is None,
{
    CawgIdentity {
        signer: CawgSigner::Separate(signer),
        signing_alg: CAWG_SIGNING_ALGORITHM,
        referenced_assertions,
        timestamper: None,
    }
}

/// Verification options with the given switches.
pub fn create_cawg_verify_options(validate: bool, require_valid_identity: bool) -> (options:
    CawgVerifyOptions)
    ensures
        options == (CawgVerifyOptions { validate, require_valid_identity }),
{
    CawgVerifyOptions { validate, require_valid_identity }
}

/// How one signer is built: from which credential, worded for which role,
/// with which algorithm and which timestamp authority.
#[derive(Debug, Clone)]
pub struct SignerPlan {
    pub source: Signer,
    pub role: CredentialRole,
    pub alg: C2paSigningAlg,
    pub timestamp_url: Option<String>,
}

pub struct SignerPlanModel {
    pub source: SignerModel,
    pub role: CredentialRole,
    pub alg: C2paSigningAlg,
    pub timestamp_url: Option<Seq<char>>,
}

/// The text of an optional string.
pub open spec fn text_of(s: Option<String>) -> Option<Seq<char>> {
    match s {
        Some(t) => Some(t@),
        None => None,
    }
}

impl View for SignerPlan {
    type V = SignerPlanModel;

    open spec fn view(&self) -> SignerPlanModel {
        SignerPlanModel {
            source: self.source@,
            role: self.role,
            alg: self.alg,
            timestamp_url: text_of(self.timestamp_url),
        }
    }
}

/// The plan for the primary signer.
pub open spec fn primary_plan(signer: Signer, alg: SigAlg, timestamp_url: Option<Seq<char>>)
    -> SignerPlanModel {
    SignerPlanModel { source: signer@, role: CredentialRole::Main, alg: alg.c2pa(), timestamp_url }
}

/// The plan for the signer of the identity assertion. It keeps its own
/// algorithm and timestamp authority. Where it shares the primary's
/// credential it falls back to the primary's timestamp authority; a
/// credential of its own never does.
pub open spec fn secondary_plan(
    identity: CawgIdentity,
    main_signer: Signer,
    main_timestamp: Option<Seq<char>>,
) -> SignerPlanModel {
    match identity.signer {
        CawgSigner::UseMainSigner => SignerPlanModel {
            source: main_signer@,
            role: CredentialRole::SharedWithMain,
            alg: identity.signing_alg.c2pa(),
            timestamp_url: match identity.timestamper {
                Some(t) => Some(t@.url()),
                None => main_timestamp,
            },
        },
        CawgSigner::Separate(own) => SignerPlanModel {
            source: own@,
            role: CredentialRole::Identity,
            alg: identity.signing_alg.c2pa(),
            timestamp_url: match identity.timestamper {
                Some(t) => Some(t@.url()),
                None => None,
            },
        },
    }
}

/// A copy of a signer.
pub fn clone_signer(signer: &Signer) -> (copy: Signer)
    ensures
        copy@ == signer@,
{
    match signer {
        Signer::Local { cert_path, key_path } => Signer::Local {
            cert_path: cert_path.clone(),
            key_path: key_path.clone(),
        },
        Signer::Env { cert_var, key_var } => Signer::Env {
            cert_var: cert_var.clone(),
            key_var: key_var.clone(),
        },
    }
}

/// Plans the primary signer.
pub fn main_signer_plan(signer: &Signer, alg: SigAlg, timestamp_url: Option<String>) -> (plan:
    SignerPlan)
    ensures
        plan@ == primary_plan(*signer, alg, text_of(timestamp_url)),
{
    SignerPlan {
        source: clone_signer(signer),
        role: CredentialRole::Main,
        alg: alg.to_c2pa(),
        timestamp_url,
    }
}

/// Plans the signer of the identity assertion.
pub fn secondary_signer_plan(
    identity: &CawgIdentity,
    main_signer: &Signer,
    main_timestamp: Option<String>,
) -> (plan: SignerPlan)
    ensures
        plan@ == secondary_plan(*identity, *main_signer, text_of(main_timestamp)),
{
    let own_timestamp = match &identity.timestamper {
        Some(t) => t.resolve(),
        None => None,
    };
    match &identity.signer {
        CawgSigner::UseMainSigner => SignerPlan {
            source: clone_signer(main_signer),
            role: CredentialRole::SharedWithMain,
            alg: identity.signing_alg.to_c2pa(),
            timestamp_url: match own_timestamp {
                Some(u) => Some(u),
                None => main_timestamp,
            },
        },
        CawgSigner::Separate(own) => SignerPlan {
            source: clone_signer(own),
            role: CredentialRole::Identity,
            alg: identity.signing_alg.to_c2pa(),
            timestamp_url: own_timestamp,
        },
    }
}

/// A status code of the identity assertion: `cawg.identity`, or a code below it.
pub open spec fn is_identity_code(code: Seq<char>) -> bool {
    code == "cawg.identity"@ || has_prefix(code, "cawg.identity."@)
}

/// Some code of the list is one of the identity assertion.
pub open spec fn any_identity_code(codes: Seq<String>) -> bool {
    exists|i: int| 0 <= i < codes.len() && is_identity_code(#[trigger] codes[i]@)
}

/// Whether a status code is one of the identity assertion.
pub fn code_is_identity(code: &str) -> (b: bool)
    ensures
        b == is_identity_code(code@),
{
    if str_eq(code, "cawg.identity") {
        return true;
    }
    let chars = chars_of(code);
    let prefix = chars_of("cawg.identity.");
    starts_with(&chars, &prefix)
}

fn holds_identity_code(codes: &Vec<String>) -> (b: bool)
    ensures
        b == any_identity_code(codes@),
{
    let mut i: usize = 0;
    while i < codes.len()
        invariant
            i <= codes@.len(),
            forall|k: int| 0 <= k < i ==> !is_identity_code(#[trigger] codes@[k]@),
        decreases codes@.len() - i,
    {
        if code_is_identity(codes[i].as_str()) {
            return true;
        }
        i += 1;
    }
    false
}

/// The validation statuses of the active manifest, by their codes.
#[derive(Debug, Clone)]
pub struct ManifestStatusCodes {
    pub success: Vec<String>,
    pub failure: Vec<String>,
}

/// Reads the result of identity validation off the validation statuses.
///
/// Without validation results there is nothing to read, which is an error.
/// An identity assertion is present where a success or a failure carries one
/// of its codes, and valid unless a failure does. What the assertion holds is
/// passed on only where one is present.
pub fn validate_cawg(results: Option<&ManifestStatusCodes>, signature_info: Option<String>) -> (r:
    EngineResult<CawgVerification>)
    ensures
        match results {
            None => r matches Err(e) && e@ == ErrorModel::Config(
                "No validation results available"@,
            ),
            Some(codes) => r matches Ok(v) && v.present == (any_identity_code(codes.success@)
                || any_identity_code(codes.failure@)) && v.valid == !any_identity_code(
                codes.failure@,
            ) && v.signature_info == (if v.present {
                signature_info
            } else {
                None
            }),
        },
{
    match results {
        None => Err(EngineError::config("No validation results available")),
        Some(codes) => {
            let failed = holds_identity_code(&codes.failure);
            let present = holds_identity_code(&codes.success) || failed;
            Ok(
                CawgVerification {
                    present,
                    valid: !failed,
                    signature_info: if present {
                        signature_info
                    } else {
                        None
                    },
                },
            )
        },
    }
}

/// Whether identity validation is to run at all.
pub fn wants_validation(options: &Option<CawgVerifyOptions>) -> (run: bool)
    ensures
        run == (options matches Some(o) && o.validate),
{
    match options {
        Some(o) => o.validate,
        None => false,
    }
}

/// Holds a validated identity against the options: where a valid identity is
/// required, verification fails unless one is present and valid.
pub fn enforce_identity(options: &CawgVerifyOptions, verification: &CawgVerification) -> (r:
    EngineResult<()>)
    ensures
        r is Err <==> options.require_valid_identity && (!verification.present
            || !verification.valid),
        r matches Err(e) ==> e@ == ErrorModel::VerificationFailed,
{
    if options.require_valid_identity && (!verification.present || !verification.valid) {
        Err(EngineError::VerificationFailed)
    } else {
        Ok(())
    }
}

} // verus!
