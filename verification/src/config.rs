//! The configuration of signing, verification, ingredients and fragmented
//! assets, with defaults that err on the side of safety.

use vstd::prelude::*;
use crate::asset::AssetRef;
use crate::cawg::{CawgIdentity, CawgVerifyOptions};
use crate::signer::Signer;
use crate::timestamper::Timestamper;
use crate::types::{LimitsConfig, OutputTarget, SigAlg, TrustPolicyConfig, VerifyMode};

verus! {

/// The defaults of the engine, in one place.
pub struct EngineDefaults;

impl EngineDefaults {
    /// HTTPS only.
    pub const ALLOW_INSECURE_HTTP: Option<bool> = None;

    /// No network fetches.
    pub const ALLOW_REMOTE_MANIFESTS: bool = false;

    /// No certificates in a result.
    pub const INCLUDE_CERTIFICATES: Option<bool> = None;

    /// Manifests are embedded.
    pub const EMBED_MANIFESTS: bool = true;

    /// A fresh signature is validated.
    pub const SKIP_POST_SIGN_VALIDATION: bool = false;

    pub const SIGNING_ALGORITHM: SigAlg = SigAlg::Es256;

    pub const VERIFICATION_MODE: VerifyMode = VerifyMode::Summary;

    pub const OUTPUT_TARGET: OutputTarget = OutputTarget::Memory;

    /// No trust policy: the caller brings its own.
    pub const HAS_TRUST_POLICY: Option<TrustPolicyConfig> = None;

    /// No timestamp authority.
    pub const HAS_TIMESTAMPER: Option<Timestamper> = None;

    /// No manifest definition: the empty one is used.
    pub const HAS_MANIFEST_DEFINITION: Option<String> = None;

    /// No parent.
    pub const HAS_PARENT: Option<AssetRef> = None;

    /// No base directory for the parent's resources.
    pub const HAS_PARENT_BASE_DIR: Option<String> = None;

    /// No remote manifest URL.
    pub const HAS_REMOTE_MANIFEST_URL: Option<String> = None;

    /// No validation of identity assertions.
    pub const CAWG_VALIDATE: bool = false;

    /// No identity assertion is required.
    pub const CAWG_REQUIRE_VALID_IDENTITY: bool = false;

    pub const CAWG_SIGNING_ALGORITHM: SigAlg = SigAlg::Ed25519;
}

/// Configuration for signing.
pub struct C2paConfig {
    pub source: AssetRef,
    pub output: OutputTarget,
    pub manifest_definition: Option<String>,
    pub parent: Option<AssetRef>,
    /// Base directory for the resources of a parent ingredient that is
    /// given as bytes.
    pub parent_base_dir: Option<String>,
    pub signer: Signer,
    pub signing_alg: SigAlg,
    pub timestamper: Option<Timestamper>,
    pub remote_manifest_url: Option<String>,
    pub embed: bool,
    /// Trust policy for the validation right after signing.
    pub trust_policy: Option<TrustPolicyConfig>,
    pub skip_post_sign_validation: bool,
    /// Opt-in to plain HTTP for the remote manifest URL.
    pub allow_insecure_remote_http: Option<bool>,
    pub limits: LimitsConfig,
    /// The identity assertion to add, where there is one.
    pub cawg_identity: Option<CawgIdentity>,
}

/// Configuration for verification.
pub struct C2paVerificationConfig {
    pub source: AssetRef,
    pub mode: VerifyMode,
    pub policy: Option<TrustPolicyConfig>,
    pub allow_remote_manifests: bool,
    /// Opt-in: include signing certificates in the result.
    pub include_certificates: Option<bool>,
    pub limits: LimitsConfig,
    /// Options for identity assertions, where they are to be looked at.
    pub cawg: Option<CawgVerifyOptions>,
}

/// Configuration for building an ingredient from an asset.
pub struct IngredientConfig {
    pub source: AssetRef,
    /// A directory to write the ingredient and its resources to, or memory
    /// for the ingredient's JSON alone.
    pub output: OutputTarget,
    pub limits: LimitsConfig,
}

/// Configuration for signing a fragmented asset.
#[derive(Debug, Clone)]
pub struct FragmentedBmffConfig {
    pub init_glob: String,
    pub fragments_glob: String,
    pub output_dir: String,
    pub manifest_definition: Option<String>,
    pub signer: Signer,
    pub signing_alg: SigAlg,
    pub timestamper: Option<Timestamper>,
    pub remote_manifest_url: Option<String>,
    pub embed: bool,
    pub skip_post_sign_validation: bool,
    /// Opt-in to plain HTTP for the remote manifest URL.
    pub allow_insecure_remote_http: Option<bool>,
    pub limits: LimitsConfig,
}

impl C2paConfig {
    /// The safe defaults around a source and a signer: output to memory, an
    /// embedded manifest, validation after signing, HTTPS only, no parent,
    /// no timestamp authority, no trust policy, no identity assertion, and
    /// the default limits.
    pub fn secure_default(source: AssetRef, signer: Signer, signing_alg: SigAlg) -> (cfg: C2paConfig)
        ensures
            cfg.source == source,
            cfg.signer == signer,
            cfg.signing_alg == signing_alg,
            cfg.output is Memory,
            cfg.manifest_definition is None,
            cfg.parent is None,
            cfg.parent_base_dir is None,
            cfg.timestamper is None,
            cfg.remote_manifest_url is None,
            cfg.embed,
            cfg.trust_policy is None,
            !cfg.skip_post_sign_validation,
            cfg.allow_insecure_remote_http is None,
            cfg.limits == LimitsConfig::defaults_spec(),
            cfg.cawg_identity is None,
    {
        C2paConfig {
            source,
            output: OutputTarget::Memory,
            manifest_definition: None,
            parent: None,
            parent_base_dir: None,
            signer,
            signing_alg,
            timestamper: None,
            remote_manifest_url: None,
            embed: true,
            trust_policy: None,
            skip_post_sign_validation: false,
            allow_insecure_remote_http: None,
            limits: LimitsConfig::defaults(),
            cawg_identity: None,
        }
    }
}

impl C2paVerificationConfig {
    /// The safe defaults around a source: the summary mode, no trust policy,
    /// no remote manifests, no certificates, no identity validation, and the
    /// default limits.
    pub fn secure_default(source: AssetRef) -> (cfg: C2paVerificationConfig)
        ensures
            cfg.source == source,
            cfg.mode == VerifyMode::Summary,
            cfg.policy is None,
            !cfg.allow_remote_manifests,
            cfg.include_certificates is None,
            cfg.limits == LimitsConfig::defaults_spec(),
            cfg.cawg is None,
    {
        C2paVerificationConfig {
            source,
            mode: VerifyMode::Summary,
            policy: None,
            allow_remote_manifests: false,
            include_certificates: None,
            limits: LimitsConfig::defaults(),
            cawg: None,
        }
    }
}

impl Default for C2paVerificationConfig {
    /// The safe defaults around the empty path.
    fn default() -> (cfg: C2paVerificationConfig)
        ensures
            cfg.source matches AssetRef::Path(p) && p@.len() == 0,
            cfg.mode == VerifyMode::Summary,
            cfg.policy is None,
            !cfg.allow_remote_manifests,
            cfg.include_certificates is None,
            cfg.limits == LimitsConfig::defaults_spec(),
            cfg.cawg is None,
    {
        C2paVerificationConfig::secure_default(AssetRef::Path(String::new()))
    }
}

impl IngredientConfig {
    /// The safe defaults around a source: output to memory and the default limits.
    pub fn secure_default(source: AssetRef) -> (cfg: IngredientConfig)
        ensures
            cfg.source == source,
            cfg.output is Memory,
            cfg.limits == LimitsConfig::defaults_spec(),
    {
        IngredientConfig { source, output: OutputTarget::Memory, limits: LimitsConfig::defaults() }
    }
}

impl FragmentedBmffConfig {
    /// The safe defaults around the patterns, the output directory and a
    /// signer: an embedded manifest, validation after signing, HTTPS only,
    /// no timestamp authority, and the default limits.
    pub fn secure_default(
        init_glob: String,
        fragments_glob: String,
        output_dir: String,
        signer: Signer,
        signing_alg: SigAlg,
    ) -> (cfg: FragmentedBmffConfig)
        ensures
            cfg.init_glob == init_glob,
            cfg.fragments_glob == fragments_glob,
            cfg.output_dir == output_dir,
            cfg.signer == signer,
            cfg.signing_alg == signing_alg,
            cfg.manifest_definition is None,
            cfg.timestamper is None,
            cfg.remote_manifest_url is None,
            cfg.embed,
            !cfg.skip_post_sign_validation,
            cfg.allow_insecure_remote_http is None,
            cfg.limits == LimitsConfig::defaults_spec(),
    {
        FragmentedBmffConfig {
            init_glob,
            fragments_glob,
            output_dir,
            manifest_definition: None,
            signer,
            signing_alg,
            timestamper: None,
            remote_manifest_url: None,
            embed: true,
            skip_post_sign_validation: false,
            allow_insecure_remote_http: None,
            limits: LimitsConfig::defaults(),
        }
    }
}

} // verus!
