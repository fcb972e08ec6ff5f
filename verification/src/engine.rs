//! The adapter around the wrapped library: what a signing or verification
//! call hands to it, in which form, and what is refused before it is called.
//!
//! The wrapped library reads and writes files and changes process-wide
//! state, so the calls into it are the caller's. The functions here decide:
//! they turn a configuration into a plan, and refuse what can be refused
//! without the library.

use vstd::prelude::*;
use crate::asset::{check_memory_cap, over_memory_cap, too_large, AssetRef};
use crate::cawg::{main_signer_plan, primary_plan, secondary_plan, secondary_signer_plan, text_of,
    wants_validation, CawgIdentity, SignerPlan, SignerPlanModel};
use crate::config::{C2paConfig, C2paVerificationConfig, FragmentedBmffConfig, IngredientConfig};
use crate::error::{EngineError, EngineResult, ErrorModel};
use crate::features::{HTTP_URLS_ENABLED, REMOTE_MANIFESTS_ENABLED};
use crate::manifest_json::{authority_view, definition_text, ensure_claim_version_2,
    prepare_manifest_json, prepared_manifest, with_claim_version_2};
use crate::net::IpAddress;
use crate::settings::{build_trust_settings, clone_strings, patch_views, texts, trust_settings,
    PatchModel, SettingsPatch};
use crate::types::{LimitsConfig, OutputTarget, TrustPolicyConfig};
use crate::url_validation::{url_decision, url_parse, validate_external_http_url};
use crate::verify::{ReportStyle, VerificationResult};

verus! {

/// A provenance backend.
pub trait ManifestEngine {
    type Config;

    type VerificationConfig;

    type Artifact;

    fn generate(config: Self::Config) -> EngineResult<Self::Artifact>;

    fn verify(config: Self::VerificationConfig) -> EngineResult<VerificationResult>;
}

/// The adapter for the wrapped content-provenance library.
pub struct C2pa;

/// The MIME type for content of unknown type.
pub open spec fn octet_stream() -> Seq<char> {
    "application/octet-stream"@
}

/// The format under which a stream is handed to the wrapped library: the
/// caller's MIME type, else the sniffed one, else that of unknown content.
pub open spec fn format_of(content_type: Option<Seq<char>>, sniffed: Option<Seq<char>>) -> Seq<
    char,
> {
    match content_type {
        Some(ct) => ct,
        None => match sniffed {
            Some(s) => s,
            None => octet_stream(),
        },
    }
}

/// The format under which a stream is handed to the wrapped library.
pub fn stream_format(content_type: &Option<String>, sniffed: Option<&str>) -> (format: String)
    ensures
        format@ == format_of(
            text_of(*content_type),
            match sniffed {
                Some(s) => Some(s@),
                None => None,
            },
        ),
{
    match content_type {
        Some(ct) => ct.clone(),
        None => match sniffed {
            Some(s) => s.to_string(),
            None => "application/octet-stream".to_string(),
        },
    }
}

/// The message for a signed asset over the cap for memory.
pub open spec fn output_too_large() -> Seq<char> {
    "signed output too large to return in memory"@
}

/// Holds the size of a signed asset against the cap for output in memory: an
/// asset over the cap is not returned.
pub fn check_memory_output(size: u64, limits: &LimitsConfig) -> (r: EngineResult<()>)
    ensures
        size <= limits.max_in_memory_output_size ==> r is Ok,
        size > limits.max_in_memory_output_size ==> (r matches Err(e) && e@ == ErrorModel::Config(
            output_too_large(),
        )),
{
    if size > limits.max_in_memory_output_size as u64 {
        Err(EngineError::config("signed output too large to return in memory"))
    } else {
        Ok(())
    }
}

/// The bytes of a call that was to return its output in memory: the output
/// where there is one, and a failure where the call returned none.
pub fn expect_memory_output(output: Option<Vec<u8>>) -> (r: EngineResult<Vec<u8>>)
    ensures
        match output {
            Some(buf) => r == Ok::<Vec<u8>, EngineError>(buf),
            None => r matches Err(e) && e@ == ErrorModel::Config(
                "memory output expected but none produced"@,
            ),
        },
{
    match output {
        Some(buf) => Ok(buf),
        None => Err(EngineError::config("memory output expected but none produced")),
    }
}

/// How the asset reaches the wrapped library and how the result comes back.
#[derive(Debug, Clone, Copy, PartialEq, Eq, Structural)]
pub enum SignRoute {
    /// The stream is signed as it is, into a buffer.
    StreamToMemory,
    /// The stream is signed as it is, into the target file.
    StreamToPath,
    /// The asset is had as a file and signed into a temporary file, which is
    /// read back under the cap for output in memory.
    FileToMemory,
    /// The asset is had as a file and signed into the target file.
    FileToPath,
}

/// The route of a signing call. A stream is signed as a stream, except with
/// an identity assertion, for which every asset goes through a file.
pub open spec fn sign_route(source: AssetRef, output: OutputTarget, with_identity: bool)
    -> SignRoute {
    if source is Stream && !with_identity {
        if output is Memory {
            SignRoute::StreamToMemory
        } else {
            SignRoute::StreamToPath
        }
    } else {
        if output is Memory {
            SignRoute::FileToMemory
        } else {
            SignRoute::FileToPath
        }
    }
}

/// Picks the route of a signing call.
pub fn signing_route(source: &AssetRef, output: &OutputTarget, with_identity: bool) -> (route:
    SignRoute)
    ensures
        route == sign_route(*source, *output, with_identity),
{
    let stream = match source {
        AssetRef::Stream { .. } => true,
        _ => false,
    };
    let memory = match output {
        OutputTarget::Memory => true,
        OutputTarget::Path(_) => false,
    };
    if stream && !with_identity {
        if memory {
            SignRoute::StreamToMemory
        } else {
            SignRoute::StreamToPath
        }
    } else {
        if memory {
            SignRoute::FileToMemory
        } else {
            SignRoute::FileToPath
        }
    }
}

/// Where the parent ingredient comes from.
#[derive(Debug, Clone, Copy, PartialEq, Eq, Structural)]
pub enum ParentPlan {
    NoParent,
    /// Read the ingredient from the parent's file.
    FromFile,
    /// Read the ingredient from the parent's bytes, which hold its JSON, and
    /// resolve its resources below the base directory where one is given.
    FromJson { with_base_dir: bool },
}

/// What is set on the builder of a manifest before signing.
#[derive(Debug, Clone)]
pub struct BuilderSetup {
    pub parent: ParentPlan,
    /// The URL at which the manifest will be found, where there is one.
    pub remote_url: Option<String>,
    /// Whether the manifest is kept out of the asset.
    pub no_embed: bool,
}

/// The message for a parent that is a stream.
pub open spec fn parent_stream_refused() -> Seq<char> {
    "parent ingredients from streams are not currently supported"@
}

/// The plan for the parent, or the refusal of a parent that is a stream.
pub open spec fn parent_plan(parent: Option<AssetRef>, base_dir: Option<String>) -> Result<
    ParentPlan,
    ErrorModel,
> {
    match parent {
        None => Ok(ParentPlan::NoParent),
        Some(AssetRef::Path(_)) => Ok(ParentPlan::FromFile),
        Some(AssetRef::Bytes { data }) => Ok(ParentPlan::FromJson { with_base_dir: base_dir is Some }),
        Some(AssetRef::Stream { reader, content_type }) => Err(
            ErrorModel::Config(parent_stream_refused()),
        ),
    }
}

/// The decision on a remote manifest URL: none is fine, and one must pass
/// validation, with `http` allowed only where the caller opted in.
pub open spec fn remote_url_decision(
    remote_url: Option<String>,
    allow_insecure: Option<bool>,
    resolved: Seq<IpAddress>,
) -> Result<(), ErrorModel> {
    match remote_url {
        None => Ok(()),
        Some(url) => url_decision(
            url_parse(url@),
            allow_insecure == Some(true),
            HTTP_URLS_ENABLED,
            resolved,
        ),
    }
}

/// What is set on the builder, or the first refusal: that of the parent
/// before that of the URL.
pub open spec fn builder_setup(
    parent: Option<AssetRef>,
    base_dir: Option<String>,
    remote_url: Option<String>,
    allow_insecure: Option<bool>,
    embed: bool,
    resolved: Seq<IpAddress>,
) -> Result<(ParentPlan, Option<Seq<char>>, bool), ErrorModel> {
    match parent_plan(parent, base_dir) {
        Err(e) => Err(e),
        Ok(plan) => match remote_url_decision(remote_url, allow_insecure, resolved) {
            Err(e) => Err(e),
            Ok(_) => Ok((plan, text_of(remote_url), !embed)),
        },
    }
}

/// Validates a remote manifest URL, where there is one, and hands it on.
pub fn vet_remote_url(
    remote_url: &Option<String>,
    allow_insecure: Option<bool>,
    resolved: &Vec<IpAddress>,
) -> (r: EngineResult<Option<String>>)
    ensures
        match r {
            Ok(url) => remote_url_decision(*remote_url, allow_insecure, resolved@) is Ok && text_of(
                url,
            ) == text_of(*remote_url),
            Err(e) => remote_url_decision(*remote_url, allow_insecure, resolved@) == Err::<
                (),
                ErrorModel,
            >(e@),
        },
{
    match remote_url {
        None => Ok(None),
        Some(url) => {
            let allow_http = match allow_insecure {
                Some(b) => b,
                None => false,
            };
            match validate_external_http_url(url.as_str(), allow_http, resolved) {
                Err(e) => Err(e),
                Ok(_) => Ok(Some(url.clone())),
            }
        },
    }
}

/// Decides what is set on the builder of a manifest. `resolved` holds the
/// addresses that the host of the remote manifest URL resolved to.
pub fn setup_builder(config: &C2paConfig, resolved: &Vec<IpAddress>) -> (r: EngineResult<
    BuilderSetup,
>)
    ensures
        match r {
            Ok(setup) => builder_setup(
                config.parent,
                config.parent_base_dir,
                config.remote_manifest_url,
                config.allow_insecure_remote_http,
                config.embed,
                resolved@,
            ) == Ok::<(ParentPlan, Option<Seq<char>>, bool), ErrorModel>(
                (setup.parent, text_of(setup.remote_url), setup.no_embed),
            ),
            Err(e) => builder_setup(
                config.parent,
                config.parent_base_dir,
                config.remote_manifest_url,
                config.allow_insecure_remote_http,
                config.embed,
                resolved@,
            ) == Err::<(ParentPlan, Option<Seq<char>>, bool), ErrorModel>(e@),
        },
{
    let parent = match &config.parent {
        None => ParentPlan::NoParent,
        Some(AssetRef::Path(_)) => ParentPlan::FromFile,
        Some(AssetRef::Bytes { .. }) => ParentPlan::FromJson {
            with_base_dir: config.parent_base_dir.is_some(),
        },
        Some(AssetRef::Stream { .. }) => {
            return Err(
                EngineError::config("parent ingredients from streams are not currently supported"),
            );
        },
    };
    match vet_remote_url(&config.remote_manifest_url, config.allow_insecure_remote_http, resolved) {
        Err(e) => Err(e),
        Ok(remote_url) => Ok(BuilderSetup { parent, remote_url, no_embed: !config.embed }),
    }
}

/// The fragments of a trust policy, closed by the switch for trust checks;
/// none without a policy.
pub open spec fn trust_part(policy: Option<TrustPolicyConfig>) -> Result<
    Seq<PatchModel>,
    ErrorModel,
> {
    match policy {
        None => Ok(Seq::empty()),
        Some(p) => match trust_settings(p) {
            Err(e) => Err(e),
            Ok((patches, enable)) => Ok(patches.push(PatchModel::VerifyTrust(enable))),
        },
    }
}

/// The fragments of a call: the one that every call of its kind starts
/// with, then those of the trust policy.
pub open spec fn call_settings(first: PatchModel, policy: Option<TrustPolicyConfig>) -> Result<
    Seq<PatchModel>,
    ErrorModel,
> {
    match trust_part(policy) {
        Err(e) => Err(e),
        Ok(t) => Ok(seq![first] + t),
    }
}

/// Composes the fragments of a call.
pub fn compose_settings(first: SettingsPatch, policy: &Option<TrustPolicyConfig>) -> (r:
    EngineResult<Vec<SettingsPatch>>)
    ensures
        match r {
            Ok(list) => call_settings(first@, *policy) == Ok::<Seq<PatchModel>, ErrorModel>(
                patch_views(list@),
            ),
            Err(e) => call_settings(first@, *policy) == Err::<Seq<PatchModel>, ErrorModel>(e@),
        },
{
    let mut list: Vec<SettingsPatch> = Vec::new();
    list.push(first);
    match policy {
        None => {
            assert(patch_views(list@) =~= seq![first@] + Seq::<PatchModel>::empty());
            Ok(list)
        },
        Some(p) => {
            match build_trust_settings(p) {
                Err(e) => Err(e),
                Ok((trust, enable)) => {
                    let mut trust = trust;
                    let ghost fragments = patch_views(trust@);
                    list.append(&mut trust);
                    list.push(SettingsPatch::VerifyTrust(enable));
                    assert(patch_views(list@) =~= seq![first@] + fragments.push(
                        PatchModel::VerifyTrust(enable),
                    ));
                    Ok(list)
                },
            }
        },
    }
}

/// A copy of a text that may be missing.
pub fn clone_text(text: &Option<String>) -> (copy: Option<String>)
    ensures
        text_of(copy) == text_of(*text),
{
    match text {
        Some(t) => Some(t.clone()),
        None => None,
    }
}

/// The URL of a timestamp authority that may be missing.
pub open spec fn authority_url(authority: Option<crate::timestamper::Timestamper>) -> Option<
    Seq<char>,
> {
    match authority {
        Some(t) => Some(t@.url()),
        None => None,
    }
}

/// The signer of the identity assertion and the assertions that it refers to.
#[derive(Debug, Clone)]
pub struct IdentityPlan {
    pub signer: SignerPlan,
    pub referenced_assertions: Vec<String>,
}

/// Everything about a signing call that is decided before the wrapped
/// library is called.
#[derive(Debug, Clone)]
pub struct SigningPlan {
    /// The fragments to apply around the call, in order.
    pub settings: Vec<SettingsPatch>,
    /// The manifest definition as it is handed to the builder.
    pub manifest_json: String,
    pub builder: BuilderSetup,
    /// The signer of the primary signature.
    pub primary: SignerPlan,
    /// The signer of the identity assertion, where one is added.
    pub identity: Option<IdentityPlan>,
    pub route: SignRoute,
    pub limits: LimitsConfig,
}

/// The manifest definition of a signing call: prepared with the timestamp
/// authority, and with the claim version set where an identity assertion is added.
pub open spec fn signing_manifest(config: C2paConfig, tsa_resolved: Seq<IpAddress>) -> Result<
    Seq<char>,
    ErrorModel,
> {
    match prepared_manifest(
        definition_text(config.manifest_definition),
        authority_view(config.timestamper),
        tsa_resolved,
    ) {
        Err(e) => Err(e),
        Ok(json) => if config.cawg_identity is Some {
            with_claim_version_2(json)
        } else {
            Ok(json)
        },
    }
}

/// The fragments of a signing call.
pub open spec fn sign_settings(config: C2paConfig) -> Result<Seq<PatchModel>, ErrorModel> {
    call_settings(
        PatchModel::VerifyAfterSign(!config.skip_post_sign_validation),
        config.trust_policy,
    )
}

/// What is set on the builder of a signing call.
pub open spec fn sign_builder(config: C2paConfig, remote_resolved: Seq<IpAddress>) -> Result<
    (ParentPlan, Option<Seq<char>>, bool),
    ErrorModel,
> {
    builder_setup(
        config.parent,
        config.parent_base_dir,
        config.remote_manifest_url,
        config.allow_insecure_remote_http,
        config.embed,
        remote_resolved,
    )
}

/// Why a signing call is refused before the wrapped library is called, where
/// it is: the trust policy is looked at first, then the manifest definition
/// and the timestamp authority, then the parent and the remote manifest URL,
/// and last the size of a source that is a buffer.
pub open spec fn sign_refusal(
    config: C2paConfig,
    tsa_resolved: Seq<IpAddress>,
    remote_resolved: Seq<IpAddress>,
) -> Option<ErrorModel> {
    if sign_settings(config) is Err {
        Some(sign_settings(config)->Err_0)
    } else if signing_manifest(config, tsa_resolved) is Err {
        Some(signing_manifest(config, tsa_resolved)->Err_0)
    } else if sign_builder(config, remote_resolved) is Err {
        Some(sign_builder(config, remote_resolved)->Err_0)
    } else if over_memory_cap(config.source, config.limits) {
        Some(ErrorModel::Config(too_large()))
    } else {
        None
    }
}

/// The plan is the one that the configuration calls for.
pub open spec fn is_signing_plan(
    plan: SigningPlan,
    config: C2paConfig,
    tsa_resolved: Seq<IpAddress>,
    remote_resolved: Seq<IpAddress>,
) -> bool {
    &&& sign_settings(config) == Ok::<Seq<PatchModel>, ErrorModel>(patch_views(plan.settings@))
    &&& signing_manifest(config, tsa_resolved) == Ok::<Seq<char>, ErrorModel>(plan.manifest_json@)
    &&& sign_builder(config, remote_resolved) == Ok::<
        (ParentPlan, Option<Seq<char>>, bool),
        ErrorModel,
    >((plan.builder.parent, text_of(plan.builder.remote_url), plan.builder.no_embed))
    &&& plan.route == sign_route(config.source, config.output, config.cawg_identity is Some)
    &&& plan.limits == config.limits
    &&& match config.cawg_identity {
        None => plan.identity is None && plan.primary@ == primary_plan(
            config.signer,
            config.signing_alg,
            None,
        ),
        Some(identity) => plan.primary@ == primary_plan(
            config.signer,
            config.signing_alg,
            authority_url(config.timestamper),
        ) && (match plan.identity {
            Some(p) => p.signer@ == secondary_plan(
                identity,
                config.signer,
                authority_url(config.timestamper),
            ) && texts(p.referenced_assertions@) == texts(identity.referenced_assertions@),
            None => false,
        }),
    }
}

fn signing_manifest_of(config: &C2paConfig, tsa_resolved: &Vec<IpAddress>) -> (r: EngineResult<
    String,
>)
    ensures
        match r {
            Ok(s) => signing_manifest(*config, tsa_resolved@) == Ok::<Seq<char>, ErrorModel>(s@),
            Err(e) => signing_manifest(*config, tsa_resolved@) == Err::<Seq<char>, ErrorModel>(e@),
        },
{
    let definition = clone_text(&config.manifest_definition);
    match prepare_manifest_json(definition, &config.timestamper, tsa_resolved) {
        Err(e) => Err(e),
        Ok(json) => {
            if config.cawg_identity.is_some() {
                ensure_claim_version_2(json)
            } else {
                Ok(json)
            }
        },
    }
}

/// Plans a signing call. `tsa_resolved` and `remote_resolved` hold the
/// addresses that the hosts of the timestamp authority's URL and of the
/// remote manifest URL resolved to.
///
/// The call is refused, and nothing is handed to the wrapped library, where
/// the trust policy is not text, the manifest definition cannot be prepared,
/// a URL fails validation, the parent is a stream, or the source is a buffer
/// over the cap for assets in memory.
pub fn sign_c2pa(config: &C2paConfig, tsa_resolved: &Vec<IpAddress>, remote_resolved: &Vec<
    IpAddress,
>) -> (r: EngineResult<SigningPlan>)
    ensures
        match r {
            Ok(plan) => sign_refusal(*config, tsa_resolved@, remote_resolved@) is None
                && is_signing_plan(plan, *config, tsa_resolved@, remote_resolved@),
            Err(e) => sign_refusal(*config, tsa_resolved@, remote_resolved@) == Some(e@),
        },
{
    let settings = match compose_settings(
        SettingsPatch::VerifyAfterSign(!config.skip_post_sign_validation),
        &config.trust_policy,
    ) {
        Ok(s) => s,
        Err(e) => {
            return Err(e);
        },
    };
    let manifest_json = match signing_manifest_of(config, tsa_resolved) {
        Ok(j) => j,
        Err(e) => {
            return Err(e);
        },
    };
    let builder = match setup_builder(config, remote_resolved) {
        Ok(b) => b,
        Err(e) => {
            return Err(e);
        },
    };
    match check_memory_cap(&config.source, &config.limits) {
        Ok(_) => {},
        Err(e) => {
            return Err(e);
        },
    }
    let (primary, identity) = match &config.cawg_identity {
        None => (main_signer_plan(&config.signer, config.signing_alg, None), None),
        Some(id) => {
            let main_timestamp = match &config.timestamper {
                Some(t) => t.resolve(),
                None => None,
            };
            let for_identity = clone_text(&main_timestamp);
            (
                main_signer_plan(&config.signer, config.signing_alg, main_timestamp),
                Some(
                    IdentityPlan {
                        signer: secondary_signer_plan(id, &config.signer, for_identity),
                        referenced_assertions: clone_strings(&id.referenced_assertions),
                    },
                ),
            )
        },
    };
    Ok(
        SigningPlan {
            settings,
            manifest_json,
            builder,
            primary,
            identity,
            route: signing_route(&config.source, &config.output, config.cawg_identity.is_some()),
            limits: config.limits,
        },
    )
}

/// Plans the signing of `bytes` into memory: the configuration with the
/// bytes as its source and memory as its output, and the plan for it.
pub fn sign_c2pa_bytes(
    bytes: &[u8],
    cfg: C2paConfig,
    tsa_resolved: &Vec<IpAddress>,
    remote_resolved: &Vec<IpAddress>,
) -> (r: EngineResult<(C2paConfig, SigningPlan)>)
    ensures
        match r {
            Ok((request, plan)) => request.source matches AssetRef::Bytes { data } && data@
                == bytes@ && request == (C2paConfig {
                source: request.source,
                output: OutputTarget::Memory,
                ..cfg
            }) && sign_refusal(request, tsa_resolved@, remote_resolved@) is None
                && is_signing_plan(plan, request, tsa_resolved@, remote_resolved@) && plan.route
                == SignRoute::FileToMemory,
            Err(e) => exists|data: Vec<u8>|
                data@ == bytes@ && #[trigger] sign_refusal(
                    C2paConfig {
                        source: AssetRef::Bytes { data },
                        output: OutputTarget::Memory,
                        ..cfg
                    },
                    tsa_resolved@,
                    remote_resolved@,
                ) == Some(e@),
        },
{
    let mut request = cfg;
    let data = vstd::slice::slice_to_vec(bytes);
    request.source = AssetRef::Bytes { data };
    request.output = OutputTarget::Memory;
    match sign_c2pa(&request, tsa_resolved, remote_resolved) {
        Err(e) => Err(e),
        Ok(plan) => Ok((request, plan)),
    }
}

/// How the asset reaches the wrapped library for reading.
#[derive(Debug, Clone)]
pub enum ReadRoute {
    /// The stream is read as it is, as content of this format.
    FromStream { format: String },
    /// The asset is had as a file.
    ViaFile,
}

/// Everything about a verification call that is decided before the wrapped
/// library is called.
#[derive(Debug, Clone)]
pub struct VerificationPlan {
    /// The fragments to apply around the call, in order.
    pub settings: Vec<SettingsPatch>,
    pub route: ReadRoute,
    /// The form in which the library's report is written.
    pub style: ReportStyle,
    /// Whether the identity assertion is validated.
    pub validate_identity: bool,
    pub limits: LimitsConfig,
}

/// The fragments of a verification call, or its refusal: remote manifests
/// cannot be allowed in a build without the capability.
pub open spec fn verify_settings(config: C2paVerificationConfig, remote_enabled: bool) -> Result<
    Seq<PatchModel>,
    ErrorModel,
> {
    if config.allow_remote_manifests && !remote_enabled {
        Err(ErrorModel::Feature("remote_manifests"@))
    } else {
        call_settings(PatchModel::FetchRemoteManifests(config.allow_remote_manifests), config.policy)
    }
}

/// The plan is the one that the configuration calls for.
pub open spec fn is_verification_plan(plan: VerificationPlan, config: C2paVerificationConfig)
    -> bool {
    &&& plan.style == config.mode.style()
    &&& plan.validate_identity == (config.cawg matches Some(o) && o.validate)
    &&& plan.limits == config.limits
    &&& match config.source {
        AssetRef::Stream { reader, content_type } => plan.route matches ReadRoute::FromStream {
            format,
        } && format@ == format_of(text_of(content_type), None),
        _ => plan.route is ViaFile,
    }
}

/// Why a verification call is refused before the wrapped library is called,
/// where it is: for remote manifests that the build cannot fetch, for a
/// trust policy that is not text, or for a source that is a buffer over the
/// cap for assets in memory, in this order.
pub open spec fn verify_refusal(config: C2paVerificationConfig, remote_enabled: bool) -> Option<
    ErrorModel,
> {
    if verify_settings(config, remote_enabled) is Err {
        Some(verify_settings(config, remote_enabled)->Err_0)
    } else if over_memory_cap(config.source, config.limits) {
        Some(ErrorModel::Config(too_large()))
    } else {
        None
    }
}

/// Plans a verification call, with the capabilities given.
pub fn plan_verification(config: &C2paVerificationConfig, remote_enabled: bool) -> (r:
    EngineResult<VerificationPlan>)
    ensures
        match r {
            Ok(plan) => verify_refusal(*config, remote_enabled) is None && verify_settings(
                *config,
                remote_enabled,
            ) == Ok::<Seq<PatchModel>, ErrorModel>(patch_views(plan.settings@))
                && is_verification_plan(plan, *config),
            Err(e) => verify_refusal(*config, remote_enabled) == Some(e@),
        },
{
    if config.allow_remote_manifests && !remote_enabled {
        return Err(EngineError::Feature("remote_manifests".to_string()));
    }
    let settings = match compose_settings(
        SettingsPatch::FetchRemoteManifests(config.allow_remote_manifests),
        &config.policy,
    ) {
        Ok(s) => s,
        Err(e) => {
            return Err(e);
        },
    };
    match check_memory_cap(&config.source, &config.limits) {
        Ok(_) => {},
        Err(e) => {
            return Err(e);
        },
    }
    let route = match &config.source {
        AssetRef::Stream { reader, content_type } => ReadRoute::FromStream {
            format: stream_format(content_type, None),
        },
        _ => ReadRoute::ViaFile,
    };
    Ok(
        VerificationPlan {
            settings,
            route,
            style: config.mode.report_style(),
            validate_identity: wants_validation(&config.cawg),
            limits: config.limits,
        },
    )
}

/// Plans a verification call.
///
/// The call is refused where it allows remote manifests, which this build
/// cannot fetch, where the trust policy is not text, or where the source is
/// a buffer over the cap for assets in memory.
pub fn verify_c2pa(config: &C2paVerificationConfig) -> (r: EngineResult<VerificationPlan>)
    ensures
        match r {
            Ok(plan) => verify_refusal(*config, REMOTE_MANIFESTS_ENABLED) is None
                && verify_settings(*config, REMOTE_MANIFESTS_ENABLED) == Ok::<
                Seq<PatchModel>,
                ErrorModel,
            >(patch_views(plan.settings@)) && is_verification_plan(plan, *config),
            Err(e) => verify_refusal(*config, REMOTE_MANIFESTS_ENABLED) == Some(e@),
        },
{
    plan_verification(config, REMOTE_MANIFESTS_ENABLED)
}

/// How an ingredient is made from an asset.
#[derive(Debug, Clone)]
pub enum IngredientRoute {
    /// The stream is read as it is, as content of this format, and the
    /// ingredient's JSON is returned.
    StreamToMemory { format: String },
    /// The asset is had as a file, and the ingredient's JSON is returned.
    FileToMemory,
    /// The asset is had as a file, and the ingredient is written with its
    /// resources into this directory, its JSON as `ingredient.json`. The
    /// directory is created before a stream is had as a file, and after a
    /// path or a buffer is.
    FileToFolder { dir: String, directory_first: bool },
}

/// The plan for an ingredient.
#[derive(Debug, Clone)]
pub struct IngredientPlan {
    pub route: IngredientRoute,
    pub limits: LimitsConfig,
}

/// The route is the one that the configuration calls for: a directory is
/// always written from a file, and only a stream that is returned in memory
/// is read as a stream.
pub open spec fn is_ingredient_route(route: IngredientRoute, config: IngredientConfig) -> bool {
    match config.output {
        OutputTarget::Path(dir) => route matches IngredientRoute::FileToFolder {
            dir: d,
            directory_first,
        } && d@ == dir@ && directory_first == (config.source is Stream),
        OutputTarget::Memory => match config.source {
            AssetRef::Stream { reader, content_type } => route matches IngredientRoute::StreamToMemory {
                format,
            } && format@ == format_of(text_of(content_type), None),
            _ => route is FileToMemory,
        },
    }
}

/// The source is a buffer over the cap for assets in memory. Such a buffer is
/// never had as a file, so no ingredient is made from it.
pub open spec fn ingredient_refused(config: IngredientConfig) -> bool {
    over_memory_cap(config.source, config.limits)
}

/// Plans the making of an ingredient, and refuses a buffer over the cap
/// before anything is created.
pub fn create_ingredient(config: &IngredientConfig) -> (r: EngineResult<IngredientPlan>)
    ensures
        match r {
            Ok(plan) => !ingredient_refused(*config) && is_ingredient_route(plan.route, *config)
                && plan.limits == config.limits,
            Err(e) => ingredient_refused(*config) && e@ == ErrorModel::Config(too_large()),
        },
{
    match check_memory_cap(&config.source, &config.limits) {
        Ok(_) => {},
        Err(e) => {
            return Err(e);
        },
    }
    let stream = match &config.source {
        AssetRef::Stream { .. } => true,
        _ => false,
    };
    let route = match &config.output {
        OutputTarget::Path(dir) => IngredientRoute::FileToFolder {
            dir: dir.clone(),
            directory_first: stream,
        },
        OutputTarget::Memory => match &config.source {
            AssetRef::Stream { reader, content_type } => IngredientRoute::StreamToMemory {
                format: stream_format(content_type, None),
            },
            _ => IngredientRoute::FileToMemory,
        },
    };
    Ok(IngredientPlan { route, limits: config.limits })
}

/// Everything about the signing of a fragmented asset that is decided
/// before the wrapped library is called.
#[derive(Debug, Clone)]
pub struct FragmentPlan {
    /// The fragments of configuration to apply around the call.
    pub settings: Vec<SettingsPatch>,
    pub manifest_json: String,
    pub remote_url: Option<String>,
    pub no_embed: bool,
    pub primary: SignerPlan,
}

/// Why the signing of a fragmented asset is refused before the wrapped
/// library is called, where it is: the manifest definition and the
/// timestamp authority are looked at first, then the remote manifest URL.
pub open spec fn fragment_refusal(
    cfg: FragmentedBmffConfig,
    tsa_resolved: Seq<IpAddress>,
    remote_resolved: Seq<IpAddress>,
) -> Option<ErrorModel> {
    let manifest = prepared_manifest(
        definition_text(cfg.manifest_definition),
        authority_view(cfg.timestamper),
        tsa_resolved,
    );
    let remote = remote_url_decision(
        cfg.remote_manifest_url,
        cfg.allow_insecure_remote_http,
        remote_resolved,
    );
    if manifest is Err {
        Some(manifest->Err_0)
    } else if remote is Err {
        Some(remote->Err_0)
    } else {
        None
    }
}

/// The plan is the one that the configuration calls for.
pub open spec fn is_fragment_plan(
    plan: FragmentPlan,
    cfg: FragmentedBmffConfig,
    tsa_resolved: Seq<IpAddress>,
) -> bool {
    &&& patch_views(plan.settings@) == seq![
        PatchModel::VerifyAfterSign(!cfg.skip_post_sign_validation),
    ]
    &&& prepared_manifest(
        definition_text(cfg.manifest_definition),
        authority_view(cfg.timestamper),
        tsa_resolved,
    ) == Ok::<Seq<char>, ErrorModel>(plan.manifest_json@)
    &&& text_of(plan.remote_url) == text_of(cfg.remote_manifest_url)
    &&& plan.no_embed == !cfg.embed
    &&& plan.primary@ == primary_plan(cfg.signer, cfg.signing_alg, None)
}

/// Plans the signing of a fragmented asset. Finding the segments and
/// signing them is the caller's work.
pub fn generate_fragmented_bmff(
    cfg: &FragmentedBmffConfig,
    tsa_resolved: &Vec<IpAddress>,
    remote_resolved: &Vec<IpAddress>,
) -> (r: EngineResult<FragmentPlan>)
    ensures
        match r {
            Ok(plan) => fragment_refusal(*cfg, tsa_resolved@, remote_resolved@) is None
                && is_fragment_plan(plan, *cfg, tsa_resolved@),
            Err(e) => fragment_refusal(*cfg, tsa_resolved@, remote_resolved@) == Some(e@),
        },
{
    let mut settings: Vec<SettingsPatch> = Vec::new();
    settings.push(SettingsPatch::VerifyAfterSign(!cfg.skip_post_sign_validation));
    assert(patch_views(settings@) =~= seq![
        PatchModel::VerifyAfterSign(!cfg.skip_post_sign_validation),
    ]);
    let definition = clone_text(&cfg.manifest_definition);
    let manifest_json = match prepare_manifest_json(definition, &cfg.timestamper, tsa_resolved) {
        Ok(j) => j,
        Err(e) => {
            return Err(e);
        },
    };
    let remote_url = match vet_remote_url(
        &cfg.remote_manifest_url,
        cfg.allow_insecure_remote_http,
        remote_resolved,
    ) {
        Ok(u) => u,
        Err(e) => {
            return Err(e);
        },
    };
    Ok(
        FragmentPlan {
            settings,
            manifest_json,
            remote_url,
            no_embed: !cfg.embed,
            primary: main_signer_plan(&cfg.signer, cfg.signing_alg, None),
        },
    )
}

impl C2pa {
    /// Plans the signing of a fragmented asset.
    pub fn generate_fragmented_bmff(
        cfg: &FragmentedBmffConfig,
        tsa_resolved: &Vec<IpAddress>,
        remote_resolved: &Vec<IpAddress>,
    ) -> (r: EngineResult<FragmentPlan>)
        ensures
            match r {
                Ok(plan) => fragment_refusal(*cfg, tsa_resolved@, remote_resolved@) is None
                    && is_fragment_plan(plan, *cfg, tsa_resolved@),
                Err(e) => fragment_refusal(*cfg, tsa_resolved@, remote_resolved@) == Some(e@),
            },
    {
        generate_fragmented_bmff(cfg, tsa_resolved, remote_resolved)
    }

    /// Plans the making of an ingredient, and refuses a buffer over the cap
    /// before anything is created.
    pub fn create_ingredient(config: &IngredientConfig) -> (r: EngineResult<IngredientPlan>)
        ensures
            match r {
                Ok(plan) => !ingredient_refused(*config) && is_ingredient_route(
                    plan.route,
                    *config,
                ) && plan.limits == config.limits,
                Err(e) => ingredient_refused(*config) && e@ == ErrorModel::Config(too_large()),
            },
    {
        create_ingredient(config)
    }
}

} // verus!
