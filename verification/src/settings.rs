//! Fragments of configuration for the wrapped library, and how a trust policy
//! becomes fragments.

use vstd::prelude::*;
use vstd::utf8::{decode_utf8, valid_utf8};
use crate::error::{EngineError, EngineResult, ErrorModel};
use crate::text::str_from_utf8;
use crate::types::TrustPolicyConfig;

verus! {

/// One partial override of the wrapped library's configuration. Fragments are
/// applied from left to right on top of the empty baseline, and a later
/// fragment wins over an earlier one with the same key.
#[derive(Debug, Clone)]
pub enum SettingsPatch {
    /// Whether a fresh signature is verified right after signing.
    VerifyAfterSign(bool),
    /// Whether verification fetches a manifest that the asset points to.
    FetchRemoteManifests(bool),
    /// Trust anchors as PEM text; any path to an anchor file is cleared.
    TrustAnchors(String),
    /// Allowed signing certificates as PEM text; any path to a list is cleared.
    AllowedList(String),
    /// Allowed extended key usages, as OIDs in dot notation.
    AllowedEkus(Vec<String>),
    /// Whether identity assertions are checked against the trust lists.
    VerifyIdentityTrust(bool),
    /// Whether signatures are checked against the trust lists.
    VerifyTrust(bool),
}

/// The key that a fragment overrides.
#[derive(Debug, Clone, Copy, PartialEq, Eq, Structural)]
pub enum SettingKey {
    VerifyAfterSign,
    FetchRemoteManifests,
    TrustAnchors,
    AllowedList,
    AllowedEkus,
    VerifyIdentityTrust,
    VerifyTrust,
}

pub enum PatchModel {
    VerifyAfterSign(bool),
    FetchRemoteManifests(bool),
    TrustAnchors(Seq<char>),
    AllowedList(Seq<char>),
    AllowedEkus(Seq<Seq<char>>),
    VerifyIdentityTrust(bool),
    VerifyTrust(bool),
}

/// The texts of a list of strings.
pub open spec fn texts(list: Seq<String>) -> Seq<Seq<char>> {
    Seq::new(list.len(), |i: int| list[i]@)
}

/// The views of a list of fragments.
pub open spec fn patch_views(list: Seq<SettingsPatch>) -> Seq<PatchModel> {
    Seq::new(list.len(), |i: int| list[i]@)
}

impl View for SettingsPatch {
    type V = PatchModel;

    open spec fn view(&self) -> PatchModel {
        match self {
            SettingsPatch::VerifyAfterSign(b) => PatchModel::VerifyAfterSign(*b),
            SettingsPatch::FetchRemoteManifests(b) => PatchModel::FetchRemoteManifests(*b),
            SettingsPatch::TrustAnchors(t) => PatchModel::TrustAnchors(t@),
            SettingsPatch::AllowedList(t) => PatchModel::AllowedList(t@),
            SettingsPatch::AllowedEkus(l) => PatchModel::AllowedEkus(texts(l@)),
            SettingsPatch::VerifyIdentityTrust(b) => PatchModel::VerifyIdentityTrust(*b),
            SettingsPatch::VerifyTrust(b) => PatchModel::VerifyTrust(*b),
        }
    }
}

impl PatchModel {
    pub open spec fn key(self) -> SettingKey {
        match self {
            PatchModel::VerifyAfterSign(_) => SettingKey::VerifyAfterSign,
            PatchModel::FetchRemoteManifests(_) => SettingKey::FetchRemoteManifests,
            PatchModel::TrustAnchors(_) => SettingKey::TrustAnchors,
            PatchModel::AllowedList(_) => SettingKey::AllowedList,
            PatchModel::AllowedEkus(_) => SettingKey::AllowedEkus,
            PatchModel::VerifyIdentityTrust(_) => SettingKey::VerifyIdentityTrust,
            PatchModel::VerifyTrust(_) => SettingKey::VerifyTrust,
        }
    }
}

impl SettingsPatch {
    /// The key that this fragment overrides.
    pub fn key(&self) -> (k: SettingKey)
        ensures
            k == self@.key(),
    {
        match self {
            SettingsPatch::VerifyAfterSign(_) => SettingKey::VerifyAfterSign,
            SettingsPatch::FetchRemoteManifests(_) => SettingKey::FetchRemoteManifests,
            SettingsPatch::TrustAnchors(_) => SettingKey::TrustAnchors,
            SettingsPatch::AllowedList(_) => SettingKey::AllowedList,
            SettingsPatch::AllowedEkus(_) => SettingKey::AllowedEkus,
            SettingsPatch::VerifyIdentityTrust(_) => SettingKey::VerifyIdentityTrust,
            SettingsPatch::VerifyTrust(_) => SettingKey::VerifyTrust,
        }
    }
}

/// The configuration that the fragments leave on top of the empty baseline:
/// for each key the last fragment that overrides it.
pub open spec fn effective(patches: Seq<PatchModel>) -> Map<SettingKey, PatchModel>
    decreases patches.len(),
{
    if patches.len() == 0 {
        Map::empty()
    } else {
        effective(patches.drop_last()).insert(patches.last().key(), patches.last())
    }
}

/// No fragment leaves the baseline as it is, and a key holds what the last
/// fragment for it says, whatever came before.
pub proof fn lemma_last_write_wins(patches: Seq<PatchModel>, last: PatchModel)
    ensures
        effective(Seq::<PatchModel>::empty()) == Map::<SettingKey, PatchModel>::empty(),
        effective(patches.push(last))[last.key()] == last,
        forall|k: SettingKey|
            k != last.key() && effective(patches).dom().contains(k) ==> effective(
                patches.push(last),
            )[k] == effective(patches)[k],
{
    assert(patches.push(last).drop_last() =~= patches);
    assert(patches.push(last).last() == last);
}

/// The fragment for the trust anchors, where the policy has any.
pub open spec fn anchors_part(policy: TrustPolicyConfig) -> Seq<PatchModel> {
    match policy.anchors {
        Some(bytes) => seq![PatchModel::TrustAnchors(decode_utf8(bytes@))],
        None => seq![],
    }
}

/// The fragment for the allowed list, where the policy has one.
pub open spec fn allowed_part(policy: TrustPolicyConfig) -> Seq<PatchModel> {
    match policy.allowed_list {
        Some(bytes) => seq![PatchModel::AllowedList(decode_utf8(bytes@))],
        None => seq![],
    }
}

/// The fragment for the allowed key usages, where the policy has any.
pub open spec fn ekus_part(policy: TrustPolicyConfig) -> Seq<PatchModel> {
    match policy.allowed_ekus {
        Some(list) => seq![PatchModel::AllowedEkus(texts(list@))],
        None => seq![],
    }
}

/// The fragment for the trust of identity assertions, where the policy says.
pub open spec fn identity_part(policy: TrustPolicyConfig) -> Seq<PatchModel> {
    match policy.verify_identity_trust {
        Some(v) => seq![PatchModel::VerifyIdentityTrust(v)],
        None => seq![],
    }
}

/// Whether the policy holds anything to check signatures against.
pub open spec fn enables_trust(policy: TrustPolicyConfig) -> bool {
    policy.anchors is Some || policy.allowed_list is Some || policy.allowed_ekus is Some
}

/// The fragments of a trust policy and whether trust checks are switched on.
/// Anchors or an allowed list that are not well-formed UTF-8 are refused, the
/// anchors first.
pub open spec fn trust_settings(policy: TrustPolicyConfig) -> Result<
    (Seq<PatchModel>, bool),
    ErrorModel,
> {
    if policy.anchors is Some && !valid_utf8(policy.anchors->0@) {
        Err(ErrorModel::Config("trust anchors must be valid UTF-8"@))
    } else if policy.allowed_list is Some && !valid_utf8(policy.allowed_list->0@) {
        Err(ErrorModel::Config("allowed list must be valid UTF-8"@))
    } else {
        Ok(
            (
                anchors_part(policy) + allowed_part(policy) + ekus_part(policy) + identity_part(
                    policy,
                ),
                enables_trust(policy),
            ),
        )
    }
}

/// A copy of a list of strings.
pub fn clone_strings(list: &Vec<String>) -> (out: Vec<String>)
    ensures
        texts(out@) == texts(list@),
{
    let mut out: Vec<String> = Vec::new();
    let mut i: usize = 0;
    while i < list.len()
        invariant
            i <= list@.len(),
            out@.len() == i,
            forall|k: int| 0 <= k < i ==> out@[k]@ == list@[k]@,
        decreases list@.len() - i,
    {
        out.push(list[i].clone());
        i += 1;
    }
    assert(texts(out@) =~= texts(list@));
    out
}

/// Turns a trust policy into fragments, in the order anchors, allowed list,
/// key usages, identity trust, and says whether trust checks are to be
/// switched on: they are where the policy holds anchors, an allowed list or
/// key usages.
pub fn build_trust_settings(policy: &TrustPolicyConfig) -> (r: EngineResult<
    (Vec<SettingsPatch>, bool),
>)
    ensures
        match r {
            Ok((patches, enable)) => trust_settings(*policy) == Ok::<
                (Seq<PatchModel>, bool),
                ErrorModel,
            >((patch_views(patches@), enable)),
            Err(e) => trust_settings(*policy) == Err::<(Seq<PatchModel>, bool), ErrorModel>(e@),
        },
{
    let mut settings: Vec<SettingsPatch> = Vec::new();
    let mut enable_trust = false;
    if let Some(anchors) = &policy.anchors {
        match str_from_utf8(anchors.as_slice()) {
            None => {
                return Err(EngineError::config("trust anchors must be valid UTF-8"));
            },
            Some(pem) => {
                settings.push(SettingsPatch::TrustAnchors(pem.to_owned()));
                enable_trust = true;
            },
        }
    }
    assert(patch_views(settings@) =~= anchors_part(*policy));
    if let Some(allowed) = &policy.allowed_list {
        match str_from_utf8(allowed.as_slice()) {
            None => {
                return Err(EngineError::config("allowed list must be valid UTF-8"));
            },
            Some(pem) => {
                settings.push(SettingsPatch::AllowedList(pem.to_owned()));
                enable_trust = true;
            },
        }
    }
    assert(patch_views(settings@) =~= anchors_part(*policy) + allowed_part(*policy));
    if let Some(ekus) = &policy.allowed_ekus {
        settings.push(SettingsPatch::AllowedEkus(clone_strings(ekus)));
        enable_trust = true;
    }
    assert(patch_views(settings@) =~= anchors_part(*policy) + allowed_part(*policy) + ekus_part(
        *policy,
    ));
    if let Some(v) = policy.verify_identity_trust {
        settings.push(SettingsPatch::VerifyIdentityTrust(v));
    }
    assert(patch_views(settings@) =~= anchors_part(*policy) + allowed_part(*policy) + ekus_part(
        *policy,
    ) + identity_part(*policy));
    Ok((settings, enable_trust))
}

} // verus!
