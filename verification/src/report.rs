//! From what the wrapped library observed of an asset to the result of
//! verification.

use vstd::prelude::*;
use crate::cawg::{enforce_identity, CawgVerification, CawgVerifyOptions};
use crate::error::{EngineError, EngineResult, ErrorModel};
use crate::verify::{verdict_from_statuses, verdict_of, CertInfo, ValidationStatus,
    VerificationResult, Verdict};

verus! {

/// What the signature of the active manifest says of its signer.
#[derive(Debug, Clone)]
pub struct SignatureInfo {
    pub alg: Option<String>,
    pub issuer: Option<String>,
    pub cert_serial_number: Option<String>,
    pub time: Option<String>,
    pub revocation_status: Option<bool>,
    /// The certificate chain in PEM format; empty where there is none.
    pub cert_chain: String,
}

/// The validation statuses of one manifest, by kind.
#[derive(Debug, Clone)]
pub struct StatusGroups {
    pub success: Vec<ValidationStatus>,
    pub informational: Vec<ValidationStatus>,
    pub failure: Vec<ValidationStatus>,
}

/// The validation results of an asset: those of the active manifest and
/// those of each ingredient.
#[derive(Debug, Clone)]
pub struct ValidationReport {
    pub active_manifest: Option<StatusGroups>,
    pub ingredient_deltas: Option<Vec<StatusGroups>>,
}

/// What the wrapped library observed of an asset.
#[derive(Debug, Clone)]
pub struct VerificationEvidence {
    /// The library's report, written in the style of the request's mode.
    pub report: String,
    pub is_embedded: bool,
    pub remote_url: Option<String>,
    /// The signature of the active manifest, where there is one.
    pub signature: Option<SignatureInfo>,
    /// The validation results, where there are any.
    pub validation: Option<ValidationReport>,
    /// The result of identity validation, where it ran.
    pub identity: Option<CawgVerification>,
}

/// The certificate summary of a signature: every field as it is, and the
/// chain only where it is not empty.
pub open spec fn cert_info_of(signature: SignatureInfo) -> CertInfo {
    CertInfo {
        alg: signature.alg,
        issuer: signature.issuer,
        cert_serial_number: signature.cert_serial_number,
        time: signature.time,
        revocation_status: signature.revocation_status,
        chain_pem: if signature.cert_chain@.len() == 0 {
            None
        } else {
            Some(signature.cert_chain)
        },
    }
}

/// Summarises the signer of a signature.
pub fn cert_info_from(signature: SignatureInfo) -> (info: CertInfo)
    ensures
        info == cert_info_of(signature),
{
    let has_chain = !signature.cert_chain.as_str().is_empty();
    CertInfo {
        alg: signature.alg,
        issuer: signature.issuer,
        cert_serial_number: signature.cert_serial_number,
        time: signature.time,
        revocation_status: signature.revocation_status,
        chain_pem: if has_chain {
            Some(signature.cert_chain)
        } else {
            None
        },
    }
}

/// The certificates of a result: the summary of the signature where
/// certificates were asked for and there is a signature, and nothing otherwise.
pub open spec fn certificates_of(asked: Option<bool>, signature: Option<SignatureInfo>) -> Option<
    Seq<CertInfo>,
> {
    if asked == Some(true) && signature is Some {
        Some(seq![cert_info_of(signature->0)])
    } else {
        None
    }
}

/// The statuses of one manifest: successes, then informational ones, then failures.
pub open spec fn group_statuses(g: StatusGroups) -> Seq<ValidationStatus> {
    g.success@ + g.informational@ + g.failure@
}

/// The statuses of the ingredients, ingredient by ingredient.
pub open spec fn delta_statuses(deltas: Seq<StatusGroups>) -> Seq<ValidationStatus>
    decreases deltas.len(),
{
    if deltas.len() == 0 {
        Seq::empty()
    } else {
        group_statuses(deltas[0]) + delta_statuses(deltas.drop_first())
    }
}

/// Every status of a report: those of the active manifest, then those of
/// the ingredients.
pub open spec fn all_statuses(report: ValidationReport) -> Seq<ValidationStatus> {
    (match report.active_manifest {
        Some(g) => group_statuses(g),
        None => Seq::empty(),
    }) + (match report.ingredient_deltas {
        Some(d) => delta_statuses(d@),
        None => Seq::empty(),
    })
}

fn take_group(all: &mut Vec<ValidationStatus>, group: StatusGroups)
    ensures
        final(all)@ == old(all)@ + group_statuses(group),
{
    let mut taken = group;
    all.append(&mut taken.success);
    all.append(&mut taken.informational);
    all.append(&mut taken.failure);
    assert(all@ =~= old(all)@ + group_statuses(group));
}

/// Collects the statuses of a report into one list.
pub fn collect_statuses(report: ValidationReport) -> (all: Vec<ValidationStatus>)
    ensures
        all@ == all_statuses(report),
{
    let mut all: Vec<ValidationStatus> = Vec::new();
    if let Some(active) = report.active_manifest {
        take_group(&mut all, active);
    }
    let ghost head = all@;
    if let Some(deltas) = report.ingredient_deltas {
        let mut rest = deltas;
        while rest.len() > 0
            invariant
                all@ + delta_statuses(rest@) == head + delta_statuses(deltas@),
            decreases rest@.len(),
        {
            let ghost before = rest@;
            let ghost so_far = all@;
            let group = rest.remove(0);
            assert(rest@ =~= before.drop_first());
            take_group(&mut all, group);
            assert(all@ + delta_statuses(rest@) =~= so_far + delta_statuses(before));
        }
        assert(all@ =~= head + delta_statuses(deltas@));
    } else {
        assert(all@ =~= head + Seq::<ValidationStatus>::empty());
    }
    all
}

/// The result of verification for a request and what was observed.
///
/// Verification fails where the request requires a valid identity and
/// identity validation ran and found none that is valid. Otherwise the
/// result holds the report as it was written, the certificates where the
/// request asked for them, every status in order, and the verdict on the
/// statuses; without validation results it holds neither statuses nor verdict.
pub fn verification_result(
    include_certificates: Option<bool>,
    identity_options: Option<CawgVerifyOptions>,
    evidence: VerificationEvidence,
) -> (r: EngineResult<VerificationResult>)
    ensures
        r is Err <==> (identity_options matches Some(o) && evidence.identity matches Some(v)
            && o.require_valid_identity && (!v.present || !v.valid)),
        r matches Err(e) ==> e@ == ErrorModel::VerificationFailed,
        r matches Ok(res) ==> {
            &&& res.report == evidence.report
            &&& res.is_embedded == Some(evidence.is_embedded)
            &&& res.remote_url == evidence.remote_url
            &&& res.cawg == evidence.identity
            &&& match res.certificates {
                Some(list) => certificates_of(include_certificates, evidence.signature) == Some(
                    list@,
                ),
                None => certificates_of(include_certificates, evidence.signature) is None,
            }
            &&& match evidence.validation {
                Some(report) => res.status matches Some(list) && list@ == all_statuses(report)
                    && res.verdict == Some(verdict_of(list@)),
                None => res.status is None && res.verdict is None,
            }
        },
{
    if let Some(options) = &identity_options {
        if let Some(found) = &evidence.identity {
            match enforce_identity(options, found) {
                Err(e) => {
                    return Err(e);
                },
                Ok(_) => {},
            }
        }
    }
    let wanted = match include_certificates {
        Some(b) => b,
        None => false,
    };
    let certificates = if wanted {
        match evidence.signature {
            Some(signature) => {
                let mut list: Vec<CertInfo> = Vec::new();
                list.push(cert_info_from(signature));
                assert(list@ =~= seq![cert_info_of(signature)]);
                Some(list)
            },
            None => None,
        }
    } else {
        None
    };
    let (status, verdict) = match evidence.validation {
        Some(report) => {
            let list = collect_statuses(report);
            let verdict = verdict_from_statuses(&list);
            (Some(list), Some(verdict))
        },
        None => (None, None),
    };
    Ok(
        VerificationResult {
            report: evidence.report,
            certificates,
            status,
            verdict,
            is_embedded: Some(evidence.is_embedded),
            remote_url: evidence.remote_url,
            cawg: evidence.identity,
        },
    )
}

} // verus!
