//! What verification reports: certificates, validation statuses and a verdict.

use vstd::prelude::*;
use crate::cawg::CawgVerification;
use crate::text::{chars_of, contains, contains_text};
use crate::types::VerifyMode;

verus! {

/// Certificate summary extracted from the active claim signature.
#[derive(Debug, Clone)]
pub struct CertInfo {
    pub alg: Option<String>,
    pub issuer: Option<String>,
    pub cert_serial_number: Option<String>,
    pub time: Option<String>,
    pub revocation_status: Option<bool>,
    /// The full certificate chain in PEM format.
    pub chain_pem: Option<String>,
}

impl Default for CertInfo {
    fn default() -> (info: CertInfo)
        ensures
            info.alg is None,
            info.issuer is None,
            info.cert_serial_number is None,
            info.time is None,
            info.revocation_status is None,
            info.chain_pem is None,
    {
        CertInfo {
            alg: None,
            issuer: None,
            cert_serial_number: None,
            time: None,
            revocation_status: None,
            chain_pem: None,
        }
    }
}

/// Structured validation status entry.
#[derive(Debug, Clone)]
pub struct ValidationStatus {
    pub code: String,
    pub url: Option<String>,
    pub explanation: Option<String>,
    pub ingredient_uri: Option<String>,
    pub passed: bool,
}

/// The outcome of verification in one word.
#[derive(Debug, Clone, Copy, PartialEq, Eq, Structural)]
pub enum Verdict {
    Allowed,
    Warning,
    Rejected,
}

/// The result of verification: the wrapped library's report as text, and
/// what was read off it.
#[derive(Debug, Clone)]
pub struct VerificationResult {
    pub report: String,
    /// The certificates involved in signing, where they were asked for.
    pub certificates: Option<Vec<CertInfo>>,
    /// Structured validation statuses.
    pub status: Option<Vec<ValidationStatus>>,
    pub verdict: Option<Verdict>,
    /// Whether the manifest is embedded in the asset.
    pub is_embedded: Option<bool>,
    /// The remote manifest URL, if present.
    pub remote_url: Option<String>,
    /// The result of identity validation, where it ran.
    pub cawg: Option<CawgVerification>,
}

/// How the wrapped library's report is written out.
#[derive(Debug, Clone, Copy, PartialEq, Eq, Structural)]
pub enum ReportStyle {
    /// The short form for reading.
    Display,
    /// The full form with every field.
    Debug,
}

impl VerifyMode {
    /// The full form for the detailed and the tree mode, the short form for
    /// the summary and the info mode.
    pub open spec fn style(self) -> ReportStyle {
        match self {
            VerifyMode::Detailed | VerifyMode::Tree => ReportStyle::Debug,
            VerifyMode::Info | VerifyMode::Summary => ReportStyle::Display,
        }
    }

    /// The form in which the report is written for this mode.
    pub fn report_style(self) -> (style: ReportStyle)
        ensures
            style == self.style(),
    {
        match self {
            VerifyMode::Detailed | VerifyMode::Tree => ReportStyle::Debug,
            VerifyMode::Info | VerifyMode::Summary => ReportStyle::Display,
        }
    }
}

/// Some status did not pass.
pub open spec fn any_failed(statuses: Seq<ValidationStatus>) -> bool {
    exists|i: int| 0 <= i < statuses.len() && !(#[trigger] statuses[i]).passed
}

/// Some status has a code that holds the word `warning`.
pub open spec fn any_warning(statuses: Seq<ValidationStatus>) -> bool {
    exists|i: int|
        0 <= i < statuses.len() && contains_text((#[trigger] statuses[i]).code@, "warning"@)
}

/// The verdict on a list of statuses: rejected where any did not pass,
/// otherwise a warning where any code speaks of one, otherwise allowed.
pub open spec fn verdict_of(statuses: Seq<ValidationStatus>) -> Verdict {
    if any_failed(statuses) {
        Verdict::Rejected
    } else if any_warning(statuses) {
        Verdict::Warning
    } else {
        Verdict::Allowed
    }
}

/// Maps validation statuses to a verdict.
pub fn verdict_from_statuses(statuses: &Vec<ValidationStatus>) -> (verdict: Verdict)
    ensures
        verdict == verdict_of(statuses@),
{
    let word = chars_of("warning");
    let mut warned = false;
    let mut i: usize = 0;
    while i < statuses.len()
        invariant
            i <= statuses@.len(),
            word@ == "warning"@,
            forall|k: int| 0 <= k < i ==> (#[trigger] statuses@[k]).passed,
            warned == any_warning(statuses@.subrange(0, i as int)),
        decreases statuses@.len() - i,
    {
        if !statuses[i].passed {
            return Verdict::Rejected;
        }
        let code = chars_of(statuses[i].code.as_str());
        let here = contains(&code, &word);
        proof {
            let before = statuses@.subrange(0, i as int);
            let after = statuses@.subrange(0, i + 1);
            assert(after[i as int] == statuses@[i as int]);
            if any_warning(before) {
                let k = choose|k: int|
                    0 <= k < before.len() && contains_text((#[trigger] before[k]).code@, "warning"@);
                assert(after[k] == before[k]);
            }
            if any_warning(after) && !here {
                let k = choose|k: int|
                    0 <= k < after.len() && contains_text((#[trigger] after[k]).code@, "warning"@);
                assert(before[k] == after[k]);
            }
        }
        warned = warned || here;
        i += 1;
    }
    assert(statuses@.subrange(0, i as int) =~= statuses@);
    if warned {
        Verdict::Warning
    } else {
        Verdict::Allowed
    }
}

/// One failed status rejects, whatever else the list holds.
pub proof fn lemma_failure_rejects(statuses: Seq<ValidationStatus>, i: int)
    requires
        0 <= i < statuses.len(),
        !statuses[i].passed,
    ensures
        verdict_of(statuses) == Verdict::Rejected,
{
}

/// Nothing to object to is allowed: an empty list gives `Allowed`.
pub proof fn lemma_no_status_is_allowed()
    ensures
        verdict_of(Seq::<ValidationStatus>::empty()) == Verdict::Allowed,
{
}

} // verus!
