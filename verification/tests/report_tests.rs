use que_engine::report::{cert_info_from, collect_statuses, verification_result, SignatureInfo,
    StatusGroups, ValidationReport, VerificationEvidence};
use que_engine::text::{chars_of, contains, find_from, format_decimal, starts_with, str_eq, substring};
use que_engine::verify::verdict_from_statuses;
use que_engine::{create_cawg_verify_options, CawgVerification, CertInfo, EngineError,
    ValidationStatus, Verdict};

fn status(code: &str, passed: bool) -> ValidationStatus {
    ValidationStatus { code: code.to_string(), url: None, explanation: None, ingredient_uri: None, passed }
}

fn group(success: &[&str], informational: &[&str], failure: &[&str]) -> StatusGroups {
    StatusGroups {
        success: success.iter().map(|c| status(c, true)).collect(),
        informational: informational.iter().map(|c| status(c, true)).collect(),
        failure: failure.iter().map(|c| status(c, false)).collect(),
    }
}

fn evidence() -> VerificationEvidence {
    VerificationEvidence {
        report: "Reader { ... }".to_string(),
        is_embedded: true,
        remote_url: Some("https://example.com/m.c2pa".to_string()),
        signature: Some(SignatureInfo {
            alg: Some("Es256".to_string()),
            issuer: Some("Test CA".to_string()),
            cert_serial_number: Some("1234".to_string()),
            time: None,
            revocation_status: Some(true),
            cert_chain: "-----BEGIN CERTIFICATE-----".to_string(),
        }),
        validation: Some(ValidationReport {
            active_manifest: Some(group(&["claimSignature.validated"], &["timeStamp.untrusted"], &[])),
            ingredient_deltas: Some(vec![group(&["a"], &[], &[]), group(&[], &["b"], &["c"])]),
        }),
        identity: None,
    }
}

fn codes(list: &[ValidationStatus]) -> Vec<&str> {
    list.iter().map(|s| s.code.as_str()).collect()
}

#[test]
fn verdict_is_mapped_from_statuses() {
    assert_eq!(verdict_from_statuses(&vec![]), Verdict::Allowed);
    assert_eq!(verdict_from_statuses(&vec![status("claimSignature.validated", true)]), Verdict::Allowed);
    assert_eq!(
        verdict_from_statuses(&vec![status("ok", true), status("signingCredential.warning.ocsp", true)]),
        Verdict::Warning
    );
    assert_eq!(
        verdict_from_statuses(&vec![status("x.warning", true), status("assertion.dataHash.mismatch", false)]),
        Verdict::Rejected
    );
    assert_eq!(verdict_from_statuses(&vec![status("Warning", true), status("warnin", true)]), Verdict::Allowed);
    assert_eq!(verdict_from_statuses(&vec![status("warning", false)]), Verdict::Rejected);
}

#[test]
fn statuses_are_collected_in_order() {
    let report = evidence().validation.unwrap();
    let all = collect_statuses(report);
    assert_eq!(codes(&all), vec!["claimSignature.validated", "timeStamp.untrusted", "a", "b", "c"]);
    assert!(!all[4].passed);
    let empty = collect_statuses(ValidationReport { active_manifest: None, ingredient_deltas: None });
    assert!(empty.is_empty());
    let only_deltas = collect_statuses(ValidationReport {
        active_manifest: None,
        ingredient_deltas: Some(vec![group(&["x"], &["y"], &["z"])]),
    });
    assert_eq!(codes(&only_deltas), vec!["x", "y", "z"]);
}

#[test]
fn include_certificates_false_omits_cert_info() {
    let res = verification_result(None, None, evidence()).unwrap();
    assert!(res.certificates.is_none());
    let res = verification_result(Some(false), None, evidence()).unwrap();
    assert!(res.certificates.is_none());
}

#[test]
fn include_certificates_true_populates_cert_info_if_present() {
    let res = verification_result(Some(true), None, evidence()).unwrap();
    let certs = res.certificates.unwrap();
    assert_eq!(certs.len(), 1);
    assert_eq!(certs[0].alg.as_deref(), Some("Es256"));
    assert_eq!(certs[0].issuer.as_deref(), Some("Test CA"));
    assert_eq!(certs[0].cert_serial_number.as_deref(), Some("1234"));
    assert_eq!(certs[0].time, None);
    assert_eq!(certs[0].revocation_status, Some(true));
    assert_eq!(certs[0].chain_pem.as_deref(), Some("-----BEGIN CERTIFICATE-----"));
    let mut unsigned = evidence();
    unsigned.signature = None;
    assert!(verification_result(Some(true), None, unsigned).unwrap().certificates.is_none());
}

#[test]
fn empty_chain_is_left_out() {
    let info = cert_info_from(SignatureInfo {
        alg: None,
        issuer: None,
        cert_serial_number: None,
        time: Some("2024-01-01T00:00:00Z".to_string()),
        revocation_status: None,
        cert_chain: String::new(),
    });
    assert_eq!(info.chain_pem, None);
    assert_eq!(info.time.as_deref(), Some("2024-01-01T00:00:00Z"));
    let blank = CertInfo::default();
    assert!(blank.alg.is_none() && blank.chain_pem.is_none() && blank.revocation_status.is_none());
}

#[test]
fn is_embedded_and_remote_url_fields_behave() {
    let res = verification_result(None, None, evidence()).unwrap();
    assert_eq!(res.report, "Reader { ... }");
    assert_eq!(res.is_embedded, Some(true));
    assert_eq!(res.remote_url.as_deref(), Some("https://example.com/m.c2pa"));
    assert_eq!(res.verdict, Some(Verdict::Rejected));
    assert_eq!(res.status.unwrap().len(), 5);
    let mut bare = evidence();
    bare.validation = None;
    bare.is_embedded = false;
    bare.remote_url = None;
    let res = verification_result(None, None, bare).unwrap();
    assert_eq!(res.is_embedded, Some(false));
    assert!(res.status.is_none() && res.verdict.is_none() && res.remote_url.is_none());
}

#[test]
fn verify_with_cawg_validation() {
    let found = CawgVerification { present: true, valid: false, signature_info: Some("{}".to_string()) };
    let mut with_identity = evidence();
    with_identity.identity = Some(found.clone());
    let res = verification_result(None, Some(create_cawg_verify_options(true, false)), with_identity).unwrap();
    let cawg = res.cawg.unwrap();
    assert!(cawg.present && !cawg.valid);

    let mut required = evidence();
    required.identity = Some(found);
    assert!(matches!(
        verification_result(Some(true), Some(create_cawg_verify_options(true, true)), required),
        Err(EngineError::VerificationFailed)
    ));
    assert!(verification_result(None, Some(create_cawg_verify_options(false, true)), evidence()).is_ok());
}

#[test]
fn numbers_are_written_in_decimal() {
    assert_eq!(format_decimal(0), "0");
    assert_eq!(format_decimal(7), "7");
    assert_eq!(format_decimal(10), "10");
    assert_eq!(format_decimal(8192), "8192");
    assert_eq!(format_decimal(1234567890), "1234567890");
    assert_eq!(format_decimal(u128::MAX), "340282366920938463463374607431768211455");
}

#[test]
fn text_helpers() {
    assert!(str_eq("abc", "abc") && !str_eq("abc", "abd") && !str_eq("abc", "ab"));
    assert_eq!(chars_of("aé€"), vec!['a', 'é', '€']);
    let text = chars_of("a:b,c:d");
    assert_eq!(find_from(&text, 0, ':'), 1);
    assert_eq!(find_from(&text, 2, ':'), 5);
    assert_eq!(find_from(&text, 6, ':'), 7);
    assert_eq!(find_from(&text, 7, ':'), 7);
    assert!(starts_with(&text, &chars_of("a:")) && starts_with(&text, &chars_of("")));
    assert!(!starts_with(&text, &chars_of("b")) && !starts_with(&chars_of("a"), &chars_of("a:")));
    assert!(contains(&text, &chars_of("c:d")) && contains(&text, &chars_of("")) && contains(&text, &text));
    assert!(!contains(&text, &chars_of("c:dd")) && !contains(&text, &chars_of("ba")));
    assert_eq!(substring("aé€z", 1, 3), "é€");
    assert_eq!(substring("aé€z", 4, 4), "");
}
