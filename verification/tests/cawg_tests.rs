use que_engine::cawg::{code_is_identity, enforce_identity, main_signer_plan, secondary_signer_plan,
    validate_cawg, wants_validation, ManifestStatusCodes};
use que_engine::key_material::CredentialRole;
use que_engine::types::C2paSigningAlg;
use que_engine::{create_cawg_verify_options, create_cawg_x509_config, CawgIdentity, CawgSigner,
    CawgVerification, EngineError, SigAlg, Signer, Timestamper};

fn local_signer() -> Signer {
    "local:/tmp/cert.pem,/tmp/key.pem".parse().unwrap()
}

fn env_signer() -> Signer {
    "env:MAIN_CERT,MAIN_KEY".parse().unwrap()
}

fn codes(list: &[&str]) -> Vec<String> {
    list.iter().map(|s| s.to_string()).collect()
}

#[test]
fn create_cawg_config_helpers() {
    let signer: Signer = local_signer();
    let cawg = create_cawg_x509_config(signer, vec!["c2pa.actions".to_string()]);
    assert_eq!(cawg.referenced_assertions, vec!["c2pa.actions".to_string()]);
    let opts = create_cawg_verify_options(true, true);
    assert!(opts.validate && opts.require_valid_identity);
}

#[test]
fn cawg_identity_creation_helpers() {
    let signer: Signer = local_signer();
    let cawg = create_cawg_x509_config(signer, vec!["c2pa.actions".to_string(), "c2pa.hash.data".to_string()]);
    assert_eq!(cawg.signing_alg, SigAlg::Ed25519);
    assert!(cawg.referenced_assertions.contains(&"c2pa.actions".to_string()));
    assert!(cawg.timestamper.is_none());
    match cawg.signer {
        CawgSigner::Separate(Signer::Local { cert_path, key_path }) => {
            assert_eq!(cert_path, "/tmp/cert.pem");
            assert_eq!(key_path, "/tmp/key.pem");
        }
        other => panic!("expected a credential of its own, got {:?}", other),
    }
}

#[test]
fn cawg_verify_options_creation() {
    let opts = create_cawg_verify_options(true, true);
    assert!(opts.validate);
    assert!(opts.require_valid_identity);

    let opts2 = create_cawg_verify_options(false, false);
    assert!(!opts2.validate);
    assert!(!opts2.require_valid_identity);
}

#[test]
fn algorithms_map_to_the_wrapped_library() {
    assert_eq!(SigAlg::Es256.to_c2pa(), C2paSigningAlg::Es256);
    assert_eq!(SigAlg::Es384.to_c2pa(), C2paSigningAlg::Es384);
    assert_eq!(SigAlg::Ps256.to_c2pa(), C2paSigningAlg::Ps256);
    assert_eq!(SigAlg::Ed25519.to_c2pa(), C2paSigningAlg::Ed25519);
}

#[test]
fn shared_credential_falls_back_to_the_main_timestamp() {
    let identity = CawgIdentity {
        signer: CawgSigner::UseMainSigner,
        signing_alg: SigAlg::Es384,
        referenced_assertions: vec![],
        timestamper: None,
    };
    let plan = secondary_signer_plan(&identity, &env_signer(), Some("https://main.tsa".to_string()));
    assert_eq!(plan.role, CredentialRole::SharedWithMain);
    assert_eq!(plan.alg, C2paSigningAlg::Es384);
    assert_eq!(plan.timestamp_url.as_deref(), Some("https://main.tsa"));
    assert!(matches!(plan.source, Signer::Env { ref cert_var, .. } if cert_var == "MAIN_CERT"));

    let with_own = CawgIdentity { timestamper: Some(Timestamper::Custom("https://own.tsa".to_string())), ..identity };
    let plan = secondary_signer_plan(&with_own, &env_signer(), Some("https://main.tsa".to_string()));
    assert_eq!(plan.timestamp_url.as_deref(), Some("https://own.tsa"));
    let plan = secondary_signer_plan(&with_own, &env_signer(), None);
    assert_eq!(plan.timestamp_url.as_deref(), Some("https://own.tsa"));
}

#[test]
fn separate_credential_never_uses_the_main_timestamp() {
    let identity = create_cawg_x509_config(local_signer(), vec![]);
    let plan = secondary_signer_plan(&identity, &env_signer(), Some("https://main.tsa".to_string()));
    assert_eq!(plan.role, CredentialRole::Identity);
    assert_eq!(plan.alg, C2paSigningAlg::Ed25519);
    assert_eq!(plan.timestamp_url, None);
    assert!(matches!(plan.source, Signer::Local { ref key_path, .. } if key_path == "/tmp/key.pem"));

    let with_own = CawgIdentity { timestamper: Some(Timestamper::Digicert), ..identity };
    let plan = secondary_signer_plan(&with_own, &env_signer(), None);
    assert_eq!(plan.timestamp_url.as_deref(), Some("https://timestamp.digicert.com"));
}

#[test]
fn main_plan_keeps_signer_algorithm_and_timestamp() {
    let plan = main_signer_plan(&env_signer(), SigAlg::Ps256, Some("https://t".to_string()));
    assert_eq!(plan.role, CredentialRole::Main);
    assert_eq!(plan.alg, C2paSigningAlg::Ps256);
    assert_eq!(plan.timestamp_url.as_deref(), Some("https://t"));
    assert!(matches!(plan.source, Signer::Env { ref key_var, .. } if key_var == "MAIN_KEY"));
}

#[test]
fn identity_codes_are_the_code_and_what_lies_below_it() {
    assert!(code_is_identity("cawg.identity"));
    assert!(code_is_identity("cawg.identity.well-formed"));
    assert!(code_is_identity("cawg.identity."));
    assert!(!code_is_identity("cawg.identityx"));
    assert!(!code_is_identity("cawg.ident"));
    assert!(!code_is_identity("x.cawg.identity"));
    assert!(!code_is_identity("claimSignature.validated"));
    assert!(!code_is_identity(""));
}

#[test]
fn identity_result_is_read_off_the_statuses() {
    let ok = ManifestStatusCodes {
        success: codes(&["claimSignature.validated", "cawg.identity.well-formed"]),
        failure: codes(&["assertion.dataHash.mismatch"]),
    };
    let v = validate_cawg(Some(&ok), Some("{\"sig\":1}".to_string())).unwrap();
    assert!(v.present && v.valid);
    assert_eq!(v.signature_info.as_deref(), Some("{\"sig\":1}"));

    let failed = ManifestStatusCodes {
        success: codes(&["cawg.identity"]),
        failure: codes(&["cawg.identity.sig_mismatch"]),
    };
    let v = validate_cawg(Some(&failed), None).unwrap();
    assert!(v.present && !v.valid);

    let only_failed = ManifestStatusCodes { success: vec![], failure: codes(&["cawg.identity"]) };
    let v = validate_cawg(Some(&only_failed), None).unwrap();
    assert!(v.present && !v.valid);

    let absent = ManifestStatusCodes { success: codes(&["claimSignature.validated"]), failure: vec![] };
    let v = validate_cawg(Some(&absent), Some("{}".to_string())).unwrap();
    assert!(!v.present && v.valid);
    assert_eq!(v.signature_info, None);

    match validate_cawg(None, None) {
        Err(EngineError::Config(m)) => assert_eq!(m, "No validation results available"),
        other => panic!("expected a configuration error, got {:?}", other),
    }
}

#[test]
fn required_identity_must_be_present_and_valid() {
    let required = create_cawg_verify_options(true, true);
    let optional = create_cawg_verify_options(true, false);
    let good = CawgVerification { present: true, valid: true, signature_info: None };
    let missing = CawgVerification { present: false, valid: true, signature_info: None };
    let invalid = CawgVerification { present: true, valid: false, signature_info: None };
    assert!(enforce_identity(&required, &good).is_ok());
    assert!(matches!(enforce_identity(&required, &missing), Err(EngineError::VerificationFailed)));
    assert!(matches!(enforce_identity(&required, &invalid), Err(EngineError::VerificationFailed)));
    assert!(enforce_identity(&optional, &missing).is_ok());
    assert!(enforce_identity(&optional, &invalid).is_ok());
    assert!(wants_validation(&Some(required)));
    assert!(!wants_validation(&Some(create_cawg_verify_options(false, true))));
    assert!(!wants_validation(&None));
}
