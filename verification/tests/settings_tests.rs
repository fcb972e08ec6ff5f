use que_engine::settings::{build_trust_settings, SettingKey, SettingsPatch};
use que_engine::{AssetRef, C2paVerificationConfig, EngineDefaults, EngineError, LimitsConfig,
    OutputTarget, SigAlg, TrustPolicyConfig, VerifyMode};

#[test]
fn limits_defaults_and_overrides() {
    let d = LimitsConfig::defaults();
    assert!(d.max_in_memory_asset_size > 0);
    let mut cfg = C2paVerificationConfig::secure_default(AssetRef::Path(Default::default()));
    cfg.limits.max_stream_copy_size = 5 * 1024 * 1024;
    assert_eq!(cfg.limits.max_stream_copy_size, 5 * 1024 * 1024);
}

#[test]
fn settings_tests_engine_defaults_values() {
    assert_eq!(EngineDefaults::ALLOW_REMOTE_MANIFESTS, false);
    assert!(matches!(EngineDefaults::OUTPUT_TARGET, OutputTarget::Memory));
}

#[test]
fn trust_policy_defaults() {
    let d = LimitsConfig::defaults();
    assert!(d.max_in_memory_asset_size > 0);
    let mut cfg = C2paVerificationConfig::secure_default(AssetRef::Path(Default::default()));
    cfg.limits.max_stream_copy_size = 5 * 1024 * 1024;
    assert_eq!(cfg.limits.max_stream_copy_size, 5 * 1024 * 1024);
}

#[test]
fn trust_policy_tests_engine_defaults_values() {
    assert_eq!(EngineDefaults::ALLOW_REMOTE_MANIFESTS, false);
    assert!(matches!(EngineDefaults::OUTPUT_TARGET, OutputTarget::Memory));
}

#[test]
fn every_default_has_its_value() {
    assert_eq!(EngineDefaults::ALLOW_INSECURE_HTTP, None);
    assert_eq!(EngineDefaults::INCLUDE_CERTIFICATES, None);
    assert!(EngineDefaults::EMBED_MANIFESTS);
    assert!(!EngineDefaults::SKIP_POST_SIGN_VALIDATION);
    assert_eq!(EngineDefaults::SIGNING_ALGORITHM, SigAlg::Es256);
    assert_eq!(EngineDefaults::VERIFICATION_MODE, VerifyMode::Summary);
    assert!(!EngineDefaults::CAWG_VALIDATE);
    assert!(!EngineDefaults::CAWG_REQUIRE_VALID_IDENTITY);
    assert_eq!(EngineDefaults::CAWG_SIGNING_ALGORITHM, SigAlg::Ed25519);
    assert!(EngineDefaults::HAS_TRUST_POLICY.is_none());
    assert!(EngineDefaults::HAS_TIMESTAMPER.is_none());
    assert!(EngineDefaults::HAS_MANIFEST_DEFINITION.is_none());
    assert!(EngineDefaults::HAS_PARENT.is_none());
    assert!(EngineDefaults::HAS_PARENT_BASE_DIR.is_none());
    assert!(EngineDefaults::HAS_REMOTE_MANIFEST_URL.is_none());
    let d = LimitsConfig::defaults();
    assert_eq!(d.max_in_memory_asset_size, 128 * 1024 * 1024);
    assert_eq!(d.max_in_memory_output_size, 128 * 1024 * 1024);
    assert_eq!(d.max_stream_copy_size, 1024 * 1024 * 1024);
    assert_eq!(d.max_stream_read_timeout_secs, 300);
    let policy = TrustPolicyConfig::default();
    assert!(policy.anchors.is_none() && policy.allowed_list.is_none());
    assert!(policy.allowed_ekus.is_none() && policy.verify_identity_trust.is_none());
}

#[test]
fn configure_trust_policy_with_anchors() {
    let pem_data = b"-----BEGIN CERTIFICATE-----\nMIIBIjANBgkqhkiG9w0BAQEFAAOCAQ8AMIIBCgKCAQEA\n-----END CERTIFICATE-----";
    let trust_policy = TrustPolicyConfig {
        anchors: Some(pem_data.to_vec()),
        allowed_list: None,
        allowed_ekus: Some(vec!["1.3.6.1.5.5.7.3.3".to_string()]),
        verify_identity_trust: Some(true),
    };
    let (patches, enable) = build_trust_settings(&trust_policy).unwrap();
    assert!(enable);
    assert_eq!(patches.len(), 3);
    match &patches[0] {
        SettingsPatch::TrustAnchors(pem) => assert_eq!(pem.as_bytes(), pem_data),
        other => panic!("expected the anchors first, got {:?}", other),
    }
    match &patches[1] {
        SettingsPatch::AllowedEkus(list) => assert_eq!(list, &vec!["1.3.6.1.5.5.7.3.3".to_string()]),
        other => panic!("expected the key usages second, got {:?}", other),
    }
    assert!(matches!(patches[2], SettingsPatch::VerifyIdentityTrust(true)));
}

#[test]
fn trust_policy_validation_differences() {
    let with_anchors = TrustPolicyConfig {
        anchors: Some(b"invalid_pem_data".to_vec()),
        allowed_list: None,
        allowed_ekus: None,
        verify_identity_trust: Some(true),
    };
    let (patches, enable) = build_trust_settings(&with_anchors).unwrap();
    assert!(enable);
    assert_eq!(patches.len(), 2);
    let (none, off) = build_trust_settings(&TrustPolicyConfig::default()).unwrap();
    assert!(none.is_empty());
    assert!(!off);
}

#[test]
fn trust_fragments_come_in_a_fixed_order() {
    let policy = TrustPolicyConfig {
        anchors: Some("anchors é".as_bytes().to_vec()),
        allowed_list: Some(b"allowed".to_vec()),
        allowed_ekus: Some(vec![]),
        verify_identity_trust: Some(false),
    };
    let (patches, enable) = build_trust_settings(&policy).unwrap();
    assert!(enable);
    let keys: Vec<SettingKey> = patches.iter().map(|p| p.key()).collect();
    assert_eq!(
        keys,
        vec![SettingKey::TrustAnchors, SettingKey::AllowedList, SettingKey::AllowedEkus, SettingKey::VerifyIdentityTrust]
    );
    match &patches[0] {
        SettingsPatch::TrustAnchors(pem) => assert_eq!(pem, "anchors é"),
        other => panic!("expected the anchors, got {:?}", other),
    }
    match &patches[1] {
        SettingsPatch::AllowedList(pem) => assert_eq!(pem, "allowed"),
        other => panic!("expected the allowed list, got {:?}", other),
    }
    let only_identity = TrustPolicyConfig { verify_identity_trust: Some(true), ..TrustPolicyConfig::default() };
    let (patches, enable) = build_trust_settings(&only_identity).unwrap();
    assert_eq!(patches.len(), 1);
    assert!(!enable);
}

#[test]
fn trust_data_must_be_text() {
    let bad_anchors = TrustPolicyConfig {
        anchors: Some(vec![0xFF, 0xFE]),
        allowed_list: Some(vec![0xC0]),
        ..TrustPolicyConfig::default()
    };
    match build_trust_settings(&bad_anchors) {
        Err(EngineError::Config(m)) => assert_eq!(m, "trust anchors must be valid UTF-8"),
        other => panic!("expected a configuration error, got {:?}", other),
    }
    let bad_list = TrustPolicyConfig {
        anchors: Some(b"fine".to_vec()),
        allowed_list: Some(vec![0xE2, 0x82]),
        ..TrustPolicyConfig::default()
    };
    match build_trust_settings(&bad_list) {
        Err(EngineError::Config(m)) => assert_eq!(m, "allowed list must be valid UTF-8"),
        other => panic!("expected a configuration error, got {:?}", other),
    }
}

#[test]
fn errors_have_their_texts() {
    assert_eq!(EngineError::Config("x".to_string()).to_string(), "Configuration error: x");
    assert_eq!(EngineError::Io("disk".to_string()).to_string(), "I/O error: disk");
    assert_eq!(EngineError::C2pa("bad claim".to_string()).to_string(), "C2PA error: bad claim");
    assert_eq!(EngineError::VerificationFailed.to_string(), "Verification failed");
    assert_eq!(EngineError::Feature("http_urls".to_string()).to_string(), "Feature not enabled: http_urls");
    assert_eq!(EngineError::Panic("boom".to_string()).to_string(), "Internal fault: boom");
    assert_eq!(EngineError::config("detail").to_string(), "Configuration error: detail");
    assert_eq!(EngineError::Io("again".to_string()).clone_error().to_string(), "I/O error: again");
}
