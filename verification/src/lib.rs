//! Hardening layer between a typed configuration surface and a wrapped
//! content-provenance library: format sniffing, asset materialization under
//! resource limits, vetting of external URLs, the discipline around the
//! wrapped library's process-wide settings, and handling of raw key material.

pub mod error;
pub mod text;
pub mod content_detection;
pub mod net;
pub mod features;
pub mod url_validation;
pub mod types;
pub mod stream;
pub mod asset;
pub mod settings_guard;
pub mod settings;
pub mod timestamper;
pub mod signer;
pub mod key_material;
pub mod cawg;
pub mod verify;
pub mod config;
pub mod manifest_json;
pub mod report;
pub mod engine;

pub use asset::{asset_to_temp_path, sniff_content_type_from_reader, AssetRef, MemoryStream};
pub use cawg::{create_cawg_verify_options, create_cawg_x509_config, validate_cawg, CawgIdentity,
    CawgSigner, CawgVerification, CawgVerifyOptions};
pub use config::{C2paConfig, C2paVerificationConfig, EngineDefaults, FragmentedBmffConfig,
    IngredientConfig};
pub use content_detection::{detect_extension_from_bytes, extension_to_mime_type};
pub use engine::{create_ingredient, generate_fragmented_bmff, setup_builder, sign_c2pa,
    sign_c2pa_bytes, verify_c2pa, C2pa, ManifestEngine};
pub use error::{EngineError, EngineResult};
pub use key_material::check_private_key_permissions;
pub use manifest_json::{ensure_claim_version_2, prepare_manifest_json};
pub use settings::{build_trust_settings, SettingsPatch};
pub use settings_guard::SettingsGuard;
pub use signer::{Signer, SignerError};
pub use stream::{copy_with_limits, MemorySink, SeekPosition, StreamReader, StreamWriter};
pub use timestamper::{Timestamper, TimestamperError};
pub use types::{LimitsConfig, OutputTarget, SigAlg, TrustPolicyConfig, VerifyMode};
pub use url_validation::{validate_and_fetch_remote_asset, validate_external_http_url};
pub use verify::{CertInfo, ValidationStatus, Verdict, VerificationResult};
