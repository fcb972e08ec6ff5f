//! Plain configuration values: algorithms, modes, targets, limits and trust policy.

use vstd::prelude::*;

verus! {

/// Signature algorithms that the engine offers.
#[derive(Debug, Clone, Copy, PartialEq, Eq, Structural)]
pub enum SigAlg {
    Es256,
    Es384,
    Ps256,
    Ed25519,
}

/// The signing algorithms of the wrapped library.
#[derive(Debug, Clone, Copy, PartialEq, Eq, Structural)]
pub enum C2paSigningAlg {
    Es256,
    Es384,
    Es512,
    Ps256,
    Ps384,
    Ps512,
    Ed25519,
}

impl SigAlg {
    /// The wrapped library's algorithm of the same name.
    pub open spec fn c2pa(self) -> C2paSigningAlg {
        match self {
            SigAlg::Es256 => C2paSigningAlg::Es256,
            SigAlg::Es384 => C2paSigningAlg::Es384,
            SigAlg::Ps256 => C2paSigningAlg::Ps256,
            SigAlg::Ed25519 => C2paSigningAlg::Ed25519,
        }
    }

    /// Maps the algorithm to the wrapped library's.
    pub fn to_c2pa(self) -> (alg: C2paSigningAlg)
        ensures
            alg == self.c2pa(),
    {
        match self {
            SigAlg::Es256 => C2paSigningAlg::Es256,
            SigAlg::Es384 => C2paSigningAlg::Es384,
            SigAlg::Ps256 => C2paSigningAlg::Ps256,
            SigAlg::Ed25519 => C2paSigningAlg::Ed25519,
        }
    }
}

/// Where verification output should be focused.
#[derive(Debug, Clone, Copy, PartialEq, Eq, Structural)]
pub enum VerifyMode {
    Summary,
    Info,
    Detailed,
    Tree,
}

/// A target for the output of a generation operation.
#[derive(Debug, Clone)]
pub enum OutputTarget {
    /// Write to this path.
    Path(String),
    /// Return the bytes.
    Memory,
}

/// Per-call limits on memory and streaming.
#[derive(Debug, Clone, Copy, PartialEq, Eq, Structural)]
pub struct LimitsConfig {
    /// Max size allowed when the asset is provided as in-memory bytes.
    pub max_in_memory_asset_size: usize,
    /// Max size allowed when returning a signed asset into memory.
    pub max_in_memory_output_size: usize,
    /// Max number of bytes to copy from a stream to a temporary file.
    pub max_stream_copy_size: usize,
    /// Max time (in seconds) for stream reads. Advisory: nothing enforces it.
    pub max_stream_read_timeout_secs: u64,
}

/// 128 MiB.
pub const MAX_IN_MEMORY_ASSET_SIZE: usize = 134217728;

/// 128 MiB.
pub const MAX_IN_MEMORY_OUTPUT_SIZE: usize = 134217728;

/// 1 GiB.
pub const MAX_STREAM_COPY_SIZE: usize = 1073741824;

/// Five minutes.
pub const MAX_STREAM_READ_TIMEOUT_SECS: u64 = 300;

impl LimitsConfig {
    /// Production defaults: 128 MiB in memory either way, 1 GiB copied from a
    /// stream, five minutes of stream reads.
    pub open spec fn defaults_spec() -> LimitsConfig {
        LimitsConfig {
            max_in_memory_asset_size: 134217728,
            max_in_memory_output_size: 134217728,
            max_stream_copy_size: 1073741824,
            max_stream_read_timeout_secs: 300,
        }
    }

    /// The production defaults.
    pub fn defaults() -> (limits: LimitsConfig)
        ensures
            limits == LimitsConfig::defaults_spec(),
            limits.max_in_memory_asset_size == 128 * 1024 * 1024,
            limits.max_in_memory_output_size == 128 * 1024 * 1024,
            limits.max_stream_copy_size == 1024 * 1024 * 1024,
            limits.max_stream_read_timeout_secs == 300,
    {
        LimitsConfig {
            max_in_memory_asset_size: MAX_IN_MEMORY_ASSET_SIZE,
            max_in_memory_output_size: MAX_IN_MEMORY_OUTPUT_SIZE,
            max_stream_copy_size: MAX_STREAM_COPY_SIZE,
            max_stream_read_timeout_secs: MAX_STREAM_READ_TIMEOUT_SECS,
        }
    }
}

/// Trust policy, as raw bytes so that the engine does no I/O for it.
#[derive(Debug, Clone)]
pub struct TrustPolicyConfig {
    /// PEM trust anchors data (concatenated PEMs).
    pub anchors: Option<Vec<u8>>,
    /// Allowed list of specific signing certificates (PEM).
    pub allowed_list: Option<Vec<u8>>,
    /// Allowed EKUs in OID dot notation.
    pub allowed_ekus: Option<Vec<String>>,
    /// Enable trust checks for identity assertions.
    pub verify_identity_trust: Option<bool>,
}

impl Default for TrustPolicyConfig {
    fn default() -> (policy: TrustPolicyConfig)
        ensures
            policy.anchors is None,
            policy.allowed_list is None,
            policy.allowed_ekus is None,
            policy.verify_identity_trust is None,
    {
        TrustPolicyConfig {
            anchors: None,
            allowed_list: None,
            allowed_ekus: None,
            verify_identity_trust: None,
        }
    }
}

} // verus!
