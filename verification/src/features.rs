//! Capabilities that a build of this crate carries or leaves out.

use vstd::prelude::*;

verus! {

/// Whether plain `http` URLs can be admitted at all. Without it, a caller who
/// allows `http` is told that the capability is missing.
pub const HTTP_URLS_ENABLED: bool = false;

/// Whether verification may fetch a manifest that an asset points to.
pub const REMOTE_MANIFESTS_ENABLED: bool = false;

} // verus!
