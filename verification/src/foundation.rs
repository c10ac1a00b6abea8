//! What the application reports about itself.

use vstd::prelude::*;
use crate::platform::{current_platform_adapter, PlatformAdapter};

verus! {

/// The product, its stage, the platform it runs on, and which operations it offers.
#[derive(Debug, Clone, PartialEq, Eq)]
pub struct FoundationStatus {
    pub product: &'static str,
    pub status: &'static str,
    pub platform: &'static str,
    pub scanning_implemented: bool,
    pub deletion_implemented: bool,
}

impl FoundationStatus {
    /// The status for the platform the library resolves for the running system.
    pub fn current() -> (s: Self)
        ensures
            s.product@ == "DiskClearance"@,
            s.status@ == "Pre-implementation foundation"@,
            s.platform == "unsupported",
            !s.scanning_implemented,
            !s.deletion_implemented,
    {
        let adapter = current_platform_adapter();
        let name = adapter.platform_name();
        FoundationStatus {
            product: "DiskClearance",
            status: "Pre-implementation foundation",
            platform: name,
            scanning_implemented: false,
            deletion_implemented: false,
        }
    }

    /// The status for a platform adapter: it names the adapter's platform and claims no
    /// operation that is not implemented.
    pub fn from_platform<A: PlatformAdapter>(adapter: &A) -> (s: Self)
        ensures
            s.product@ == "DiskClearance"@,
            s.status@ == "Pre-implementation foundation"@,
            !s.scanning_implemented,
            !s.deletion_implemented,
            adapter.reports_platform_name(s.platform),
    {
        FoundationStatus {
            product: "DiskClearance",
            status: "Pre-implementation foundation",
            platform: adapter.platform_name(),
            scanning_implemented: false,
            deletion_implemented: false,
        }
    }
}

} // verus!
