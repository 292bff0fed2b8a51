//! The per-package configuration: which source to poll and which format a
//! computed version must have. Decoding the configuration file (strictly —
//! unrecognized fields are an error) is done by the unverified shell; the
//! model and its default live here.

use crate::provider::SourceSpec;
use vstd::prelude::*;

verus! {

/// The default version-format pattern: a dot-separated numeric sequence.
/// A deliberate design choice, not an accident: it is the configuration's
/// default value, not an unconfigurable constant.
pub open spec fn default_version_pattern() -> Seq<char> {
    "^[0-9]+(\\.[0-9]+)+$"@
}

/// The default version-format pattern.
pub fn default_pkgver_regex() -> (r: String)
    ensures
        r@ == default_version_pattern(),
{
    "^[0-9]+(\\.[0-9]+)+$".to_owned()
}

/// The validation policy for computed versions.
pub struct CheckPolicy {
    pub pkgver_regex: String,
}

impl Default for CheckPolicy {
    /// The policy used when the configuration does not set one.
    fn default() -> (r: CheckPolicy)
        ensures
            r.pkgver_regex@ == default_version_pattern(),
    {
        CheckPolicy { pkgver_regex: default_pkgver_regex() }
    }
}

/// A package's parsed configuration: the upstream source to poll and the
/// version-format policy.
pub struct Config {
    pub source: SourceSpec,
    pub check: CheckPolicy,
}

} // verus!
