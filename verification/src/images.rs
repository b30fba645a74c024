//! The fixed container images a plan can resolve to.
//!
//! The freeze step falls back to the default base image when nothing pins
//! one, and to the slimmer Debian image when a caller opts into a slim
//! runtime.

use vstd::prelude::*;

verus! {

/// The characters of the default base image identifier.
pub open spec fn default_base_image_chars() -> Seq<char> {
    "ghcr.io/railwayapp/nixpacks:ubuntu"@
}

/// The characters of the slim runtime image identifier.
pub open spec fn debian_slim_image_chars() -> Seq<char> {
    "debian:bullseye-slim"@
}

/// The image every plan builds in unless a provider or option overrides it.
pub fn default_base_image() -> (s: String)
    ensures
        s@ == default_base_image_chars(),
{
    "ghcr.io/railwayapp/nixpacks:ubuntu".to_owned()
}

/// The slimmer image a start phase may opt into running in.
pub fn debian_slim_image() -> (s: String)
    ensures
        s@ == debian_slim_image_chars(),
{
    "debian:bullseye-slim".to_owned()
}

} // verus!
