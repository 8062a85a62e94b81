//! Which address a new window shows.
//!
//! Three sources are asked in order: an override given at run time, a default
//! fixed when the program was built, and a fallback that is always there.

use crate::text::{blank, is_blank};
use vstd::prelude::*;
use vstd::string::*;

verus! {

/// The address used where no other source gives one.
pub const FALLBACK_URL: &'static str = "http://localhost:3003";

/// The characters of an optional text.
pub open spec fn chars_of(text: Option<&str>) -> Option<Seq<char>> {
    match text {
        Some(t) => Some(t@),
        None => None,
    }
}

/// Whether the run-time override counts: it is set and not blank.
pub open spec fn overrides(runtime_override: Option<Seq<char>>) -> bool {
    runtime_override matches Some(v) && !blank(v)
}

/// The resolved address: the override where it counts, else the build
/// default where one is defined, else the fallback.
pub open spec fn resolved(
    runtime_override: Option<Seq<char>>,
    build_default: Option<Seq<char>>,
) -> Seq<char> {
    if overrides(runtime_override) {
        runtime_override->0
    } else if build_default is Some {
        build_default->0
    } else {
        FALLBACK_URL@
    }
}

/// Whether the run-time override counts: whether it is set and something is
/// left of it once it is trimmed.
pub fn override_counts(runtime_override: Option<&str>) -> (counts: bool)
    ensures
        counts == overrides(chars_of(runtime_override)),
{
    match runtime_override {
        Some(v) => !is_blank(v),
        None => false,
    }
}

/// Picks the address, given whether the run-time override counts: the
/// override where it is set and counts, else the build default where one is
/// defined, else the fallback. Each is returned as it is.
pub fn pick(runtime_override: Option<&str>, counts: bool, build_default: Option<&str>) -> (url:
    String)
    ensures
        url@ == if counts && runtime_override is Some {
            runtime_override->0@
        } else if build_default is Some {
            build_default->0@
        } else {
            FALLBACK_URL@
        },
{
    match runtime_override {
        Some(v) => {
            if counts {
                return v.to_owned();
            }
        },
        None => {},
    }
    match build_default {
        Some(d) => d.to_owned(),
        None => FALLBACK_URL.to_owned(),
    }
}

/// Resolves the address from the run-time override and the build default.
/// An override that is not blank is returned as it is, untrimmed. A build
/// default is returned as it is, blank or not.
pub fn resolve(runtime_override: Option<&str>, build_default: Option<&str>) -> (url: String)
    ensures
        url@ == resolved(chars_of(runtime_override), chars_of(build_default)),
        runtime_override matches Some(v) ==> (!blank(v@) ==> url@ == v@),
        (runtime_override matches Some(v) ==> blank(v@)) ==> (build_default matches Some(d)
            ==> url@ == d@),
        (runtime_override matches Some(v) ==> blank(v@)) && build_default is None ==> url@
            == FALLBACK_URL@,
{
    let counts = override_counts(runtime_override);
    pick(runtime_override, counts, build_default)
}

} // verus!
