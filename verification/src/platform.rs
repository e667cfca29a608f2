//! Platform identifiers and library filename conventions.
//!
//! A platform is named `"<os>-<arch>"`, e.g. `"linux-x86_64"`; the wildcard
//! `"all"` matches every platform. Identifying the build target needs
//! conditional compilation, which stays outside the verified core, so this
//! build reports the generic `"unknown"` identifiers; the matching and
//! filename rules below are exact for whatever identifier is reported.

use vstd::prelude::*;

verus! {

/// The platform identifier this build reports, as a sequence of characters.
pub open spec fn spec_current_platform() -> Seq<char> {
    "unknown-unknown"@
}

/// The library filename used for a base binary name on this build's platform:
/// the `lib` prefix and the `.so` extension.
pub open spec fn spec_library_filename(name: Seq<char>) -> Seq<char> {
    "lib"@ + name + ".so"@
}

/// Whether a declared platform identifier matches the current platform:
/// true exactly for the current platform's own identifier and for `"all"`.
pub open spec fn spec_matches_platform(platform: Seq<char>) -> bool {
    platform == spec_current_platform() || platform == "all"@
}

/// Get the current platform identifier, a string like `"<os>-<arch>"`.
pub fn current_platform() -> (r: String)
    ensures
        r@ == spec_current_platform(),
{
    "unknown-unknown".to_owned()
}

/// Get the library filename for a given binary name on the current platform.
pub fn library_filename(name: &str) -> (r: String)
    ensures
        r@ == spec_library_filename(name@),
{
    let prefix: String = "lib".to_owned();
    let with_name: String = prefix.concat(name);
    with_name.concat(".so")
}

/// Check if the current platform matches a platform identifier.
pub fn matches_platform(platform: &str) -> (r: bool)
    ensures
        r == spec_matches_platform(platform@),
{
    let current: String = current_platform();
    let all: String = "all".to_owned();
    let as_string: String = platform.to_owned();
    as_string.eq(&current) || as_string.eq(&all)
}

/// Look a key up in a checksum list: the first entry whose platform
/// identifier has these characters.
pub open spec fn spec_checksum_lookup(cs: Seq<(Seq<char>, Seq<char>)>, key: Seq<char>) -> Option<
    Seq<char>,
>
    decreases cs.len(),
{
    if cs.len() == 0 {
        None
    } else if cs[0].0 == key {
        Some(cs[0].1)
    } else {
        spec_checksum_lookup(cs.drop_first(), key)
    }
}

/// The checksum declared for the current platform, if any.
pub(crate) fn checksum_for_platform_list<'a>(cs: &'a Vec<(String, String)>) -> (r: Option<&'a str>)
    ensures
        r.deep_view() == spec_checksum_lookup(cs.deep_view(), spec_current_platform()),
{
    let current: String = current_platform();
    proof {
        assert(cs.deep_view().skip(0) =~= cs.deep_view());
    }
    let mut i: usize = 0;
    while i < cs.len()
        invariant
            0 <= i <= cs@.len(),
            cs.deep_view().len() == cs@.len(),
            current@ == spec_current_platform(),
            spec_checksum_lookup(cs.deep_view(), spec_current_platform()) == spec_checksum_lookup(
                cs.deep_view().skip(i as int),
                spec_current_platform(),
            ),
        decreases cs@.len() - i,
    {
        proof {
            assert(cs.deep_view().skip(i as int).drop_first() =~= cs.deep_view().skip(i + 1));
            assert(cs.deep_view().skip(i as int)[0] == cs.deep_view()[i as int]);
        }
        if cs[i].0.eq(&current) {
            return Some(cs[i].1.as_str());
        }
        i = i + 1;
    }
    proof {
        assert(cs.deep_view().skip(i as int).len() == 0);
    }
    None
}

/// Whether a declared platform list admits the current platform: an empty
/// list restricts nothing, a non-empty list must hold the current platform's
/// identifier or the wildcard `"all"`.
pub open spec fn spec_supports_current(platforms: Seq<Seq<char>>) -> bool {
    platforms.len() == 0 || exists|i: int|
        0 <= i < platforms.len() && ((#[trigger] platforms[i]) == spec_current_platform()
            || platforms[i] == "all"@)
}

/// Check whether a declared platform list admits the current platform.
pub(crate) fn supports_current(platforms: &Vec<String>) -> (r: bool)
    ensures
        r == spec_supports_current(platforms.deep_view()),
{
    if platforms.len() == 0 {
        return true;
    }
    let current: String = current_platform();
    let all: String = "all".to_owned();
    let mut i: usize = 0;
    while i < platforms.len()
        invariant
            0 <= i <= platforms@.len(),
            platforms.deep_view().len() == platforms@.len(),
            current@ == spec_current_platform(),
            all@ == "all"@,
            forall|j: int|
                0 <= j < i ==> !((#[trigger] platforms.deep_view()[j]) == spec_current_platform()
                    || platforms.deep_view()[j] == "all"@),
        decreases platforms@.len() - i,
    {
        if platforms[i].eq(&current) || platforms[i].eq(&all) {
            proof {
                assert(platforms.deep_view()[i as int] == spec_current_platform()
                    || platforms.deep_view()[i as int] == "all"@);
            }
            return true;
        }
        i = i + 1;
    }
    false
}

} // verus!

