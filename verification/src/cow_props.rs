//! Selection rules of the in-process property patcher: which properties it
//! may patch, which property areas are build areas, and which mappings of
//! `/proc/self/maps` are hidden.

use vstd::prelude::*;
use vstd::string::*;
use vstd::utf8::encode_utf8;

use crate::hooks::pair_strings;
use crate::keyed_map::KeyedMap;
use crate::property_map::Writes;
use crate::strings::str_eq;

verus! {

/// Longest property value, in bytes, that a property area can hold in place.
pub const PROP_VALUE_MAX: usize = 92;

/// Whether `p` occurs in `s` as a contiguous piece.
pub open spec fn occurs_in(p: Seq<char>, s: Seq<char>) -> bool {
    exists|i: int| 0 <= i && i + p.len() <= s.len() && #[trigger] s.subrange(i, i + p.len()) == p
}

/// Whether `needle` occurs in `haystack`, as `str::contains` decides it.
pub fn text_contains(haystack: &str, needle: &str) -> (b: bool)
    ensures
        b == occurs_in(needle@, haystack@),
{
    let n = haystack.unicode_len();
    let m = needle.unicode_len();
    if m == 0 {
        assert(haystack@.subrange(0int, 0int + needle@.len()) =~= needle@);
        return true;
    }
    if m > n {
        proof {
            if occurs_in(needle@, haystack@) {
                let i = choose|i: int| 0 <= i && i + needle@.len() <= haystack@.len()
                    && #[trigger] haystack@.subrange(i, i + needle@.len()) == needle@;
            }
        }
        return false;
    }
    let mut i: usize = 0;
    while i <= n - m
        invariant
            n == haystack@.len(),
            m == needle@.len(),
            1 <= m <= n,
            0 <= i <= n - m + 1,
            forall|j: int| 0 <= j < i ==> #[trigger] haystack@.subrange(j, j + m) != needle@,
        decreases n - m + 1 - i,
    {
        let piece = haystack.substring_char(i, i + m);
        if str_eq(piece, needle) {
            return true;
        }
        i = i + 1;
    }
    proof {
        if occurs_in(needle@, haystack@) {
            let j = choose|j: int| 0 <= j && j + needle@.len() <= haystack@.len()
                && #[trigger] haystack@.subrange(j, j + needle@.len()) == needle@;
            assert(haystack@.subrange(j, j + m) != needle@);
        }
    }
    false
}

/// A property value the patcher may write in place: not empty and at most
/// `PROP_VALUE_MAX` bytes long.
pub open spec fn patchable(v: String) -> bool {
    v@.len() > 0 && (encode_utf8(v@).len() as usize) <= 92
}

/// The entries of `ps` that the patcher may write, in order.
pub open spec fn patchable_pairs(ps: Seq<(Seq<char>, String)>) -> Seq<(Seq<char>, String)>
    decreases ps.len(),
{
    if ps.len() == 0 {
        Seq::empty()
    } else if patchable(ps.last().1) {
        patchable_pairs(ps.drop_last()).push(ps.last())
    } else {
        patchable_pairs(ps.drop_last())
    }
}

/// The (key, value) pairs of `ps` by their characters.
pub open spec fn pair_chars(ps: Seq<(Seq<char>, String)>) -> Writes {
    ps.map_values(|p: (Seq<char>, String)| (p.0, p.1@))
}

/// The properties of a map that the patcher may write in place.
pub fn cow_candidates(prop_map: &KeyedMap<String>) -> (r: Vec<(String, String)>)
    ensures
        pair_strings(r@) == pair_chars(patchable_pairs(prop_map.pairs())),
{
    let ghost ps = prop_map.pairs();
    let mut out: Vec<(String, String)> = Vec::new();
    let n = prop_map.len();
    let mut i: usize = 0;
    assert(pair_strings(out@) =~= pair_chars(patchable_pairs(ps.take(0))));
    while i < n
        invariant
            n == ps.len(),
            ps == prop_map.pairs(),
            0 <= i <= n,
            pair_strings(out@) == pair_chars(patchable_pairs(ps.take(i as int))),
        decreases n - i,
    {
        let key = prop_map.key_at(i);
        let value = prop_map.value_at(i);
        assert(ps.take(i + 1).drop_last() =~= ps.take(i as int));
        assert(ps.take(i + 1).last() == ps[i as int]);
        let ghost prev = out@;
        if !value.as_str().is_empty() && value.as_str().len() <= PROP_VALUE_MAX {
            assert(patchable(*value));
            out.push((key.clone(), value.clone()));
            assert(pair_strings(out@) =~= pair_strings(prev).push((key@, value@)));
            assert(pair_chars(patchable_pairs(ps.take(i + 1))) =~= pair_chars(
                patchable_pairs(ps.take(i as int)),
            ).push((key@, value@)));
        }
        i = i + 1;
    }
    assert(ps.take(n as int) =~= ps);
    out
}

/// A property area that holds build properties.
pub open spec fn build_area(path: Seq<char>) -> bool {
    occurs_in("build_prop"@, path) || occurs_in("build_odm_prop"@, path) || occurs_in(
        "build_vendor_prop"@,
        path,
    ) || occurs_in("default_prop"@, path)
}

/// Whether a property area path names a build area.
pub fn is_build_area(path: &str) -> (b: bool)
    ensures
        b == build_area(path@),
        occurs_in("build_prop"@, path@) ==> b,
        occurs_in("build_odm_prop"@, path@) ==> b,
        occurs_in("build_vendor_prop"@, path@) ==> b,
        occurs_in("default_prop"@, path@) ==> b,
        b ==> occurs_in("build_prop"@, path@) || occurs_in("build_odm_prop"@, path@) || occurs_in(
            "build_vendor_prop"@,
            path@,
        ) || occurs_in("default_prop"@, path@),
{
    text_contains(path, "build_prop") || text_contains(path, "build_odm_prop") || text_contains(
        path,
        "build_vendor_prop",
    ) || text_contains(path, "default_prop")
}

/// A line of `/proc/self/maps` to hide: a property area mapping whose line
/// contains one of the patterns.
pub open spec fn hidden_mapping(line: Seq<char>, patterns: Seq<String>) -> bool {
    occurs_in("/dev/__properties__/"@, line) && exists|j: int|
        0 <= j < patterns.len() && occurs_in(#[trigger] patterns[j]@, line)
}

/// Whether a line of `/proc/self/maps` is a property area mapping to hide.
pub fn is_hidden_mapping(line: &str, patterns: &Vec<String>) -> (b: bool)
    ensures
        b == hidden_mapping(line@, patterns@),
        b ==> occurs_in("/dev/__properties__/"@, line@),
        b ==> exists|j: int| 0 <= j < patterns@.len() && occurs_in(#[trigger] patterns@[j]@, line@),
        forall|j: int|
            0 <= j < patterns@.len() && occurs_in("/dev/__properties__/"@, line@) && occurs_in(
                #[trigger] patterns@[j]@,
                line@,
            ) ==> b,
{
    if !text_contains(line, "/dev/__properties__/") {
        return false;
    }
    let n = patterns.len();
    let mut j: usize = 0;
    while j < n
        invariant
            n == patterns@.len(),
            0 <= j <= n,
            occurs_in("/dev/__properties__/"@, line@),
            forall|k: int| 0 <= k < j ==> !occurs_in(#[trigger] patterns@[k]@, line@),
        decreases n - j,
    {
        if text_contains(line, patterns[j].as_str()) {
            assert(occurs_in(patterns@[j as int]@, line@));
            return true;
        }
        j = j + 1;
    }
    false
}

/// Hiding by a list of patterns is hiding by any one of them: a line is hidden
/// for two pattern lists together exactly when one of the lists hides it.
pub proof fn lemma_hidden_mapping_union(line: Seq<char>, ps: Seq<String>, qs: Seq<String>)
    ensures
        hidden_mapping(line, ps + qs) == (hidden_mapping(line, ps) || hidden_mapping(line, qs)),
{
    let all = ps + qs;
    if hidden_mapping(line, all) {
        let j = choose|j: int| 0 <= j < all.len() && occurs_in(#[trigger] all[j]@, line);
        if j < ps.len() {
            assert(all[j] == ps[j]);
        } else {
            assert(all[j] == qs[j - ps.len()]);
        }
    }
    if hidden_mapping(line, ps) {
        let j = choose|j: int| 0 <= j < ps.len() && occurs_in(#[trigger] ps[j]@, line);
        assert(all[j] == ps[j]);
    }
    if hidden_mapping(line, qs) {
        let j = choose|j: int| 0 <= j < qs.len() && occurs_in(#[trigger] qs[j]@, line);
        assert(all[ps.len() + j] == qs[j]);
    }
}

/// A path keeps naming a build area when text is added around it.
pub proof fn lemma_build_area_in_context(a: Seq<char>, path: Seq<char>, c: Seq<char>)
    requires
        build_area(path),
    ensures
        build_area(a + path + c),
{
    let whole = a + path + c;
    assert forall|p: Seq<char>| occurs_in(p, path) implies occurs_in(p, whole) by {
        let i = choose|i: int| 0 <= i && i + p.len() <= path.len() && #[trigger] path.subrange(i, i + p.len()) == p;
        assert(whole.subrange(a.len() + i, a.len() + i + p.len()) =~= path.subrange(i, i + p.len()));
    }
}

} // verus!
