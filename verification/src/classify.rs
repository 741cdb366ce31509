//! Device classification from advertised service identifiers.
//!
//! A device's category is derived from its set of service-identifier
//! strings by scanning for membership in four fixed reference groups
//! (audio, input, network, file transfer), in that priority order; the
//! first group with a member wins, and a device with no member of any
//! group is labelled "Unknown Device". Membership in a group means that
//! one of the group's marker strings occurs inside the identifier.

use vstd::prelude::*;

verus! {

/// The marker string `p` occurs in `s` starting at position `i`.
pub open spec fn substring_at(s: Seq<char>, p: Seq<char>, i: int) -> bool {
    0 <= i && i + p.len() <= s.len() && s.subrange(i, i + p.len() as int) == p
}

/// The marker string `p` occurs somewhere in `s`.
pub open spec fn has_substring(s: Seq<char>, p: Seq<char>) -> bool {
    exists|i: int| substring_at(s, p, i)
}

/// The identifier advertises an audio profile.
pub open spec fn is_audio_marker(u: Seq<char>) -> bool {
    has_substring(u, "1108"@) || has_substring(u, "110b"@) || has_substring(u, "110d"@)
}

/// The identifier advertises a human-interface (input) profile.
pub open spec fn is_input_marker(u: Seq<char>) -> bool {
    has_substring(u, "1124"@)
}

/// The identifier advertises a network profile.
pub open spec fn is_network_marker(u: Seq<char>) -> bool {
    has_substring(u, "1115"@) || has_substring(u, "1116"@)
}

/// The identifier advertises a file-transfer profile.
pub open spec fn is_file_transfer_marker(u: Seq<char>) -> bool {
    has_substring(u, "1105"@) || has_substring(u, "1106"@)
}

/// Some identifier in `ids` is an audio marker.
pub open spec fn has_audio(ids: Seq<Seq<char>>) -> bool {
    exists|i: int| 0 <= i < ids.len() && is_audio_marker(#[trigger] ids[i])
}

/// Some identifier in `ids` is an input marker.
pub open spec fn has_input(ids: Seq<Seq<char>>) -> bool {
    exists|i: int| 0 <= i < ids.len() && is_input_marker(#[trigger] ids[i])
}

/// Some identifier in `ids` is a network marker.
pub open spec fn has_network(ids: Seq<Seq<char>>) -> bool {
    exists|i: int| 0 <= i < ids.len() && is_network_marker(#[trigger] ids[i])
}

/// Some identifier in `ids` is a file-transfer marker.
pub open spec fn has_file_transfer(ids: Seq<Seq<char>>) -> bool {
    exists|i: int| 0 <= i < ids.len() && is_file_transfer_marker(#[trigger] ids[i])
}

/// The category derived from a sequence of service identifiers: the first
/// group, in the fixed priority order audio, input, network, file
/// transfer, with a member among the identifiers.
pub open spec fn category_of(ids: Seq<Seq<char>>) -> Seq<char> {
    if has_audio(ids) {
        "Audio Device"@
    } else if has_input(ids) {
        "Input Device"@
    } else if has_network(ids) {
        "Network Device"@
    } else if has_file_transfer(ids) {
        "File Transfer"@
    } else {
        "Unknown Device"@
    }
}

/// Whether `marker` occurs in `s` starting exactly at position `i`.
fn match_at(s: &str, marker: &str, i: usize) -> (r: bool)
    requires
        s@.len() <= usize::MAX,
        i + marker@.len() <= s@.len(),
    ensures
        r == substring_at(s@, marker@, i as int),
{
    let m: usize = marker.unicode_len();
    let mut j: usize = 0;
    while j < m
        invariant
            j <= m,
            m == marker@.len(),
            s@.len() <= usize::MAX,
            i + m <= s@.len(),
            forall|k: int| 0 <= k < j ==> s@[i + k] == marker@[k],
        decreases m - j,
    {
        if s.get_char(i + j) != marker.get_char(j) {
            proof {
                assert(s@.subrange(i as int, i + m as int)[j as int] == s@[i + j]);
            }
            return false;
        }
        j += 1;
    }
    proof {
        assert(s@.subrange(i as int, i + m as int) =~= marker@);
    }
    true
}

/// Whether the marker string occurs anywhere inside `s`.
pub fn contains_marker(s: &str, marker: &str) -> (r: bool)
    ensures
        r == has_substring(s@, marker@),
{
    let n: usize = s.unicode_len();
    let m: usize = marker.unicode_len();
    if m > n {
        return false;
    }
    if m == 0 {
        proof {
            assert(s@.subrange(0, 0) =~= marker@);
            assert(substring_at(s@, marker@, 0));
        }
        return true;
    }
    let mut i: usize = 0;
    while i <= n - m
        invariant
            1 <= m <= n,
            n == s@.len(),
            m == marker@.len(),
            i <= n - m + 1,
            forall|k: int| 0 <= k < i ==> !substring_at(s@, marker@, k),
        decreases n - i,
    {
        if match_at(s, marker, i) {
            return true;
        }
        i += 1;
    }
    false
}

/// An element of `a` is an element of any sequence with the same
/// multiset of elements.
proof fn lemma_permuted_contains(a: Seq<Seq<char>>, b: Seq<Seq<char>>, x: Seq<char>)
    requires
        a.to_multiset() == b.to_multiset(),
        a.contains(x),
    ensures
        b.contains(x),
{
    broadcast use vstd::seq_lib::group_to_multiset_ensures;

    assert(a.to_multiset().count(x) > 0);
}

/// Classification is order-independent: any two identifier sequences
/// with the same multiset of identifiers agree on every group, and so
/// on the derived category.
pub proof fn lemma_category_permutation(a: Seq<Seq<char>>, b: Seq<Seq<char>>)
    requires
        a.to_multiset() == b.to_multiset(),
    ensures
        has_audio(a) == has_audio(b),
        has_input(a) == has_input(b),
        has_network(a) == has_network(b),
        has_file_transfer(a) == has_file_transfer(b),
        category_of(a) == category_of(b),
{
    assert forall|i: int| 0 <= i < a.len() implies b.contains(#[trigger] a[i]) by {
        assert(a.contains(a[i]));
        lemma_permuted_contains(a, b, a[i]);
    }
    assert forall|i: int| 0 <= i < b.len() implies a.contains(#[trigger] b[i]) by {
        assert(b.contains(b[i]));
        lemma_permuted_contains(b, a, b[i]);
    }
    if has_audio(a) {
        let i = choose|i: int| 0 <= i < a.len() && is_audio_marker(#[trigger] a[i]);
        let j = choose|j: int| 0 <= j < b.len() && b[j] == a[i];
        assert(is_audio_marker(b[j]));
    }
    if has_audio(b) {
        let i = choose|i: int| 0 <= i < b.len() && is_audio_marker(#[trigger] b[i]);
        let j = choose|j: int| 0 <= j < a.len() && a[j] == b[i];
        assert(is_audio_marker(a[j]));
    }
    if has_input(a) {
        let i = choose|i: int| 0 <= i < a.len() && is_input_marker(#[trigger] a[i]);
        let j = choose|j: int| 0 <= j < b.len() && b[j] == a[i];
        assert(is_input_marker(b[j]));
    }
    if has_input(b) {
        let i = choose|i: int| 0 <= i < b.len() && is_input_marker(#[trigger] b[i]);
        let j = choose|j: int| 0 <= j < a.len() && a[j] == b[i];
        assert(is_input_marker(a[j]));
    }
    if has_network(a) {
        let i = choose|i: int| 0 <= i < a.len() && is_network_marker(#[trigger] a[i]);
        let j = choose|j: int| 0 <= j < b.len() && b[j] == a[i];
        assert(is_network_marker(b[j]));
    }
    if has_network(b) {
        let i = choose|i: int| 0 <= i < b.len() && is_network_marker(#[trigger] b[i]);
        let j = choose|j: int| 0 <= j < a.len() && a[j] == b[i];
        assert(is_network_marker(a[j]));
    }
    if has_file_transfer(a) {
        let i = choose|i: int| 0 <= i < a.len() && is_file_transfer_marker(#[trigger] a[i]);
        let j = choose|j: int| 0 <= j < b.len() && b[j] == a[i];
        assert(is_file_transfer_marker(b[j]));
    }
    if has_file_transfer(b) {
        let i = choose|i: int| 0 <= i < b.len() && is_file_transfer_marker(#[trigger] b[i]);
        let j = choose|j: int| 0 <= j < a.len() && a[j] == b[i];
        assert(is_file_transfer_marker(a[j]));
    }
}

/// Any identifier sequence with an audio-group member classifies as an
/// audio device: the audio group has the highest priority, so no other
/// group can take precedence.
pub proof fn lemma_audio_wins(ids: Seq<Seq<char>>)
    requires
        has_audio(ids),
    ensures
        category_of(ids) == "Audio Device"@,
{
}

/// An empty identifier sequence classifies as unknown.
pub proof fn lemma_empty_is_unknown(ids: Seq<Seq<char>>)
    requires
        ids.len() == 0,
    ensures
        category_of(ids) == "Unknown Device"@,
{
}

} // verus!
