//! Scanning a path's leading tilde segment, and the expansion itself.

use vstd::prelude::*;
use vstd::slice::slice_subrange;
use vstd::slice::slice_to_vec;

use crate::resolve::name_malformed;
use crate::resolve::resolve_home;

verus! {

/// The byte `~`, the expansion marker.
pub const TILDE: u8 = 126;

/// The byte `/`, the segment separator.
pub const SLASH: u8 = 47;

/// Index of the first `/` in `s` at or after position `i`, or `s.len()`
/// if none occurs there.
pub open spec fn seg_end_from(s: Seq<u8>, i: int) -> int
    decreases s.len() - i,
{
    if i < 0 || i >= s.len() {
        s.len() as int
    } else if s[i] == SLASH {
        i
    } else {
        seg_end_from(s, i + 1)
    }
}

/// Index of the first `/` in `s`, or `s.len()` if `s` has none: the end
/// of the leading tilde segment.
pub open spec fn seg_end(s: Seq<u8>) -> int {
    seg_end_from(s, 0)
}

/// Does `s` begin with a `~`?
pub open spec fn starts_tilde(s: Seq<u8>) -> bool {
    s.len() > 0 && s[0] == TILDE
}

/// The candidate username: everything strictly between the leading `~`
/// and the first `/` (or the end of the input).
pub open spec fn name_of(s: Seq<u8>) -> Seq<u8> {
    s.subrange(1, seg_end(s))
}

/// The remainder kept verbatim: everything from the first `/` on
/// (separator included), or nothing if `s` has no `/`.
pub open spec fn rest_of(s: Seq<u8>) -> Seq<u8> {
    s.subrange(seg_end(s), s.len() as int)
}

/// Is `s` eligible for expansion: it begins with `~` and the candidate
/// username holds no further `~` (the multi-tilde guard)?
pub open spec fn expandable(s: Seq<u8>) -> bool {
    starts_tilde(s) && !name_of(s).contains(TILDE)
}

/// What expansion yields for input `s` once the home-directory lookup has
/// come out as `outcome`: an ineligible input is returned unchanged; on a
/// successful lookup the home bytes replace the tilde segment; on a failed
/// lookup the segment is dropped and only the remainder is kept.
pub open spec fn expansion(s: Seq<u8>, outcome: Option<Seq<u8>>) -> Seq<u8> {
    if !expandable(s) {
        s
    } else {
        match outcome {
            Some(home) => home + rest_of(s),
            None => rest_of(s),
        }
    }
}

proof fn lemma_seg_end_from_char(s: Seq<u8>, k: int, e: int)
    requires
        0 <= k <= e <= s.len(),
        forall|j: int| k <= j < e ==> s[j] != SLASH,
        e < s.len() ==> s[e] == SLASH,
    ensures
        seg_end_from(s, k) == e,
    decreases e - k,
{
    if k < e {
        lemma_seg_end_from_char(s, k + 1, e);
    }
}

/// A position with no `/` anywhere before it, and holding a `/` unless it
/// is the end of the input, is exactly `seg_end`.
proof fn lemma_seg_end_char(s: Seq<u8>, e: int)
    requires
        0 <= e <= s.len(),
        forall|j: int| 0 <= j < e ==> s[j] != SLASH,
        e < s.len() ==> s[e] == SLASH,
    ensures
        seg_end(s) == e,
{
    lemma_seg_end_from_char(s, 0, e);
}

proof fn lemma_seg_end_from_bounds(s: Seq<u8>, k: int)
    requires
        0 <= k <= s.len(),
    ensures
        k <= seg_end_from(s, k) <= s.len(),
        seg_end_from(s, k) < s.len() ==> s[seg_end_from(s, k)] == SLASH,
        forall|j: int| k <= j < seg_end_from(s, k) ==> s[j] != SLASH,
    decreases s.len() - k,
{
    if k < s.len() && s[k] != SLASH {
        lemma_seg_end_from_bounds(s, k + 1);
    }
}

/// Basic facts about `seg_end`: it lies within the input, points at a `/`
/// when one exists, nothing before it is a `/`, and an input that begins
/// with `~` has its segment end at index 1 or later.
pub proof fn lemma_seg_end_bounds(s: Seq<u8>)
    ensures
        0 <= seg_end(s) <= s.len(),
        seg_end(s) < s.len() ==> s[seg_end(s)] == SLASH,
        forall|j: int| 0 <= j < seg_end(s) ==> s[j] != SLASH,
        starts_tilde(s) ==> 1 <= seg_end(s),
{
    lemma_seg_end_from_bounds(s, 0);
}

/// Index of the first `/` in `s`, or `s.len()` if there is none.
fn seg_end_index(s: &[u8]) -> (end: usize)
    ensures
        end as int == seg_end(s@),
{
    let n = s.len();
    let mut i: usize = 0;
    while i < n
        invariant
            n == s@.len(),
            0 <= i <= n,
            forall|j: int| 0 <= j < i ==> s@[j] != SLASH,
        decreases n - i,
    {
        if s[i] == SLASH {
            proof {
                lemma_seg_end_char(s@, i as int);
            }
            return i;
        }
        i = i + 1;
    }
    proof {
        lemma_seg_end_char(s@, i as int);
    }
    i
}

/// Scans the leading tilde segment: the end of the segment when `s` is
/// eligible for expansion, and nothing when it is not.
fn scan_prefix(s: &[u8]) -> (r: Option<usize>)
    ensures
        r matches Some(end) ==> expandable(s@) && end as int == seg_end(s@),
        r is None ==> !expandable(s@),
{
    if s.len() == 0 || s[0] != TILDE {
        return None;
    }
    let end = seg_end_index(s);
    proof {
        lemma_seg_end_bounds(s@);
    }
    let mut j: usize = 1;
    while j < end
        invariant
            1 <= j <= end,
            end as int == seg_end(s@),
            end <= s@.len(),
            starts_tilde(s@),
            forall|k: int| 1 <= k < j ==> s@[k] != TILDE,
        decreases end - j,
    {
        if s[j] == TILDE {
            proof {
                assert(name_of(s@)[j - 1] == TILDE);
                assert(name_of(s@).contains(TILDE));
            }
            return None;
        }
        j = j + 1;
    }
    proof {
        assert forall|m: int| 0 <= m < name_of(s@).len() implies name_of(s@)[m] != TILDE by {
            assert(name_of(s@)[m] == s@[m + 1]);
        }
        assert(!name_of(s@).contains(TILDE));
    }
    Some(end)
}

/// The candidate username of an eligible input: `Some` with the bytes
/// between the leading `~` and the first `/` exactly when `s` is eligible
/// for expansion, and `None` otherwise.
pub fn expandable_name(s: &[u8]) -> (r: Option<Vec<u8>>)
    ensures
        r matches Some(name) ==> expandable(s@) && name@ == name_of(s@),
        r is None ==> !expandable(s@),
{
    match scan_prefix(s) {
        None => None,
        Some(end) => {
            proof {
                lemma_seg_end_bounds(s@);
            }
            Some(slice_to_vec(slice_subrange(s, 1, end)))
        },
    }
}

/// The home-directory bytes that an `Option<Vec<u8>>` lookup outcome
/// carries, at the specification level.
pub open spec fn opt_view(o: Option<Vec<u8>>) -> Option<Seq<u8>> {
    match o {
        Some(v) => Some(v@),
        None => None,
    }
}

/// Assembles the expansion of `s` from a home-directory lookup outcome
/// that the caller resolved itself: an ineligible input comes back
/// unchanged (the outcome is ignored), an eligible one becomes the home
/// bytes followed by the verbatim remainder, or the remainder alone when
/// the lookup found nothing.
pub fn expand_with(s: &[u8], home: Option<Vec<u8>>) -> (r: Vec<u8>)
    ensures
        r@ == expansion(s@, opt_view(home)),
{
    match scan_prefix(s) {
        None => slice_to_vec(s),
        Some(end) => {
            proof {
                lemma_seg_end_bounds(s@);
            }
            let mut out: Vec<u8> = match home {
                Some(h) => h,
                None => Vec::new(),
            };
            let mut rest = slice_to_vec(slice_subrange(s, end, s.len()));
            out.append(&mut rest);
            proof {
                assert(Seq::<u8>::empty() + rest_of(s@) =~= rest_of(s@));
            }
            out
        },
    }
}

/// Performs tilde expansion on `s`, replacing a leading `~` or
/// `~username` segment with that user's home directory as the account
/// database reports it. An input that does not begin with `~`, or whose
/// candidate username holds a further `~`, comes back unchanged; when the
/// lookup yields no home directory the unresolved segment is dropped and
/// the remainder alone is kept.
pub fn tilde_expand(s: &[u8]) -> (r: Vec<u8>)
    ensures
        exists|outcome: Option<Seq<u8>>| r@ == expansion(s@, outcome),
        !starts_tilde(s@) ==> r@ == s@,
        starts_tilde(s@) && name_of(s@).contains(TILDE) ==> r@ == s@,
        expandable(s@) && name_malformed(name_of(s@)) ==> r@ == rest_of(s@),
{
    let home: Option<Vec<u8>> = match expandable_name(s) {
        Some(name) => match resolve_home(name.as_slice()) {
            Ok(h) => Some(h),
            Err(_) => None,
        },
        None => None,
    };
    let ghost outcome = opt_view(home);
    let r = expand_with(s, home);
    proof {
        assert(r@ == expansion(s@, outcome));
    }
    r
}

/// Expansion is not idempotent. An expanded result `t` that is itself
/// eligible — it begins with `~` and its candidate name holds no further
/// `~` — is expanded again, and a second expansion whose lookup finds a
/// home `h` other than `t`'s own leading segment changes `t`: a caller
/// must apply expansion once per path, not until a fixed point.
pub proof fn lemma_expansion_not_idempotent(t: Seq<u8>, h: Seq<u8>)
    requires
        expandable(t),
        h != t.subrange(0, seg_end(t)),
    ensures
        expansion(t, Some(h)) != t,
{
    lemma_seg_end_bounds(t);
    let e = seg_end(t);
    if expansion(t, Some(h)) == t {
        assert(h + rest_of(t) == t);
        assert(rest_of(t).len() == t.len() - e);
        assert(h.len() == e);
        assert(h =~= t.subrange(0, e)) by {
            assert forall|i: int| 0 <= i < e implies h[i] == t.subrange(0, e)[i] by {
                assert((h + rest_of(t))[i] == h[i]);
                assert(t.subrange(0, e)[i] == t[i]);
            }
        }
        assert(false);
    }
}

} // verus!
