//! SEC-S4 — manifold gate runtime side-channel scrub wire map.
//!
//! The manifold gate runtime owns the cold-edge census bridging transition evidence to the
//! SEC-S4 side-channel / scrub SSOT; the L-S5 formal proof, the sled anomaly audit and the
//! gateway trust wrap stay honestly open.
//!
//! The scrub itself is byte logic: an ASCII case-insensitive search for the K_v1 tokens,
//! each occurrence replaced left to right by the `[SCRUBBED]` placeholder. Its central law,
//! proved below for every input, is that a scrubbed buffer leaves no K_v1 class detectable.
use vstd::prelude::*;
use crate::text::{
    seq_contains, matches_at, str_eq, str_contains, decimal, bool_text, push_str, push_bool,
    push_decimal, count_where, lemma_count_step, lemma_flatten_step, lemma_take_all,
};
use crate::runtime::gate::evidence::{TransitionEvidence, witness_admits, cold_edge_witness_admits};

verus! {

// ---------------------------------------------------------------------------
// Case-insensitive byte matching
// ---------------------------------------------------------------------------

/// ASCII lower-casing of one byte (`u8::to_ascii_lowercase`).
pub open spec fn ascii_lower(b: u8) -> u8 {
    if 65 <= b && b <= 90 {
        (b + 32) as u8
    } else {
        b
    }
}

/// ASCII lower-casing of one byte.
pub fn ascii_lower_byte(b: u8) -> (r: u8)
    ensures
        r == ascii_lower(b),
{
    if 65 <= b && b <= 90 {
        b + 32
    } else {
        b
    }
}

/// `n[j..]` matches `h` at offset `i + j`, ignoring ASCII case.
pub open spec fn ci_match_from(h: Seq<u8>, n: Seq<u8>, i: int, j: int) -> bool
    decreases n.len() - j,
{
    if j < 0 || j >= n.len() {
        true
    } else {
        0 <= i + j < h.len() && ascii_lower(h[i + j]) == ascii_lower(n[j]) && ci_match_from(
            h,
            n,
            i,
            j + 1,
        )
    }
}

/// The needle `n` occurs in `h` at offset `i`, ignoring ASCII case.
pub open spec fn ci_match_at(h: Seq<u8>, n: Seq<u8>, i: int) -> bool {
    0 <= i && i + n.len() <= h.len() && ci_match_from(h, n, i, 0)
}

/// First offset at or after `i` where a non-empty `n` occurs in `h`, or `-1`.
pub open spec fn first_ci_from(h: Seq<u8>, n: Seq<u8>, i: int) -> int
    decreases h.len() - i,
{
    if n.len() == 0 || i < 0 || i + n.len() > h.len() {
        -1
    } else if ci_match_at(h, n, i) {
        i
    } else {
        first_ci_from(h, n, i + 1)
    }
}

/// A non-empty needle occurs somewhere in `h`, ignoring ASCII case.
pub open spec fn ci_contains(h: Seq<u8>, n: Seq<u8>) -> bool {
    first_ci_from(h, n, 0) >= 0
}

/// The needle occurs nowhere in `h`.
pub open spec fn no_occurrence(h: Seq<u8>, n: Seq<u8>) -> bool {
    forall|q: int| !#[trigger] ci_match_at(h, n, q)
}

/// Needle byte `k` agrees with the window at `i`, ignoring ASCII case.
pub open spec fn ci_byte_agrees(h: Seq<u8>, n: Seq<u8>, i: int, k: int) -> bool {
    0 <= i + k < h.len() && ascii_lower(h[i + k]) == ascii_lower(n[k])
}

/// The needle bytes from offset `j` on agree with the window at `i`.
pub open spec fn ci_window_agrees(h: Seq<u8>, n: Seq<u8>, i: int, j: int) -> bool {
    forall|k: int| j <= k < n.len() ==> #[trigger] ci_byte_agrees(h, n, i, k)
}

/// `ci_match_from` compares the remaining needle bytes one by one.
pub proof fn lemma_ci_match_from(h: Seq<u8>, n: Seq<u8>, i: int, j: int)
    requires
        0 <= j,
    ensures
        ci_match_from(h, n, i, j) <==> ci_window_agrees(h, n, i, j),
    decreases n.len() - j,
{
    if j < n.len() {
        lemma_ci_match_from(h, n, i, j + 1);
        if ci_window_agrees(h, n, i, j) {
            assert(ci_byte_agrees(h, n, i, j));
        }
    }
}

/// An occurrence at `i` is a byte-wise case-insensitive equality of the window.
pub proof fn lemma_ci_match_at(h: Seq<u8>, n: Seq<u8>, i: int)
    ensures
        ci_match_at(h, n, i) <==> (0 <= i && i + n.len() <= h.len() && ci_window_agrees(h, n, i, 0)),
{
    lemma_ci_match_from(h, n, i, 0);
}

/// What the first-occurrence search returns.
pub proof fn lemma_first_ci_from(h: Seq<u8>, n: Seq<u8>, i: int)
    requires
        0 <= i,
    ensures
        first_ci_from(h, n, i) >= 0 ==> {
            let p = first_ci_from(h, n, i);
            &&& i <= p
            &&& n.len() > 0
            &&& p + n.len() <= h.len()
            &&& ci_match_at(h, n, p)
            &&& forall|q: int| i <= q < p ==> !#[trigger] ci_match_at(h, n, q)
        },
        first_ci_from(h, n, i) < 0 ==> first_ci_from(h, n, i) == -1 && (n.len() == 0 || forall|
            q: int,
        | i <= q ==> !#[trigger] ci_match_at(h, n, q)),
    decreases h.len() - i,
{
    if n.len() == 0 || i + n.len() > h.len() {
    } else if ci_match_at(h, n, i) {
    } else {
        lemma_first_ci_from(h, n, i + 1);
        assert forall|q: int| i <= q < first_ci_from(h, n, i) implies !#[trigger] ci_match_at(
            h,
            n,
            q,
        ) by {
            if q == i {
            }
        };
    }
}

/// For a non-empty needle, not being found is the same as occurring nowhere.
pub proof fn lemma_ci_contains(h: Seq<u8>, n: Seq<u8>)
    requires
        n.len() > 0,
    ensures
        !ci_contains(h, n) <==> no_occurrence(h, n),
        ci_contains(h, n) <==> exists|q: int| ci_match_at(h, n, q),
{
    lemma_first_ci_from(h, n, 0);
    if ci_contains(h, n) {
        assert(ci_match_at(h, n, first_ci_from(h, n, 0)));
    } else {
        assert forall|q: int| !#[trigger] ci_match_at(h, n, q) by {
            if q >= 0 {
            }
        };
    }
}

/// Byte-wise case-insensitive comparison of `n` against `h` at offset `i`.
fn ci_window_eq(h: &Vec<u8>, n: &Vec<u8>, i: usize) -> (r: bool)
    requires
        i + n.len() <= h.len(),
    ensures
        r == ci_match_at(h@, n@, i as int),
{
    proof {
        lemma_ci_match_at(h@, n@, i as int);
    }
    let mut j: usize = 0;
    while j < n.len()
        invariant
            i + n.len() <= h.len(),
            j <= n.len(),
            forall|k: int| 0 <= k < j ==> #[trigger] ci_byte_agrees(h@, n@, i as int, k),
        decreases n.len() - j,
    {
        if ascii_lower_byte(h[i + j]) != ascii_lower_byte(n[j]) {
            assert(!ci_byte_agrees(h@, n@, i as int, j as int));
            proof {
                lemma_ci_match_at(h@, n@, i as int);
            }
            return false;
        }
        j = j + 1;
    }
    true
}

/// First case-insensitive occurrence of `needle` in `haystack` at or after `from`.
fn find_subslice_ci_from(haystack: &Vec<u8>, needle: &Vec<u8>, from: usize) -> (r: Option<usize>)
    ensures
        match r {
            Some(p) => p == first_ci_from(haystack@, needle@, from as int),
            None => first_ci_from(haystack@, needle@, from as int) < 0,
        },
{
    if needle.len() == 0 {
        return None;
    }
    let mut i = from;
    while i <= haystack.len() && needle.len() <= haystack.len() - i
        invariant
            needle.len() > 0,
            from <= i,
            first_ci_from(haystack@, needle@, from as int) == first_ci_from(
                haystack@,
                needle@,
                i as int,
            ),
        decreases haystack.len() - i,
    {
        if ci_window_eq(haystack, needle, i) {
            return Some(i);
        }
        i = i + 1;
    }
    None
}

/// First case-insensitive occurrence of `needle` in `haystack`.
fn find_subslice_ci(haystack: &Vec<u8>, needle: &Vec<u8>) -> (r: Option<usize>)
    ensures
        match r {
            Some(p) => p == first_ci_from(haystack@, needle@, 0),
            None => !ci_contains(haystack@, needle@),
        },
{
    find_subslice_ci_from(haystack, needle, 0)
}

/// Whether a non-empty `needle` occurs in `haystack`, ignoring ASCII case.
fn haystack_contains_ci(haystack: &Vec<u8>, needle: &Vec<u8>) -> (r: bool)
    ensures
        r == ci_contains(haystack@, needle@),
{
    find_subslice_ci(haystack, needle).is_some()
}

// ---------------------------------------------------------------------------
// Left-to-right replacement by the placeholder
// ---------------------------------------------------------------------------

/// Idempotent scrub placeholder, `[SCRUBBED]`.
pub open spec fn placeholder() -> Seq<u8> {
    seq![91u8, 83, 67, 82, 85, 66, 66, 69, 68, 93]
}

/// Idempotent scrub placeholder, `[SCRUBBED]` (mirrors the egoff scrub placeholder).
pub fn scrub_placeholder() -> (r: Vec<u8>)
    ensures
        r@ == placeholder(),
{
    let r = vec![91u8, 83, 67, 82, 85, 66, 66, 69, 68, 93];
    assert(r@ =~= placeholder());
    r
}

/// `s[i..]` with every occurrence of `n` replaced, left to right, by the placeholder.
pub open spec fn replace_ci_from(s: Seq<u8>, n: Seq<u8>, i: int) -> Seq<u8>
    decreases s.len() - i,
{
    if i < 0 || i > s.len() {
        Seq::empty()
    } else {
        let p = first_ci_from(s, n, i);
        if p < 0 {
            s.subrange(i, s.len() as int)
        } else {
            proof {
                lemma_first_ci_from(s, n, i);
            }
            s.subrange(i, p) + placeholder() + replace_ci_from(s, n, p + n.len())
        }
    }
}

/// Number of replacements `replace_ci_from` makes.
pub open spec fn replace_count_from(s: Seq<u8>, n: Seq<u8>, i: int) -> nat
    decreases s.len() - i,
{
    if i < 0 || i > s.len() {
        0
    } else {
        let p = first_ci_from(s, n, i);
        if p < 0 {
            0
        } else {
            proof {
                lemma_first_ci_from(s, n, i);
            }
            1 + replace_count_from(s, n, p + n.len())
        }
    }
}

/// A replacement pass makes at most one replacement per remaining byte.
pub proof fn lemma_replace_count_bound(s: Seq<u8>, n: Seq<u8>, i: int)
    requires
        0 <= i <= s.len(),
    ensures
        replace_count_from(s, n, i) <= s.len() - i,
    decreases s.len() - i,
{
    let p = first_ci_from(s, n, i);
    lemma_first_ci_from(s, n, i);
    if p >= 0 {
        lemma_replace_count_bound(s, n, p + n.len());
    }
}

/// Append `src[a..b]` to `out`.
fn push_range(out: &mut Vec<u8>, src: &Vec<u8>, a: usize, b: usize)
    requires
        a <= b <= src.len(),
    ensures
        final(out)@ == old(out)@ + src@.subrange(a as int, b as int),
{
    let ghost start = out@;
    let mut k = a;
    while k < b
        invariant
            a <= k <= b <= src.len(),
            out@ == start + src@.subrange(a as int, k as int),
        decreases b - k,
    {
        out.push(src[k]);
        k = k + 1;
        assert(out@ =~= start + src@.subrange(a as int, k as int));
    }
}

/// One replacement pass: every occurrence of `needle`, left to right, becomes the
/// placeholder; returns the new buffer and the number of replacements.
fn replace_all_ci(buf: &Vec<u8>, needle: &Vec<u8>) -> (r: (Vec<u8>, usize))
    ensures
        r.0@ == replace_ci_from(buf@, needle@, 0),
        r.1 == replace_count_from(buf@, needle@, 0),
{
    let ph = scrub_placeholder();
    let mut out: Vec<u8> = Vec::new();
    let mut pos: usize = 0;
    let mut count: usize = 0;
    proof {
        lemma_replace_count_bound(buf@, needle@, 0);
    }
    loop
        invariant
            pos <= buf.len(),
            ph@ == placeholder(),
            out@ + replace_ci_from(buf@, needle@, pos as int) == replace_ci_from(buf@, needle@, 0),
            count + replace_count_from(buf@, needle@, pos as int) == replace_count_from(
                buf@,
                needle@,
                0,
            ),
            replace_count_from(buf@, needle@, 0) <= buf.len(),
        decreases buf.len() - pos,
    {
        proof {
            lemma_first_ci_from(buf@, needle@, pos as int);
        }
        match find_subslice_ci_from(buf, needle, pos) {
            None => {
                let ghost before = out@;
                push_range(&mut out, buf, pos, buf.len());
                assert(out@ == before + replace_ci_from(buf@, needle@, pos as int));
                return (out, count);
            },
            Some(p) => {
                let ghost before = out@;
                let ghost rest = replace_ci_from(buf@, needle@, p + needle.len());
                assert(replace_ci_from(buf@, needle@, pos as int) == buf@.subrange(
                    pos as int,
                    p as int,
                ) + placeholder() + rest);
                push_range(&mut out, buf, pos, p);
                push_range(&mut out, &ph, 0, ph.len());
                assert(ph@.subrange(0, ph.len() as int) =~= ph@);
                assert(out@ + rest =~= before + replace_ci_from(buf@, needle@, pos as int));
                proof {
                    lemma_replace_count_bound(buf@, needle@, p + needle.len());
                }
                count = count + 1;
                pos = p + needle.len();
            },
        }
    }
}


// ---------------------------------------------------------------------------
// The K_v1 token set and the scrub law
// ---------------------------------------------------------------------------

/// The byte is one of `[scrubbed]` (the placeholder, lower-cased).
pub open spec fn placeholder_byte(b: u8) -> bool {
    b == 91 || b == 115 || b == 99 || b == 114 || b == 117 || b == 98 || b == 101 || b == 100
        || b == 93
}

/// No byte of `m` is a square bracket.
pub open spec fn bracket_free(m: Seq<u8>) -> bool
    decreases m.len(),
{
    if m.len() == 0 {
        true
    } else {
        m.last() != 91 && m.last() != 93 && bracket_free(m.drop_last())
    }
}

/// Some byte of `m`, lower-cased, is not a byte of the lower-cased placeholder.
pub open spec fn has_foreign_byte(m: Seq<u8>) -> bool
    decreases m.len(),
{
    if m.len() == 0 {
        false
    } else {
        !placeholder_byte(ascii_lower(m.last())) || has_foreign_byte(m.drop_last())
    }
}

/// A needle the placeholder can never help to form: no brackets, and a byte foreign to it.
pub open spec fn placeholder_safe(m: Seq<u8>) -> bool {
    bracket_free(m) && has_foreign_byte(m)
}

/// Bracket-freedom byte by byte.
pub proof fn lemma_bracket_free(m: Seq<u8>)
    ensures
        bracket_free(m) ==> forall|k: int|
            0 <= k < m.len() ==> ascii_lower(#[trigger] m[k]) != 91 && ascii_lower(m[k]) != 93,
    decreases m.len(),
{
    if m.len() > 0 {
        lemma_bracket_free(m.drop_last());
        if bracket_free(m) {
            assert forall|k: int| 0 <= k < m.len() implies ascii_lower(#[trigger] m[k]) != 91
                && ascii_lower(m[k]) != 93 by {
                if k < m.len() - 1 {
                    assert(m[k] == m.drop_last()[k]);
                }
            };
        }
    }
}

/// A foreign byte, found.
pub proof fn lemma_has_foreign_byte(m: Seq<u8>) -> (j: int)
    requires
        has_foreign_byte(m),
    ensures
        0 <= j < m.len(),
        !placeholder_byte(ascii_lower(m[j])),
    decreases m.len(),
{
    if !placeholder_byte(ascii_lower(m.last())) {
        m.len() - 1
    } else {
        let j = lemma_has_foreign_byte(m.drop_last());
        assert(m[j] == m.drop_last()[j]);
        j
    }
}

/// Every placeholder byte, lower-cased, is a placeholder byte.
pub proof fn lemma_placeholder_bytes()
    ensures
        forall|k: int| 0 <= k < 10 ==> placeholder_byte(ascii_lower(#[trigger] placeholder()[k])),
        placeholder()[0] == 91u8,
        placeholder()[9] == 93u8,
        placeholder().len() == 10,
{
}

/// Occurrences survive in any enclosing buffer: a window of `x` is a window of `y` at a shift.
proof fn lemma_shifted_match(x: Seq<u8>, y: Seq<u8>, m: Seq<u8>, q: int, d: int)
    requires
        ci_match_at(y, m, q),
        0 <= q - d,
        q - d + m.len() <= x.len(),
        forall|t: int| 0 <= t < x.len() && 0 <= t + d < y.len() ==> #[trigger] x[t] == y[t + d],
        0 <= d,
        x.len() + d <= y.len(),
    ensures
        ci_match_at(x, m, q - d),
{
    lemma_ci_match_at(y, m, q);
    lemma_ci_match_at(x, m, q - d);
    assert forall|k: int| 0 <= k < m.len() implies #[trigger] ci_byte_agrees(x, m, q - d, k) by {
        assert(ci_byte_agrees(y, m, q, k));
        assert(x[q - d + k] == y[q - d + k + d]);
    };
}

/// Joining two occurrence-free buffers around the placeholder creates no occurrence of a
/// placeholder-safe needle.
pub proof fn lemma_no_occurrence_around_placeholder(x: Seq<u8>, z: Seq<u8>, m: Seq<u8>)
    requires
        no_occurrence(x, m),
        no_occurrence(z, m),
        placeholder_safe(m),
    ensures
        no_occurrence(x + placeholder() + z, m),
{
    let y = x + placeholder() + z;
    let ph = placeholder();
    lemma_placeholder_bytes();
    lemma_bracket_free(m);
    let j0 = lemma_has_foreign_byte(m);
    assert forall|q: int| !#[trigger] ci_match_at(y, m, q) by {
        if ci_match_at(y, m, q) {
            lemma_ci_match_at(y, m, q);
            let xl = x.len() as int;
            if q + m.len() <= xl {
                lemma_shifted_match(x, y, m, q, 0);
                assert(ci_match_at(x, m, q));
            } else if q >= xl + 10 {
                assert forall|t: int| 0 <= t < z.len() && 0 <= t + (xl + 10) < y.len() implies #[trigger] z[t] == y[t + (xl + 10)] by {};
                lemma_shifted_match(z, y, m, q, xl + 10);
                assert(ci_match_at(z, m, q - (xl + 10)));
            } else if q < xl {
                let k0 = xl - q;
                assert(ci_byte_agrees(y, m, q, k0));
                assert(y[q + k0] == ph[0]);
                assert(ascii_lower(m[k0]) != 91);
            } else if q + m.len() > xl + 10 {
                let k0 = xl + 9 - q;
                assert(ci_byte_agrees(y, m, q, k0));
                assert(y[q + k0] == ph[9]);
                assert(ascii_lower(m[k0]) != 93);
            } else {
                assert(ci_byte_agrees(y, m, q, j0));
                assert(y[q + j0] == ph[q + j0 - xl]);
                assert(placeholder_byte(ascii_lower(ph[q + j0 - xl])));
            }
        }
    };
}

/// A window of an occurrence-free buffer is occurrence-free.
pub proof fn lemma_no_occurrence_subrange(s: Seq<u8>, m: Seq<u8>, a: int, b: int)
    requires
        no_occurrence(s, m),
        0 <= a <= b <= s.len(),
    ensures
        no_occurrence(s.subrange(a, b), m),
{
    let t = s.subrange(a, b);
    assert forall|q: int| !#[trigger] ci_match_at(t, m, q) by {
        if ci_match_at(t, m, q) {
            lemma_ci_match_at(t, m, q);
            lemma_ci_match_at(s, m, q + a);
            assert forall|k: int| 0 <= k < m.len() implies #[trigger] ci_byte_agrees(s, m, q + a, k) by {
                assert(ci_byte_agrees(t, m, q, k));
            };
            assert(ci_match_at(s, m, q + a));
        }
    };
}

/// Between `i` and the first occurrence at or after `i` there is none.
proof fn lemma_no_occurrence_before_first(s: Seq<u8>, n: Seq<u8>, i: int, p: int)
    requires
        n.len() > 0,
        0 <= i <= p <= s.len(),
        forall|q: int| i <= q < p ==> !#[trigger] ci_match_at(s, n, q),
    ensures
        no_occurrence(s.subrange(i, p), n),
{
    let t = s.subrange(i, p);
    assert forall|q: int| !#[trigger] ci_match_at(t, n, q) by {
        if ci_match_at(t, n, q) {
            lemma_ci_match_at(t, n, q);
            lemma_ci_match_at(s, n, q + i);
            assert forall|k: int| 0 <= k < n.len() implies #[trigger] ci_byte_agrees(s, n, q + i, k) by {
                assert(ci_byte_agrees(t, n, q, k));
            };
            assert(ci_match_at(s, n, q + i));
        }
    };
}

/// A replacement pass leaves no occurrence of its (placeholder-safe) needle.
pub proof fn lemma_replace_removes(s: Seq<u8>, n: Seq<u8>, i: int)
    requires
        placeholder_safe(n),
        0 <= i <= s.len(),
    ensures
        no_occurrence(replace_ci_from(s, n, i), n),
    decreases s.len() - i,
{
    let p = first_ci_from(s, n, i);
    lemma_first_ci_from(s, n, i);
    lemma_placeholder_bytes();
    if p < 0 {
        assert(n.len() > 0) by {
            let j = lemma_has_foreign_byte(n);
        };
        lemma_no_occurrence_before_first(s, n, i, s.len() as int);
    } else {
        lemma_no_occurrence_before_first(s, n, i, p);
        lemma_replace_removes(s, n, p + n.len());
        lemma_no_occurrence_around_placeholder(
            s.subrange(i, p),
            replace_ci_from(s, n, p + n.len()),
            n,
        );
    }
}

/// A replacement pass creates no occurrence of another placeholder-safe needle.
pub proof fn lemma_replace_preserves_absence(s: Seq<u8>, n: Seq<u8>, m: Seq<u8>, i: int)
    requires
        placeholder_safe(m),
        no_occurrence(s, m),
        0 <= i <= s.len(),
    ensures
        no_occurrence(replace_ci_from(s, n, i), m),
    decreases s.len() - i,
{
    let p = first_ci_from(s, n, i);
    lemma_first_ci_from(s, n, i);
    if p < 0 {
        lemma_no_occurrence_subrange(s, m, i, s.len() as int);
    } else {
        lemma_no_occurrence_subrange(s, m, i, p);
        lemma_replace_preserves_absence(s, n, m, p + n.len());
        lemma_no_occurrence_around_placeholder(
            s.subrange(i, p),
            replace_ci_from(s, n, p + n.len()),
            m,
        );
    }
}

/// Without an occurrence, a replacement pass changes nothing and counts nothing.
pub proof fn lemma_replace_absent(s: Seq<u8>, n: Seq<u8>, i: int)
    requires
        no_occurrence(s, n),
        0 <= i <= s.len(),
    ensures
        replace_ci_from(s, n, i) == s.subrange(i, s.len() as int),
        replace_count_from(s, n, i) == 0,
{
    lemma_first_ci_from(s, n, i);
    if first_ci_from(s, n, i) >= 0 {
        assert(ci_match_at(s, n, first_ci_from(s, n, i)));
    }
}

/// The K_v1 tokens the scrub replaces, in scrub order (case-insensitive):
/// `00:11:22:33:44:55`,
/// `aa:bb:cc:dd:ee:ff`,
/// `12345678-1234-4123-8123-123456789abc`,
/// `IOPlatformSerialNumber`,
/// `model name :`,
/// `serial :`,
/// `RAPL`,
/// `energy_uj`,
/// `rdtsc`,
/// `timing_variance`,
/// `cache_line`,
/// `stride_prefetch`,
pub open spec fn scrub_needles() -> Seq<Seq<u8>> {
    seq![
        seq![48u8, 48, 58, 49, 49, 58, 50, 50, 58, 51, 51, 58, 52, 52, 58, 53, 53],
        seq![97u8, 97, 58, 98, 98, 58, 99, 99, 58, 100, 100, 58, 101, 101, 58, 102, 102],
        seq![49u8, 50, 51, 52, 53, 54, 55, 56, 45, 49, 50, 51, 52, 45, 52, 49, 50, 51, 45, 56, 49, 50, 51, 45, 49, 50, 51, 52, 53, 54, 55, 56, 57, 97, 98, 99],
        seq![73u8, 79, 80, 108, 97, 116, 102, 111, 114, 109, 83, 101, 114, 105, 97, 108, 78, 117, 109, 98, 101, 114],
        seq![109u8, 111, 100, 101, 108, 32, 110, 97, 109, 101, 32, 58],
        seq![115u8, 101, 114, 105, 97, 108, 32, 58],
        seq![82u8, 65, 80, 76],
        seq![101u8, 110, 101, 114, 103, 121, 95, 117, 106],
        seq![114u8, 100, 116, 115, 99],
        seq![116u8, 105, 109, 105, 110, 103, 95, 118, 97, 114, 105, 97, 110, 99, 101],
        seq![99u8, 97, 99, 104, 101, 95, 108, 105, 110, 101],
        seq![115u8, 116, 114, 105, 100, 101, 95, 112, 114, 101, 102, 101, 116, 99, 104],
    ]
}

/// The K_v1 tokens the scrub replaces, in scrub order.
pub fn scrub_needle_list() -> (r: Vec<Vec<u8>>)
    ensures
        r@.len() == 12,
        forall|k: int| 0 <= k < 12 ==> (#[trigger] r@[k])@ == scrub_needles()[k],
{
    let r = vec![
        vec![48u8, 48, 58, 49, 49, 58, 50, 50, 58, 51, 51, 58, 52, 52, 58, 53, 53],
        vec![97u8, 97, 58, 98, 98, 58, 99, 99, 58, 100, 100, 58, 101, 101, 58, 102, 102],
        vec![49u8, 50, 51, 52, 53, 54, 55, 56, 45, 49, 50, 51, 52, 45, 52, 49, 50, 51, 45, 56, 49, 50, 51, 45, 49, 50, 51, 52, 53, 54, 55, 56, 57, 97, 98, 99],
        vec![73u8, 79, 80, 108, 97, 116, 102, 111, 114, 109, 83, 101, 114, 105, 97, 108, 78, 117, 109, 98, 101, 114],
        vec![109u8, 111, 100, 101, 108, 32, 110, 97, 109, 101, 32, 58],
        vec![115u8, 101, 114, 105, 97, 108, 32, 58],
        vec![82u8, 65, 80, 76],
        vec![101u8, 110, 101, 114, 103, 121, 95, 117, 106],
        vec![114u8, 100, 116, 115, 99],
        vec![116u8, 105, 109, 105, 110, 103, 95, 118, 97, 114, 105, 97, 110, 99, 101],
        vec![99u8, 97, 99, 104, 101, 95, 108, 105, 110, 101],
        vec![115u8, 116, 114, 105, 100, 101, 95, 112, 114, 101, 102, 101, 116, 99, 104],
    ];
    proof {
        assert(r@[0]@ =~= scrub_needles()[0]);
        assert(r@[1]@ =~= scrub_needles()[1]);
        assert(r@[2]@ =~= scrub_needles()[2]);
        assert(r@[3]@ =~= scrub_needles()[3]);
        assert(r@[4]@ =~= scrub_needles()[4]);
        assert(r@[5]@ =~= scrub_needles()[5]);
        assert(r@[6]@ =~= scrub_needles()[6]);
        assert(r@[7]@ =~= scrub_needles()[7]);
        assert(r@[8]@ =~= scrub_needles()[8]);
        assert(r@[9]@ =~= scrub_needles()[9]);
        assert(r@[10]@ =~= scrub_needles()[10]);
        assert(r@[11]@ =~= scrub_needles()[11]);
    }
    r
}

#[verifier::rlimit(40)]
proof fn lemma_scrub_needle_safe_0()
    ensures
        placeholder_safe(scrub_needles()[0]),
{
    reveal_with_fuel(bracket_free, 40);
    reveal_with_fuel(has_foreign_byte, 6);
}

#[verifier::rlimit(40)]
proof fn lemma_scrub_needle_safe_1()
    ensures
        placeholder_safe(scrub_needles()[1]),
{
    reveal_with_fuel(bracket_free, 40);
    reveal_with_fuel(has_foreign_byte, 6);
}

#[verifier::rlimit(40)]
proof fn lemma_scrub_needle_safe_2()
    ensures
        placeholder_safe(scrub_needles()[2]),
{
    reveal_with_fuel(bracket_free, 40);
    reveal_with_fuel(has_foreign_byte, 6);
}

#[verifier::rlimit(40)]
proof fn lemma_scrub_needle_safe_3()
    ensures
        placeholder_safe(scrub_needles()[3]),
{
    reveal_with_fuel(bracket_free, 40);
    reveal_with_fuel(has_foreign_byte, 6);
}

#[verifier::rlimit(40)]
proof fn lemma_scrub_needle_safe_4()
    ensures
        placeholder_safe(scrub_needles()[4]),
{
    reveal_with_fuel(bracket_free, 40);
    reveal_with_fuel(has_foreign_byte, 6);
}

#[verifier::rlimit(40)]
proof fn lemma_scrub_needle_safe_5()
    ensures
        placeholder_safe(scrub_needles()[5]),
{
    reveal_with_fuel(bracket_free, 40);
    reveal_with_fuel(has_foreign_byte, 6);
}

#[verifier::rlimit(40)]
proof fn lemma_scrub_needle_safe_6()
    ensures
        placeholder_safe(scrub_needles()[6]),
{
    reveal_with_fuel(bracket_free, 40);
    reveal_with_fuel(has_foreign_byte, 6);
}

#[verifier::rlimit(40)]
proof fn lemma_scrub_needle_safe_7()
    ensures
        placeholder_safe(scrub_needles()[7]),
{
    reveal_with_fuel(bracket_free, 40);
    reveal_with_fuel(has_foreign_byte, 6);
}

#[verifier::rlimit(40)]
proof fn lemma_scrub_needle_safe_8()
    ensures
        placeholder_safe(scrub_needles()[8]),
{
    reveal_with_fuel(bracket_free, 40);
    reveal_with_fuel(has_foreign_byte, 6);
}

#[verifier::rlimit(40)]
proof fn lemma_scrub_needle_safe_9()
    ensures
        placeholder_safe(scrub_needles()[9]),
{
    reveal_with_fuel(bracket_free, 40);
    reveal_with_fuel(has_foreign_byte, 6);
}

#[verifier::rlimit(40)]
proof fn lemma_scrub_needle_safe_10()
    ensures
        placeholder_safe(scrub_needles()[10]),
{
    reveal_with_fuel(bracket_free, 40);
    reveal_with_fuel(has_foreign_byte, 6);
}

#[verifier::rlimit(40)]
proof fn lemma_scrub_needle_safe_11()
    ensures
        placeholder_safe(scrub_needles()[11]),
{
    reveal_with_fuel(bracket_free, 40);
    reveal_with_fuel(has_foreign_byte, 6);
}

/// Every scrub token is placeholder-safe.
pub proof fn lemma_scrub_needles_safe()
    ensures
        forall|k: int| 0 <= k < 12 ==> placeholder_safe(#[trigger] scrub_needles()[k]),
{
    lemma_scrub_needle_safe_0();
    lemma_scrub_needle_safe_1();
    lemma_scrub_needle_safe_2();
    lemma_scrub_needle_safe_3();
    lemma_scrub_needle_safe_4();
    lemma_scrub_needle_safe_5();
    lemma_scrub_needle_safe_6();
    lemma_scrub_needle_safe_7();
    lemma_scrub_needle_safe_8();
    lemma_scrub_needle_safe_9();
    lemma_scrub_needle_safe_10();
    lemma_scrub_needle_safe_11();
}

/// The buffer after the first `k` scrub passes.
pub open spec fn scrub_through(s: Seq<u8>, k: int) -> Seq<u8>
    decreases k,
{
    if k <= 0 {
        s
    } else {
        replace_ci_from(scrub_through(s, k - 1), scrub_needles()[k - 1], 0)
    }
}

/// Replacements made by the first `k` scrub passes.
pub open spec fn scrub_count_through(s: Seq<u8>, k: int) -> nat
    decreases k,
{
    if k <= 0 {
        0
    } else {
        scrub_count_through(s, k - 1) + replace_count_from(
            scrub_through(s, k - 1),
            scrub_needles()[k - 1],
            0,
        )
    }
}

/// The scrubbed buffer: all twelve passes.
pub open spec fn scrub_spec(s: Seq<u8>) -> Seq<u8> {
    scrub_through(s, 12)
}

/// The number of replacements all twelve passes make.
pub open spec fn scrub_count_spec(s: Seq<u8>) -> nat {
    scrub_count_through(s, 12)
}

/// After `k` passes none of the first `k` tokens occurs.
pub proof fn lemma_scrub_through_clean(s: Seq<u8>, k: int)
    requires
        0 <= k <= 12,
    ensures
        forall|j: int| 0 <= j < k ==> no_occurrence(scrub_through(s, k), #[trigger] scrub_needles()[j]),
    decreases k,
{
    lemma_scrub_needles_safe();
    if k > 0 {
        lemma_scrub_through_clean(s, k - 1);
        let b = scrub_through(s, k - 1);
        let n = scrub_needles()[k - 1];
        assert(placeholder_safe(n));
        lemma_replace_removes(b, n, 0);
        assert forall|j: int| 0 <= j < k implies no_occurrence(scrub_through(s, k), #[trigger] scrub_needles()[j]) by {
            if j < k - 1 {
                assert(placeholder_safe(scrub_needles()[j]));
                lemma_replace_preserves_absence(b, n, scrub_needles()[j], 0);
            }
        };
    }
}

/// Law: a scrubbed buffer holds no K_v1 token, for every input.
pub proof fn lemma_scrub_leaves_no_token(s: Seq<u8>)
    ensures
        forall|j: int| 0 <= j < 12 ==> no_occurrence(scrub_spec(s), #[trigger] scrub_needles()[j]),
{
    lemma_scrub_through_clean(s, 12);
}

/// Scrubbing a buffer that holds no K_v1 token changes nothing, through any number of passes.
proof fn lemma_scrub_through_clean_input(s: Seq<u8>, k: int)
    requires
        0 <= k <= 12,
        forall|j: int| 0 <= j < 12 ==> no_occurrence(s, #[trigger] scrub_needles()[j]),
    ensures
        scrub_through(s, k) == s,
        scrub_count_through(s, k) == 0,
    decreases k,
{
    if k > 0 {
        lemma_scrub_through_clean_input(s, k - 1);
        assert(no_occurrence(s, scrub_needles()[k - 1]));
        lemma_replace_absent(s, scrub_needles()[k - 1], 0);
        assert(s.subrange(0, s.len() as int) =~= s);
    }
}

/// Law: scrubbing is idempotent — a scrubbed buffer scrubs to itself with no replacement.
pub proof fn lemma_scrub_idempotent(s: Seq<u8>)
    ensures
        scrub_spec(scrub_spec(s)) == scrub_spec(s),
        scrub_count_spec(scrub_spec(s)) == 0,
{
    lemma_scrub_leaves_no_token(s);
    lemma_scrub_through_clean_input(scrub_spec(s), 12);
}

// ---------------------------------------------------------------------------
// K_v1 pattern classes and the cold-edge scan
// ---------------------------------------------------------------------------

/// K_v1 pattern class of a detected token.
#[derive(Debug, Clone, Copy, PartialEq, Eq, Structural)]
pub enum Kv1PatternClass {
    MacAddress,
    GpuUuidV4,
    IoPlatformSerial,
    KernelLeaf,
    CpuinfoSerial,
    RaplCorrelatedBytes,
    TimingLeakFingerprint,
    MemoryAccessFingerprint,
}

/// The pattern id of each class, in `K_V1_PATTERNS` order.
pub open spec fn class_pattern_id(c: Kv1PatternClass) -> Seq<char> {
    match c {
        Kv1PatternClass::MacAddress => "mac-address"@,
        Kv1PatternClass::GpuUuidV4 => "gpu-uuid-v4"@,
        Kv1PatternClass::IoPlatformSerial => "ioplatform-serial"@,
        Kv1PatternClass::KernelLeaf => "kernel-leaf"@,
        Kv1PatternClass::CpuinfoSerial => "cpuinfo-serial"@,
        Kv1PatternClass::RaplCorrelatedBytes => "rapl-correlated-bytes"@,
        Kv1PatternClass::TimingLeakFingerprint => "timing-leak-fingerprint"@,
        Kv1PatternClass::MemoryAccessFingerprint => "memory-access-fingerprint"@,
    }
}

/// The position of each class in `K_V1_PATTERNS`.
pub open spec fn class_index(c: Kv1PatternClass) -> int {
    match c {
        Kv1PatternClass::MacAddress => 0,
        Kv1PatternClass::GpuUuidV4 => 1,
        Kv1PatternClass::IoPlatformSerial => 2,
        Kv1PatternClass::KernelLeaf => 3,
        Kv1PatternClass::CpuinfoSerial => 4,
        Kv1PatternClass::RaplCorrelatedBytes => 5,
        Kv1PatternClass::TimingLeakFingerprint => 6,
        Kv1PatternClass::MemoryAccessFingerprint => 7,
    }
}

impl Kv1PatternClass {
    /// K_v1 pattern identifier of this class.
    pub fn pattern_id(self) -> (r: &'static str)
        ensures
            r@ == class_pattern_id(self),
    {
        match self {
            Kv1PatternClass::MacAddress => "mac-address",
            Kv1PatternClass::GpuUuidV4 => "gpu-uuid-v4",
            Kv1PatternClass::IoPlatformSerial => "ioplatform-serial",
            Kv1PatternClass::KernelLeaf => "kernel-leaf",
            Kv1PatternClass::CpuinfoSerial => "cpuinfo-serial",
            Kv1PatternClass::RaplCorrelatedBytes => "rapl-correlated-bytes",
            Kv1PatternClass::TimingLeakFingerprint => "timing-leak-fingerprint",
            Kv1PatternClass::MemoryAccessFingerprint => "memory-access-fingerprint",
        }
    }

    /// Position of this class in `K_V1_PATTERNS`.
    pub fn index(self) -> (r: usize)
        ensures
            r == class_index(self),
    {
        match self {
            Kv1PatternClass::MacAddress => 0,
            Kv1PatternClass::GpuUuidV4 => 1,
            Kv1PatternClass::IoPlatformSerial => 2,
            Kv1PatternClass::KernelLeaf => 3,
            Kv1PatternClass::CpuinfoSerial => 4,
            Kv1PatternClass::RaplCorrelatedBytes => 5,
            Kv1PatternClass::TimingLeakFingerprint => 6,
            Kv1PatternClass::MemoryAccessFingerprint => 7,
        }
    }
}

/// The class each scrub token belongs to.
pub open spec fn needle_class(k: int) -> Kv1PatternClass {
    if k == 0 {
        Kv1PatternClass::MacAddress
    } else if k == 1 {
        Kv1PatternClass::MacAddress
    } else if k == 2 {
        Kv1PatternClass::GpuUuidV4
    } else if k == 3 {
        Kv1PatternClass::IoPlatformSerial
    } else if k == 4 {
        Kv1PatternClass::KernelLeaf
    } else if k == 5 {
        Kv1PatternClass::CpuinfoSerial
    } else if k == 6 {
        Kv1PatternClass::RaplCorrelatedBytes
    } else if k == 7 {
        Kv1PatternClass::RaplCorrelatedBytes
    } else if k == 8 {
        Kv1PatternClass::TimingLeakFingerprint
    } else if k == 9 {
        Kv1PatternClass::TimingLeakFingerprint
    } else if k == 10 {
        Kv1PatternClass::MemoryAccessFingerprint
    } else if k == 11 {
        Kv1PatternClass::MemoryAccessFingerprint
    } else {
        Kv1PatternClass::MemoryAccessFingerprint
    }
}

fn needle_class_exec(k: usize) -> (r: Kv1PatternClass)
    ensures
        r == needle_class(k as int),
{
    if k == 0 {
        Kv1PatternClass::MacAddress
    } else if k == 1 {
        Kv1PatternClass::MacAddress
    } else if k == 2 {
        Kv1PatternClass::GpuUuidV4
    } else if k == 3 {
        Kv1PatternClass::IoPlatformSerial
    } else if k == 4 {
        Kv1PatternClass::KernelLeaf
    } else if k == 5 {
        Kv1PatternClass::CpuinfoSerial
    } else if k == 6 {
        Kv1PatternClass::RaplCorrelatedBytes
    } else if k == 7 {
        Kv1PatternClass::RaplCorrelatedBytes
    } else if k == 8 {
        Kv1PatternClass::TimingLeakFingerprint
    } else if k == 9 {
        Kv1PatternClass::TimingLeakFingerprint
    } else if k == 10 {
        Kv1PatternClass::MemoryAccessFingerprint
    } else if k == 11 {
        Kv1PatternClass::MemoryAccessFingerprint
    } else {
        Kv1PatternClass::MemoryAccessFingerprint
    }
}

/// Classes detected by the first `k` tokens, in token order, each once.
pub open spec fn classes_through(b: Seq<u8>, k: int) -> Seq<Kv1PatternClass>
    decreases k,
{
    if k <= 0 {
        Seq::empty()
    } else {
        let prev = classes_through(b, k - 1);
        if ci_contains(b, scrub_needles()[k - 1]) && !prev.contains(needle_class(k - 1)) {
            prev.push(needle_class(k - 1))
        } else {
            prev
        }
    }
}

/// K_v1 pattern classes present in a buffer, in token order, each once.
pub open spec fn classes_spec(b: Seq<u8>) -> Seq<Kv1PatternClass> {
    classes_through(b, 12)
}

fn class_listed(hits: &Vec<Kv1PatternClass>, c: Kv1PatternClass) -> (r: bool)
    ensures
        r == hits@.contains(c),
{
    let mut i: usize = 0;
    while i < hits.len()
        invariant
            i <= hits.len(),
            forall|j: int| 0 <= j < i ==> hits@[j] != c,
        decreases hits.len() - i,
    {
        if hits[i] == c {
            return true;
        }
        i = i + 1;
    }
    false
}

/// K_v1 pattern classes present in `bytes` (cold-edge scan).
pub fn manifold_pattern_classes_in_bytes(bytes: &Vec<u8>) -> (r: Vec<Kv1PatternClass>)
    ensures
        r@ == classes_spec(bytes@),
{
    let needles = scrub_needle_list();
    let mut hits: Vec<Kv1PatternClass> = Vec::new();
    let mut k: usize = 0;
    while k < needles.len()
        invariant
            needles@.len() == 12,
            forall|j: int| 0 <= j < 12 ==> (#[trigger] needles@[j])@ == scrub_needles()[j],
            k <= 12,
            hits@ == classes_through(bytes@, k as int),
        decreases 12 - k,
    {
        let c = needle_class_exec(k);
        if haystack_contains_ci(bytes, &needles[k]) && !class_listed(&hits, c) {
            hits.push(c);
        }
        k = k + 1;
    }
    hits
}

/// Whether any K_v1 pattern class is present in `bytes`.
pub fn scan_k_v1_pattern_classes(bytes: &Vec<u8>) -> (r: bool)
    ensures
        r == (classes_spec(bytes@).len() > 0),
{
    manifold_pattern_classes_in_bytes(bytes).len() > 0
}

/// A class is listed once the first `k` tokens detected it; nothing is listed twice.
pub proof fn lemma_classes_through(b: Seq<u8>, k: int)
    requires
        0 <= k <= 12,
    ensures
        classes_through(b, k).no_duplicates(),
        (exists|j: int| 0 <= j < k && ci_contains(b, #[trigger] scrub_needles()[j]))
            <==> classes_through(b, k).len() > 0,
    decreases k,
{
    if k > 0 {
        lemma_classes_through(b, k - 1);
        if ci_contains(b, scrub_needles()[k - 1]) {
            assert(exists|j: int| 0 <= j < k && ci_contains(b, #[trigger] scrub_needles()[j]));
        }
        if exists|j: int| 0 <= j < k - 1 && ci_contains(b, #[trigger] scrub_needles()[j]) {
            let j = choose|j: int| 0 <= j < k - 1 && ci_contains(b, #[trigger] scrub_needles()[j]);
            assert(0 <= j < k && ci_contains(b, scrub_needles()[j]));
        }
        if exists|j: int| 0 <= j < k && ci_contains(b, #[trigger] scrub_needles()[j]) {
            let j = choose|j: int| 0 <= j < k && ci_contains(b, #[trigger] scrub_needles()[j]);
            if j < k - 1 {
                assert(exists|j: int| 0 <= j < k - 1 && ci_contains(b, #[trigger] scrub_needles()[j]));
            }
        }
    }
}

/// Law: scanning a scrubbed buffer detects no K_v1 class, for every input.
pub proof fn lemma_scrub_then_scan_is_clean(s: Seq<u8>)
    ensures
        classes_spec(scrub_spec(s)).len() == 0,
{
    lemma_scrub_leaves_no_token(s);
    lemma_scrub_needles_safe();
    lemma_classes_through(scrub_spec(s), 12);
    assert forall|j: int| 0 <= j < 12 implies !ci_contains(scrub_spec(s), #[trigger] scrub_needles()[j]) by {
        assert(placeholder_safe(scrub_needles()[j]));
        let jj = lemma_has_foreign_byte(scrub_needles()[j]);
        lemma_ci_contains(scrub_spec(s), scrub_needles()[j]);
    };
}

/// While the passes make no replacement, the buffer stays the input and no token met so far
/// occurs in it.
proof fn lemma_scrub_through_zero(s: Seq<u8>, k: int)
    requires
        0 <= k <= 12,
        scrub_count_through(s, k) == 0,
    ensures
        scrub_through(s, k) == s,
        forall|j: int| 0 <= j < k ==> !ci_contains(s, #[trigger] scrub_needles()[j]),
    decreases k,
{
    if k > 0 {
        lemma_scrub_through_zero(s, k - 1);
        let n = scrub_needles()[k - 1];
        lemma_first_ci_from(s, n, 0);
        assert(first_ci_from(s, n, 0) < 0);
        assert(s.subrange(0, s.len() as int) =~= s);
    }
}

/// Law: the scrub makes no replacement exactly when no K_v1 class is detected in its input,
/// and then it returns the input unchanged.
pub proof fn lemma_scrub_zero_exactly_when_clean(s: Seq<u8>)
    ensures
        scrub_count_spec(s) == 0 <==> classes_spec(s).len() == 0,
        scrub_count_spec(s) == 0 ==> scrub_spec(s) == s,
{
    lemma_classes_through(s, 12);
    lemma_scrub_needles_safe();
    if scrub_count_spec(s) == 0 {
        lemma_scrub_through_zero(s, 12);
    }
    if classes_spec(s).len() == 0 {
        assert forall|j: int| 0 <= j < 12 implies no_occurrence(s, #[trigger] scrub_needles()[j]) by {
            assert(!ci_contains(s, scrub_needles()[j]));
            assert(placeholder_safe(scrub_needles()[j]));
            let jj = lemma_has_foreign_byte(scrub_needles()[j]);
            lemma_ci_contains(s, scrub_needles()[j]);
        };
        lemma_scrub_through_clean_input(s, 12);
    }
}

// ---------------------------------------------------------------------------
// The scrub itself
// ---------------------------------------------------------------------------

/// Scrub detected K_v1 tokens from bytes (manifold cold-edge witness): every token, in
/// scrub order, is replaced left to right by `[SCRUBBED]`; returns the scrubbed buffer and
/// the number of replacements (saturating at `usize::MAX`).
pub fn manifold_scrub_k_v1_tokens(bytes: &[u8]) -> (r: (Vec<u8>, usize))
    ensures
        r.0@ == scrub_spec(bytes@),
        r.1 as nat == if scrub_count_spec(bytes@) <= usize::MAX {
            scrub_count_spec(bytes@)
        } else {
            usize::MAX as nat
        },
{
    let needles = scrub_needle_list();
    let mut buf: Vec<u8> = Vec::new();
    let mut i: usize = 0;
    while i < bytes.len()
        invariant
            i <= bytes.len(),
            buf@ == bytes@.subrange(0, i as int),
        decreases bytes.len() - i,
    {
        buf.push(bytes[i]);
        i = i + 1;
        assert(buf@ =~= bytes@.subrange(0, i as int));
    }
    assert(buf@ =~= bytes@);
    let mut total: usize = 0;
    let mut k: usize = 0;
    while k < needles.len()
        invariant
            needles@.len() == 12,
            forall|j: int| 0 <= j < 12 ==> (#[trigger] needles@[j])@ == scrub_needles()[j],
            k <= 12,
            buf@ == scrub_through(bytes@, k as int),
            total as nat == if scrub_count_through(bytes@, k as int) <= usize::MAX {
                scrub_count_through(bytes@, k as int)
            } else {
                usize::MAX as nat
            },
        decreases 12 - k,
    {
        let (next, c) = replace_all_ci(&buf, &needles[k]);
        if total > usize::MAX - c {
            total = usize::MAX;
        } else {
            total = total + c;
        }
        buf = next;
        k = k + 1;
    }
    (buf, total)
}

/// GMD-7 + S-4 extension pattern identifiers (K_v1 set).
pub open spec fn k_v1_patterns_spec() -> Seq<&'static str> {
    seq![
        "mac-address",
        "gpu-uuid-v4",
        "ioplatform-serial",
        "kernel-leaf",
        "cpuinfo-serial",
        "rapl-correlated-bytes",
        "timing-leak-fingerprint",
        "memory-access-fingerprint",
    ]
}

/// GMD-7 + S-4 extension pattern identifiers (K_v1 set).
pub fn k_v1_patterns() -> (r: Vec<&'static str>)
    ensures
        r@ == k_v1_patterns_spec(),
{
    let r = vec![
        "mac-address",
        "gpu-uuid-v4",
        "ioplatform-serial",
        "kernel-leaf",
        "cpuinfo-serial",
        "rapl-correlated-bytes",
        "timing-leak-fingerprint",
        "memory-access-fingerprint",
    ];
    assert(r@ =~= k_v1_patterns_spec());
    r
}

/// The pattern ids, as text, match the classes in order.
pub proof fn lemma_pattern_ids()
    ensures
        k_v1_patterns_spec()[0]@ == class_pattern_id(Kv1PatternClass::MacAddress),
        k_v1_patterns_spec()[1]@ == class_pattern_id(Kv1PatternClass::GpuUuidV4),
        k_v1_patterns_spec()[2]@ == class_pattern_id(Kv1PatternClass::IoPlatformSerial),
        k_v1_patterns_spec()[3]@ == class_pattern_id(Kv1PatternClass::KernelLeaf),
        k_v1_patterns_spec()[4]@ == class_pattern_id(Kv1PatternClass::CpuinfoSerial),
        k_v1_patterns_spec()[5]@ == class_pattern_id(Kv1PatternClass::RaplCorrelatedBytes),
        k_v1_patterns_spec()[6]@ == class_pattern_id(Kv1PatternClass::TimingLeakFingerprint),
        k_v1_patterns_spec()[7]@ == class_pattern_id(Kv1PatternClass::MemoryAccessFingerprint),
{
}

/// Synthetic probe bytes for a K_v1 pattern id (empty for an unknown id).
pub open spec fn synthetic_probe_spec(pattern_id: Seq<char>) -> Seq<u8> {
    if pattern_id == "mac-address"@ {
        // aa:bb:cc:dd:ee:ff
        seq![97u8, 97, 58, 98, 98, 58, 99, 99, 58, 100, 100, 58, 101, 101, 58, 102, 102]
    } else if pattern_id == "gpu-uuid-v4"@ {
        // 12345678-1234-4123-8123-123456789abc
        seq![49u8, 50, 51, 52, 53, 54, 55, 56, 45, 49, 50, 51, 52, 45, 52, 49, 50, 51, 45, 56, 49, 50, 51, 45, 49, 50, 51, 52, 53, 54, 55, 56, 57, 97, 98, 99]
    } else if pattern_id == "ioplatform-serial"@ {
        // IOPlatformSerialNumber X
        seq![73u8, 79, 80, 108, 97, 116, 102, 111, 114, 109, 83, 101, 114, 105, 97, 108, 78, 117, 109, 98, 101, 114, 32, 88]
    } else if pattern_id == "kernel-leaf"@ {
        // model name : umst-manifold-kernel-leaf-probe
        seq![109u8, 111, 100, 101, 108, 32, 110, 97, 109, 101, 32, 58, 32, 117, 109, 115, 116, 45, 109, 97, 110, 105, 102, 111, 108, 100, 45, 107, 101, 114, 110, 101, 108, 45, 108, 101, 97, 102, 45, 112, 114, 111, 98, 101]
    } else if pattern_id == "cpuinfo-serial"@ {
        // serial : 0123456789abcdef
        seq![115u8, 101, 114, 105, 97, 108, 32, 58, 32, 48, 49, 50, 51, 52, 53, 54, 55, 56, 57, 97, 98, 99, 100, 101, 102]
    } else if pattern_id == "rapl-correlated-bytes"@ {
        // RAPL energy_uj spike
        seq![82u8, 65, 80, 76, 32, 101, 110, 101, 114, 103, 121, 95, 117, 106, 32, 115, 112, 105, 107, 101]
    } else if pattern_id == "timing-leak-fingerprint"@ {
        // rdtsc timing_variance probe
        seq![114u8, 100, 116, 115, 99, 32, 116, 105, 109, 105, 110, 103, 95, 118, 97, 114, 105, 97, 110, 99, 101, 32, 112, 114, 111, 98, 101]
    } else if pattern_id == "memory-access-fingerprint"@ {
        // cache_line stride_prefetch
        seq![99u8, 97, 99, 104, 101, 95, 108, 105, 110, 101, 32, 115, 116, 114, 105, 100, 101, 95, 112, 114, 101, 102, 101, 116, 99, 104]
    } else {
        Seq::empty()
    }
}

/// Synthetic probe bytes for a K_v1 pattern id (empty for an unknown id).
pub fn synthetic_probe_bytes(pattern_id: &str) -> (r: Vec<u8>)
    ensures
        r@ == synthetic_probe_spec(pattern_id@),
{
    if str_eq(pattern_id, "mac-address") {
        // aa:bb:cc:dd:ee:ff
        let r = vec![97u8, 97, 58, 98, 98, 58, 99, 99, 58, 100, 100, 58, 101, 101, 58, 102, 102];
        assert(r@ =~= synthetic_probe_spec(pattern_id@));
        r
    } else if str_eq(pattern_id, "gpu-uuid-v4") {
        // 12345678-1234-4123-8123-123456789abc
        let r = vec![49u8, 50, 51, 52, 53, 54, 55, 56, 45, 49, 50, 51, 52, 45, 52, 49, 50, 51, 45, 56, 49, 50, 51, 45, 49, 50, 51, 52, 53, 54, 55, 56, 57, 97, 98, 99];
        assert(r@ =~= synthetic_probe_spec(pattern_id@));
        r
    } else if str_eq(pattern_id, "ioplatform-serial") {
        // IOPlatformSerialNumber X
        let r = vec![73u8, 79, 80, 108, 97, 116, 102, 111, 114, 109, 83, 101, 114, 105, 97, 108, 78, 117, 109, 98, 101, 114, 32, 88];
        assert(r@ =~= synthetic_probe_spec(pattern_id@));
        r
    } else if str_eq(pattern_id, "kernel-leaf") {
        // model name : umst-manifold-kernel-leaf-probe
        let r = vec![109u8, 111, 100, 101, 108, 32, 110, 97, 109, 101, 32, 58, 32, 117, 109, 115, 116, 45, 109, 97, 110, 105, 102, 111, 108, 100, 45, 107, 101, 114, 110, 101, 108, 45, 108, 101, 97, 102, 45, 112, 114, 111, 98, 101];
        assert(r@ =~= synthetic_probe_spec(pattern_id@));
        r
    } else if str_eq(pattern_id, "cpuinfo-serial") {
        // serial : 0123456789abcdef
        let r = vec![115u8, 101, 114, 105, 97, 108, 32, 58, 32, 48, 49, 50, 51, 52, 53, 54, 55, 56, 57, 97, 98, 99, 100, 101, 102];
        assert(r@ =~= synthetic_probe_spec(pattern_id@));
        r
    } else if str_eq(pattern_id, "rapl-correlated-bytes") {
        // RAPL energy_uj spike
        let r = vec![82u8, 65, 80, 76, 32, 101, 110, 101, 114, 103, 121, 95, 117, 106, 32, 115, 112, 105, 107, 101];
        assert(r@ =~= synthetic_probe_spec(pattern_id@));
        r
    } else if str_eq(pattern_id, "timing-leak-fingerprint") {
        // rdtsc timing_variance probe
        let r = vec![114u8, 100, 116, 115, 99, 32, 116, 105, 109, 105, 110, 103, 95, 118, 97, 114, 105, 97, 110, 99, 101, 32, 112, 114, 111, 98, 101];
        assert(r@ =~= synthetic_probe_spec(pattern_id@));
        r
    } else if str_eq(pattern_id, "memory-access-fingerprint") {
        // cache_line stride_prefetch
        let r = vec![99u8, 97, 99, 104, 101, 95, 108, 105, 110, 101, 32, 115, 116, 114, 105, 100, 101, 95, 112, 114, 101, 102, 101, 116, 99, 104];
        assert(r@ =~= synthetic_probe_spec(pattern_id@));
        r
    } else {
        Vec::new()
    }
}

#[verifier::rlimit(40)]
proof fn lemma_synthetic_hits_0()
    ensures
        ci_match_at(synthetic_probe_spec("mac-address"@), scrub_needles()[1], 0),
{
    reveal_with_fuel(ci_match_from, 40);
    reveal_strlit("mac-address");
    reveal_strlit("gpu-uuid-v4");
    reveal_strlit("ioplatform-serial");
    reveal_strlit("kernel-leaf");
    reveal_strlit("cpuinfo-serial");
    reveal_strlit("rapl-correlated-bytes");
    reveal_strlit("timing-leak-fingerprint");
    reveal_strlit("memory-access-fingerprint");
}

#[verifier::rlimit(40)]
proof fn lemma_synthetic_hits_1()
    ensures
        ci_match_at(synthetic_probe_spec("gpu-uuid-v4"@), scrub_needles()[2], 0),
{
    reveal_with_fuel(ci_match_from, 40);
    reveal_strlit("mac-address");
    reveal_strlit("gpu-uuid-v4");
    reveal_strlit("ioplatform-serial");
    reveal_strlit("kernel-leaf");
    reveal_strlit("cpuinfo-serial");
    reveal_strlit("rapl-correlated-bytes");
    reveal_strlit("timing-leak-fingerprint");
    reveal_strlit("memory-access-fingerprint");
    assert("gpu-uuid-v4"@[0] != "mac-address"@[0]);
}

#[verifier::rlimit(40)]
proof fn lemma_synthetic_hits_2()
    ensures
        ci_match_at(synthetic_probe_spec("ioplatform-serial"@), scrub_needles()[3], 0),
{
    reveal_with_fuel(ci_match_from, 40);
    reveal_strlit("mac-address");
    reveal_strlit("gpu-uuid-v4");
    reveal_strlit("ioplatform-serial");
    reveal_strlit("kernel-leaf");
    reveal_strlit("cpuinfo-serial");
    reveal_strlit("rapl-correlated-bytes");
    reveal_strlit("timing-leak-fingerprint");
    reveal_strlit("memory-access-fingerprint");
    assert("ioplatform-serial"@[0] != "mac-address"@[0]);
    assert("ioplatform-serial"@[0] != "gpu-uuid-v4"@[0]);
}

#[verifier::rlimit(40)]
proof fn lemma_synthetic_hits_3()
    ensures
        ci_match_at(synthetic_probe_spec("kernel-leaf"@), scrub_needles()[4], 0),
{
    reveal_with_fuel(ci_match_from, 40);
    reveal_strlit("mac-address");
    reveal_strlit("gpu-uuid-v4");
    reveal_strlit("ioplatform-serial");
    reveal_strlit("kernel-leaf");
    reveal_strlit("cpuinfo-serial");
    reveal_strlit("rapl-correlated-bytes");
    reveal_strlit("timing-leak-fingerprint");
    reveal_strlit("memory-access-fingerprint");
    assert("kernel-leaf"@[0] != "mac-address"@[0]);
    assert("kernel-leaf"@[0] != "gpu-uuid-v4"@[0]);
    assert("kernel-leaf"@[0] != "ioplatform-serial"@[0]);
}

#[verifier::rlimit(40)]
proof fn lemma_synthetic_hits_4()
    ensures
        ci_match_at(synthetic_probe_spec("cpuinfo-serial"@), scrub_needles()[5], 0),
{
    reveal_with_fuel(ci_match_from, 40);
    reveal_strlit("mac-address");
    reveal_strlit("gpu-uuid-v4");
    reveal_strlit("ioplatform-serial");
    reveal_strlit("kernel-leaf");
    reveal_strlit("cpuinfo-serial");
    reveal_strlit("rapl-correlated-bytes");
    reveal_strlit("timing-leak-fingerprint");
    reveal_strlit("memory-access-fingerprint");
    assert("cpuinfo-serial"@[0] != "mac-address"@[0]);
    assert("cpuinfo-serial"@[0] != "gpu-uuid-v4"@[0]);
    assert("cpuinfo-serial"@[0] != "ioplatform-serial"@[0]);
    assert("cpuinfo-serial"@[0] != "kernel-leaf"@[0]);
}

#[verifier::rlimit(40)]
proof fn lemma_synthetic_hits_5()
    ensures
        ci_match_at(synthetic_probe_spec("rapl-correlated-bytes"@), scrub_needles()[6], 0),
{
    reveal_with_fuel(ci_match_from, 40);
    reveal_strlit("mac-address");
    reveal_strlit("gpu-uuid-v4");
    reveal_strlit("ioplatform-serial");
    reveal_strlit("kernel-leaf");
    reveal_strlit("cpuinfo-serial");
    reveal_strlit("rapl-correlated-bytes");
    reveal_strlit("timing-leak-fingerprint");
    reveal_strlit("memory-access-fingerprint");
    assert("rapl-correlated-bytes"@[0] != "mac-address"@[0]);
    assert("rapl-correlated-bytes"@[0] != "gpu-uuid-v4"@[0]);
    assert("rapl-correlated-bytes"@[0] != "ioplatform-serial"@[0]);
    assert("rapl-correlated-bytes"@[0] != "kernel-leaf"@[0]);
    assert("rapl-correlated-bytes"@[0] != "cpuinfo-serial"@[0]);
}

#[verifier::rlimit(40)]
proof fn lemma_synthetic_hits_6()
    ensures
        ci_match_at(synthetic_probe_spec("timing-leak-fingerprint"@), scrub_needles()[8], 0),
{
    reveal_with_fuel(ci_match_from, 40);
    reveal_strlit("mac-address");
    reveal_strlit("gpu-uuid-v4");
    reveal_strlit("ioplatform-serial");
    reveal_strlit("kernel-leaf");
    reveal_strlit("cpuinfo-serial");
    reveal_strlit("rapl-correlated-bytes");
    reveal_strlit("timing-leak-fingerprint");
    reveal_strlit("memory-access-fingerprint");
    assert("timing-leak-fingerprint"@[0] != "mac-address"@[0]);
    assert("timing-leak-fingerprint"@[0] != "gpu-uuid-v4"@[0]);
    assert("timing-leak-fingerprint"@[0] != "ioplatform-serial"@[0]);
    assert("timing-leak-fingerprint"@[0] != "kernel-leaf"@[0]);
    assert("timing-leak-fingerprint"@[0] != "cpuinfo-serial"@[0]);
    assert("timing-leak-fingerprint"@[0] != "rapl-correlated-bytes"@[0]);
}

#[verifier::rlimit(40)]
proof fn lemma_synthetic_hits_7()
    ensures
        ci_match_at(synthetic_probe_spec("memory-access-fingerprint"@), scrub_needles()[10], 0),
{
    reveal_with_fuel(ci_match_from, 40);
    reveal_strlit("mac-address");
    reveal_strlit("gpu-uuid-v4");
    reveal_strlit("ioplatform-serial");
    reveal_strlit("kernel-leaf");
    reveal_strlit("cpuinfo-serial");
    reveal_strlit("rapl-correlated-bytes");
    reveal_strlit("timing-leak-fingerprint");
    reveal_strlit("memory-access-fingerprint");
    assert("memory-access-fingerprint"@.len() != "mac-address"@.len());
    assert("memory-access-fingerprint"@[0] != "gpu-uuid-v4"@[0]);
    assert("memory-access-fingerprint"@[0] != "ioplatform-serial"@[0]);
    assert("memory-access-fingerprint"@[0] != "kernel-leaf"@[0]);
    assert("memory-access-fingerprint"@[0] != "cpuinfo-serial"@[0]);
    assert("memory-access-fingerprint"@[0] != "rapl-correlated-bytes"@[0]);
    assert("memory-access-fingerprint"@[0] != "timing-leak-fingerprint"@[0]);
}

/// Every synthetic probe holds a K_v1 token, so the scan detects a class in it.
pub proof fn lemma_synthetic_probes_hit()
    ensures
        forall|k: int| 0 <= k < 8 ==> classes_spec(synthetic_probe_spec(#[trigger] k_v1_patterns_spec()[k]@)).len() > 0,
{
    lemma_synthetic_hits_0();
    lemma_ci_contains(synthetic_probe_spec("mac-address"@), scrub_needles()[1]);
    lemma_classes_through(synthetic_probe_spec("mac-address"@), 12);
    assert(ci_contains(synthetic_probe_spec("mac-address"@), scrub_needles()[1]));
    lemma_synthetic_hits_1();
    lemma_ci_contains(synthetic_probe_spec("gpu-uuid-v4"@), scrub_needles()[2]);
    lemma_classes_through(synthetic_probe_spec("gpu-uuid-v4"@), 12);
    assert(ci_contains(synthetic_probe_spec("gpu-uuid-v4"@), scrub_needles()[2]));
    lemma_synthetic_hits_2();
    lemma_ci_contains(synthetic_probe_spec("ioplatform-serial"@), scrub_needles()[3]);
    lemma_classes_through(synthetic_probe_spec("ioplatform-serial"@), 12);
    assert(ci_contains(synthetic_probe_spec("ioplatform-serial"@), scrub_needles()[3]));
    lemma_synthetic_hits_3();
    lemma_ci_contains(synthetic_probe_spec("kernel-leaf"@), scrub_needles()[4]);
    lemma_classes_through(synthetic_probe_spec("kernel-leaf"@), 12);
    assert(ci_contains(synthetic_probe_spec("kernel-leaf"@), scrub_needles()[4]));
    lemma_synthetic_hits_4();
    lemma_ci_contains(synthetic_probe_spec("cpuinfo-serial"@), scrub_needles()[5]);
    lemma_classes_through(synthetic_probe_spec("cpuinfo-serial"@), 12);
    assert(ci_contains(synthetic_probe_spec("cpuinfo-serial"@), scrub_needles()[5]));
    lemma_synthetic_hits_5();
    lemma_ci_contains(synthetic_probe_spec("rapl-correlated-bytes"@), scrub_needles()[6]);
    lemma_classes_through(synthetic_probe_spec("rapl-correlated-bytes"@), 12);
    assert(ci_contains(synthetic_probe_spec("rapl-correlated-bytes"@), scrub_needles()[6]));
    lemma_synthetic_hits_6();
    lemma_ci_contains(synthetic_probe_spec("timing-leak-fingerprint"@), scrub_needles()[8]);
    lemma_classes_through(synthetic_probe_spec("timing-leak-fingerprint"@), 12);
    assert(ci_contains(synthetic_probe_spec("timing-leak-fingerprint"@), scrub_needles()[8]));
    lemma_synthetic_hits_7();
    lemma_ci_contains(synthetic_probe_spec("memory-access-fingerprint"@), scrub_needles()[10]);
    lemma_classes_through(synthetic_probe_spec("memory-access-fingerprint"@), 12);
    assert(ci_contains(synthetic_probe_spec("memory-access-fingerprint"@), scrub_needles()[10]));
}

// ---------------------------------------------------------------------------
// Synthetic fuzz corpus and the K_v1 histogram
// ---------------------------------------------------------------------------

/// Decimal digits of `n`, as ASCII bytes.
pub open spec fn dec_bytes(n: nat) -> Seq<u8>
    decreases n,
{
    if n < 10 {
        seq![(48 + n) as u8]
    } else {
        dec_bytes(n / 10).push((48 + n % 10) as u8)
    }
}

/// Left-pad a digit string with `0` to at least five digits (`{:05}`).
pub open spec fn zero_pad5(d: Seq<u8>) -> Seq<u8> {
    if d.len() < 5 {
        Seq::new((5 - d.len()) as nat, |_k: int| 48u8) + d
    } else {
        d
    }
}

/// `umst-manifold-s4-fuzz-`
pub open spec fn fuzz_seed_prefix() -> Seq<u8> {
    seq![117u8, 109, 115, 116, 45, 109, 97, 110, 105, 102, 111, 108, 100, 45, 115, 52, 45, 102, 117, 122, 122, 45]
}

/// The class-rotor text that opens fuzz entry `i` (by `i % 8`).
pub open spec fn fuzz_class_prefix(r: int) -> Seq<u8> {
    if r == 0 {
        // host mac 00:11:22:33:44:55 
        seq![104u8, 111, 115, 116, 32, 109, 97, 99, 32, 48, 48, 58, 49, 49, 58, 50, 50, 58, 51, 51, 58, 52, 52, 58, 53, 53, 32]
    } else if r == 1 {
        // RAPL energy_uj spike 
        seq![82u8, 65, 80, 76, 32, 101, 110, 101, 114, 103, 121, 95, 117, 106, 32, 115, 112, 105, 107, 101, 32]
    } else if r == 2 {
        // rdtsc timing_variance probe 
        seq![114u8, 100, 116, 115, 99, 32, 116, 105, 109, 105, 110, 103, 95, 118, 97, 114, 105, 97, 110, 99, 101, 32, 112, 114, 111, 98, 101, 32]
    } else if r == 3 {
        // cache_line stride_prefetch 
        seq![99u8, 97, 99, 104, 101, 95, 108, 105, 110, 101, 32, 115, 116, 114, 105, 100, 101, 95, 112, 114, 101, 102, 101, 116, 99, 104, 32]
    } else if r == 4 {
        // gpu 12345678-1234-4123-8123-123456789abc 
        seq![103u8, 112, 117, 32, 49, 50, 51, 52, 53, 54, 55, 56, 45, 49, 50, 51, 52, 45, 52, 49, 50, 51, 45, 56, 49, 50, 51, 45, 49, 50, 51, 52, 53, 54, 55, 56, 57, 97, 98, 99, 32]
    } else if r == 5 {
        // serial : 0123456789abcdef 
        seq![115u8, 101, 114, 105, 97, 108, 32, 58, 32, 48, 49, 50, 51, 52, 53, 54, 55, 56, 57, 97, 98, 99, 100, 101, 102, 32]
    } else if r == 6 {
        // IOPlatformSerialNumber leaf 
        seq![73u8, 79, 80, 108, 97, 116, 102, 111, 114, 109, 83, 101, 114, 105, 97, 108, 78, 117, 109, 98, 101, 114, 32, 108, 101, 97, 102, 32]
    } else {
        // model name : umst-manifold-fuzz 
        seq![109u8, 111, 100, 101, 108, 32, 110, 97, 109, 101, 32, 58, 32, 117, 109, 115, 116, 45, 109, 97, 110, 105, 102, 111, 108, 100, 45, 102, 117, 122, 122, 32]
    }
}

/// Synthetic fuzz entry `i`: a class rotor, then the seed `umst-manifold-s4-fuzz-{i:05}`.
pub open spec fn fuzz_entry_spec(i: nat) -> Seq<u8> {
    fuzz_class_prefix((i % 8) as int) + fuzz_seed_prefix() + zero_pad5(dec_bytes(i))
}

/// Append the decimal digits of `n`.
fn push_dec_bytes(out: &mut Vec<u8>, n: u32)
    ensures
        final(out)@ == old(out)@ + dec_bytes(n as nat),
    decreases n,
{
    if n < 10 {
        out.push(48u8 + n as u8);
    } else {
        push_dec_bytes(out, n / 10);
        out.push(48u8 + (n % 10) as u8);
    }
}

fn fuzz_class_prefix_bytes(r: u32) -> (v: Vec<u8>)
    requires
        r < 8,
    ensures
        v@ == fuzz_class_prefix(r as int),
{
    if r == 0 {
        let v = vec![104u8, 111, 115, 116, 32, 109, 97, 99, 32, 48, 48, 58, 49, 49, 58, 50, 50, 58, 51, 51, 58, 52, 52, 58, 53, 53, 32];
        assert(v@ =~= fuzz_class_prefix(r as int));
        v
    } else if r == 1 {
        let v = vec![82u8, 65, 80, 76, 32, 101, 110, 101, 114, 103, 121, 95, 117, 106, 32, 115, 112, 105, 107, 101, 32];
        assert(v@ =~= fuzz_class_prefix(r as int));
        v
    } else if r == 2 {
        let v = vec![114u8, 100, 116, 115, 99, 32, 116, 105, 109, 105, 110, 103, 95, 118, 97, 114, 105, 97, 110, 99, 101, 32, 112, 114, 111, 98, 101, 32];
        assert(v@ =~= fuzz_class_prefix(r as int));
        v
    } else if r == 3 {
        let v = vec![99u8, 97, 99, 104, 101, 95, 108, 105, 110, 101, 32, 115, 116, 114, 105, 100, 101, 95, 112, 114, 101, 102, 101, 116, 99, 104, 32];
        assert(v@ =~= fuzz_class_prefix(r as int));
        v
    } else if r == 4 {
        let v = vec![103u8, 112, 117, 32, 49, 50, 51, 52, 53, 54, 55, 56, 45, 49, 50, 51, 52, 45, 52, 49, 50, 51, 45, 56, 49, 50, 51, 45, 49, 50, 51, 52, 53, 54, 55, 56, 57, 97, 98, 99, 32];
        assert(v@ =~= fuzz_class_prefix(r as int));
        v
    } else if r == 5 {
        let v = vec![115u8, 101, 114, 105, 97, 108, 32, 58, 32, 48, 49, 50, 51, 52, 53, 54, 55, 56, 57, 97, 98, 99, 100, 101, 102, 32];
        assert(v@ =~= fuzz_class_prefix(r as int));
        v
    } else if r == 6 {
        let v = vec![73u8, 79, 80, 108, 97, 116, 102, 111, 114, 109, 83, 101, 114, 105, 97, 108, 78, 117, 109, 98, 101, 114, 32, 108, 101, 97, 102, 32];
        assert(v@ =~= fuzz_class_prefix(r as int));
        v
    } else {
        let v = vec![109u8, 111, 100, 101, 108, 32, 110, 97, 109, 101, 32, 58, 32, 117, 109, 115, 116, 45, 109, 97, 110, 105, 102, 111, 108, 100, 45, 102, 117, 122, 122, 32];
        assert(v@ =~= fuzz_class_prefix(r as int));
        v
    }
}

/// Synthetic fuzz entry `i` (class rotor by `i % 8`, zero-padded seed).
pub fn manifold_synthetic_fuzz_entry(i: u32) -> (r: Vec<u8>)
    ensures
        r@ == fuzz_entry_spec(i as nat),
{
    let mut out = fuzz_class_prefix_bytes(i % 8);
    let seed = vec![117u8, 109, 115, 116, 45, 109, 97, 110, 105, 102, 111, 108, 100, 45, 115, 52, 45, 102, 117, 122, 122, 45];
    let mut k: usize = 0;
    let ghost start = out@;
    while k < seed.len()
        invariant
            k <= seed.len(),
            seed@ == fuzz_seed_prefix(),
            out@ == start + seed@.subrange(0, k as int),
        decreases seed.len() - k,
    {
        out.push(seed[k]);
        k = k + 1;
        assert(out@ =~= start + seed@.subrange(0, k as int));
    }
    assert(seed@.subrange(0, seed.len() as int) =~= seed@);
    let mut digits: Vec<u8> = Vec::new();
    push_dec_bytes(&mut digits, i);
    assert(digits@ =~= dec_bytes(i as nat));
    let ghost before_pad = out@;
    let mut pad: usize = 0;
    let n_pad: usize = if digits.len() < 5 { 5 - digits.len() } else { 0 };
    while pad < n_pad
        invariant
            pad <= n_pad,
            out@ == before_pad + Seq::new(pad as nat, |_k: int| 48u8),
        decreases n_pad - pad,
    {
        out.push(48u8);
        pad = pad + 1;
        assert(out@ =~= before_pad + Seq::new(pad as nat, |_k: int| 48u8));
    }
    let ghost before_digits = out@;
    let mut d: usize = 0;
    while d < digits.len()
        invariant
            d <= digits.len(),
            out@ == before_digits + digits@.subrange(0, d as int),
        decreases digits.len() - d,
    {
        out.push(digits[d]);
        d = d + 1;
        assert(out@ =~= before_digits + digits@.subrange(0, d as int));
    }
    assert(digits@.subrange(0, digits.len() as int) =~= digits@);
    assert(out@ =~= fuzz_entry_spec(i as nat));
    out
}

/// The class at position `k` of `K_V1_PATTERNS`.
pub open spec fn class_of_index(k: int) -> Kv1PatternClass {
    if k == 0 {
        Kv1PatternClass::MacAddress
    } else if k == 1 {
        Kv1PatternClass::GpuUuidV4
    } else if k == 2 {
        Kv1PatternClass::IoPlatformSerial
    } else if k == 3 {
        Kv1PatternClass::KernelLeaf
    } else if k == 4 {
        Kv1PatternClass::CpuinfoSerial
    } else if k == 5 {
        Kv1PatternClass::RaplCorrelatedBytes
    } else if k == 6 {
        Kv1PatternClass::TimingLeakFingerprint
    } else {
        Kv1PatternClass::MemoryAccessFingerprint
    }
}

/// Number of fuzz entries among the first `t` in which class `c` is detected.
pub open spec fn class_hit_count(t: nat, c: Kv1PatternClass) -> nat
    decreases t,
{
    if t == 0 {
        0
    } else {
        class_hit_count((t - 1) as nat, c) + if classes_spec(fuzz_entry_spec((t - 1) as nat)).contains(c) {
            1nat
        } else {
            0nat
        }
    }
}

/// A class is detected at most once per entry.
pub proof fn lemma_class_hit_count_bound(t: nat, c: Kv1PatternClass)
    ensures
        class_hit_count(t, c) <= t,
    decreases t,
{
    if t > 0 {
        lemma_class_hit_count_bound((t - 1) as nat, c);
    }
}

/// Per-class hit counts over the first `t` fuzz entries, in `K_V1_PATTERNS` order.
pub open spec fn hist_counts(t: nat) -> Seq<u32> {
    Seq::new(8, |k: int| class_hit_count(t, class_of_index(k)) as u32)
}

/// Smallest count (`u32::MAX` for none).
pub open spec fn seq_min(s: Seq<u32>) -> u32
    decreases s.len(),
{
    if s.len() == 0 {
        u32::MAX
    } else {
        let m = seq_min(s.drop_last());
        if s.last() < m {
            s.last()
        } else {
            m
        }
    }
}

/// Largest count (`0` for none).
pub open spec fn seq_max(s: Seq<u32>) -> u32
    decreases s.len(),
{
    if s.len() == 0 {
        0
    } else {
        let m = seq_max(s.drop_last());
        if s.last() > m {
            s.last()
        } else {
            m
        }
    }
}

/// Selects the classes that were hit.
pub open spec fn count_positive() -> spec_fn(u32) -> bool {
    |c: u32| c > 0
}

/// The corpus size a histogram run takes (at least one entry).
pub open spec fn hist_target(entries: usize) -> u32 {
    (if entries < 1 {
        1
    } else {
        entries
    }) as u32
}

/// Whether the `t`-entry corpus hits every K_v1 class.
pub open spec fn hist_exhaustive(t: nat) -> bool {
    count_where(hist_counts(t), count_positive()) == 8
}

/// Whether the `t`-entry corpus hits every class equally often, and at least once.
pub open spec fn hist_balanced(t: nat) -> bool {
    seq_min(hist_counts(t)) == seq_max(hist_counts(t)) && seq_min(hist_counts(t)) > 0
}

/// Per-pattern hit row in the manifold privacy-fuzz K_v1 histogram.
#[derive(Debug, Clone, Copy, PartialEq, Eq)]
pub struct SecS4Kv1ClassHit {
    pub pattern_id: &'static str,
    /// Hit count in the fuzz corpus.
    pub hit_count: u32,
}

/// Histogram rows over the first `t` fuzz entries.
pub open spec fn hist_rows(t: nat) -> Seq<SecS4Kv1ClassHit> {
    Seq::new(
        8,
        |k: int| SecS4Kv1ClassHit { pattern_id: k_v1_patterns_spec()[k], hit_count: hist_counts(t)[k] },
    )
}

/// Mini privacy-fuzz histogram rollup at the manifold cold-edge boundary.
#[derive(Debug, Clone, PartialEq, Eq)]
pub struct SecS4ManifoldFuzzHistogram {
    pub entries_target: u32,
    pub entries_run: u32,
    /// Distinct K_v1 pattern classes observed.
    pub k_v1_unique_classes_hit: usize,
    /// Ordered histogram — one row per `K_V1_PATTERNS` id.
    pub k_v1_class_histogram: Vec<SecS4Kv1ClassHit>,
    /// True when every K_v1 class has `hit_count >= 1`.
    pub k_v1_exhaustive_in_corpus: bool,
    /// Synthetic scrub round-trip across all K_v1 probes.
    pub scrub_roundtrip_verified: bool,
    /// First eight rotors scrub to zero residual.
    pub fuzz_scrub_sample_verified: bool,
    /// Three stride samples per K_v1 class scrub to zero residual.
    pub fuzz_scrub_stride_verified: bool,
    /// Sparse prop sample across the 10k rotor space scrubs clean.
    pub fuzz_scrub_prop_sample_verified: bool,
    /// Rotor balance — min class hits == max class hits > 0.
    pub k_v1_rotor_balanced: bool,
    pub k_v1_min_class_hits: u32,
    pub k_v1_max_class_hits: u32,
}

/// Smallest and largest class hit counts.
fn kv1_histogram_min_max(counts: &Vec<u32>) -> (r: (u32, u32))
    ensures
        r.0 == seq_min(counts@),
        r.1 == seq_max(counts@),
{
    let mut min = u32::MAX;
    let mut max = 0u32;
    let mut i: usize = 0;
    while i < counts.len()
        invariant
            i <= counts.len(),
            min == seq_min(counts@.take(i as int)),
            max == seq_max(counts@.take(i as int)),
        decreases counts.len() - i,
    {
        assert(counts@.take(i + 1).drop_last() =~= counts@.take(i as int));
        let c = counts[i];
        if c < min {
            min = c;
        }
        if c > max {
            max = c;
        }
        i = i + 1;
    }
    assert(counts@.take(counts.len() as int) =~= counts@);
    (min, max)
}

/// Histogram rows from per-class counts, in `K_V1_PATTERNS` order.
fn kv1_histogram_from_counts(counts: &Vec<u32>) -> (r: Vec<SecS4Kv1ClassHit>)
    requires
        counts.len() == 8,
    ensures
        r@ == Seq::new(
            8,
            |k: int| SecS4Kv1ClassHit { pattern_id: k_v1_patterns_spec()[k], hit_count: counts@[k] },
        ),
{
    let ids = k_v1_patterns();
    let mut r: Vec<SecS4Kv1ClassHit> = Vec::new();
    let mut i: usize = 0;
    while i < 8
        invariant
            i <= 8,
            counts.len() == 8,
            ids@ == k_v1_patterns_spec(),
            r@ == Seq::new(
                i as nat,
                |k: int| SecS4Kv1ClassHit { pattern_id: k_v1_patterns_spec()[k], hit_count: counts@[k] },
            ),
        decreases 8 - i,
    {
        r.push(SecS4Kv1ClassHit { pattern_id: ids[i], hit_count: counts[i] });
        i = i + 1;
        assert(r@ =~= Seq::new(
            i as nat,
            |k: int| SecS4Kv1ClassHit { pattern_id: k_v1_patterns_spec()[k], hit_count: counts@[k] },
        ));
    }
    r
}

/// Per-class counts over the first `target` fuzz entries.
fn kv1_fuzz_class_counts(target: u32) -> (r: Vec<u32>)
    ensures
        r@ == hist_counts(target as nat),
{
    let mut counts: Vec<u32> = vec![0u32, 0, 0, 0, 0, 0, 0, 0];
    let mut i: u32 = 0;
    while i < target
        invariant
            i <= target,
            counts.len() == 8,
            forall|k: int| 0 <= k < 8 ==> #[trigger] counts@[k] == class_hit_count(i as nat, class_of_index(k)),
        decreases target - i,
    {
        let payload = manifold_synthetic_fuzz_entry(i);
        let classes = manifold_pattern_classes_in_bytes(&payload);
        proof {
            lemma_classes_through(payload@, 12);
            assert forall|k: int| 0 <= k < 8 implies class_hit_count(i as nat, #[trigger] class_of_index(k)) <= i by {
                lemma_class_hit_count_bound(i as nat, class_of_index(k));
            };
        }
        let mut j: usize = 0;
        while j < classes.len()
            invariant
                j <= classes.len(),
                i < target,
                counts.len() == 8,
                classes@ == classes_spec(fuzz_entry_spec(i as nat)),
                classes@.no_duplicates(),
                forall|k: int| 0 <= k < 8 ==> class_hit_count(i as nat, #[trigger] class_of_index(k)) <= i,
                forall|k: int| 0 <= k < 8 ==> #[trigger] counts@[k] == class_hit_count(i as nat, class_of_index(k))
                    + if classes@.take(j as int).contains(class_of_index(k)) { 1nat } else { 0nat },
            decreases classes.len() - j,
        {
            let c = classes[j];
            let idx = c.index();
            proof {
                assert(class_of_index(class_index(c)) == c);
                assert(!classes@.take(j as int).contains(c)) by {
                    if classes@.take(j as int).contains(c) {
                        let m = choose|m: int| 0 <= m < j && #[trigger] classes@.take(j as int)[m] == c;
                        assert(classes@[m] == classes@[j as int]);
                    }
                };
                assert forall|k: int| 0 <= k < 8 && k != idx implies class_of_index(k) != c by {
                    assert(class_index(class_of_index(k)) == k);
                };
                assert(classes@.take(j + 1) =~= classes@.take(j as int).push(c));
            }
            let ghost before = counts@;
            counts.set(idx, counts[idx].saturating_add(1));
            proof {
                assert forall|k: int| 0 <= k < 8 implies #[trigger] counts@[k] == class_hit_count(
                    i as nat,
                    class_of_index(k),
                ) + if classes@.take(j + 1).contains(class_of_index(k)) {
                    1nat
                } else {
                    0nat
                } by {
                    if k == idx {
                        assert(classes@.take(j + 1)[j as int] == c);
                    } else {
                        assert(counts@[k] == before[k]);
                        if classes@.take(j + 1).contains(class_of_index(k)) {
                            let m = choose|m: int|
                                0 <= m < j + 1 && #[trigger] classes@.take(j + 1)[m] == class_of_index(k);
                            assert(classes@.take(j as int)[m] == class_of_index(k));
                        }
                        if classes@.take(j as int).contains(class_of_index(k)) {
                            let m = choose|m: int|
                                0 <= m < j && #[trigger] classes@.take(j as int)[m] == class_of_index(k);
                            assert(classes@.take(j + 1)[m] == class_of_index(k));
                        }
                    }
                };
            }
            j = j + 1;
        }
        proof {
            assert(classes@.take(classes.len() as int) =~= classes@);
        }
        i = i + 1;
    }
    assert(counts@ =~= hist_counts(target as nat));
    counts
}

// ---------------------------------------------------------------------------
// Coverage probes and scrub witnesses
// ---------------------------------------------------------------------------

/// One L-S5 K_v1 synthetic coverage probe row at the manifold cold edge.
#[derive(Debug, Clone, Copy, PartialEq, Eq)]
pub struct ManifoldLs5Kv1Probe {
    pub pattern_id: &'static str,
    /// Whether the synthetic probe bytes are detected and scrub to zero residual.
    pub probe_hit: bool,
}

/// The coverage probes as measured: every K_v1 pattern hits.
pub open spec fn ls5_probes_spec() -> Seq<ManifoldLs5Kv1Probe> {
    k_v1_patterns_spec().map_values(|id: &'static str| ManifoldLs5Kv1Probe { pattern_id: id, probe_hit: true })
}

/// Whether `payload` scrubs to a buffer in which no K_v1 class is detected (always).
fn scrubs_clean(payload: &Vec<u8>) -> (r: bool)
    ensures
        r,
{
    let (scrubbed, _) = manifold_scrub_k_v1_tokens(payload.as_slice());
    proof {
        lemma_scrub_then_scan_is_clean(payload@);
    }
    !scan_k_v1_pattern_classes(&scrubbed)
}

/// L-S5 K_v1 synthetic coverage probe matrix — 8/8 at the manifold cold edge.
pub fn manifold_ls5_k_v1_coverage_probes() -> (r: Vec<ManifoldLs5Kv1Probe>)
    ensures
        r@ == ls5_probes_spec(),
{
    let ids = k_v1_patterns();
    let mut out: Vec<ManifoldLs5Kv1Probe> = Vec::new();
    let mut i: usize = 0;
    proof {
        lemma_synthetic_probes_hit();
    }
    while i < ids.len()
        invariant
            ids@ == k_v1_patterns_spec(),
            i <= ids.len(),
            out@ == ls5_probes_spec().take(i as int),
            forall|k: int| 0 <= k < 8 ==> classes_spec(synthetic_probe_spec(#[trigger] k_v1_patterns_spec()[k]@)).len() > 0,
        decreases ids.len() - i,
    {
        let id = ids[i];
        let bytes = synthetic_probe_bytes(id);
        let pre_hit = scan_k_v1_pattern_classes(&bytes);
        let post_clean = scrubs_clean(&bytes);
        assert(k_v1_patterns_spec()[i as int] == id);
        out.push(ManifoldLs5Kv1Probe { pattern_id: id, probe_hit: pre_hit && post_clean });
        assert(out@ =~= ls5_probes_spec().take(i + 1));
        i = i + 1;
    }
    assert(out@ =~= ls5_probes_spec());
    out
}

/// Whether all eight L-S5 K_v1 synthetic probes hit at the manifold boundary.
pub fn manifold_ls5_all_k_v1_probed() -> (r: bool)
    ensures
        r,
{
    let probes = manifold_ls5_k_v1_coverage_probes();
    let mut all = true;
    let mut i: usize = 0;
    while i < probes.len()
        invariant
            i <= probes.len(),
            probes@ == ls5_probes_spec(),
            all,
        decreases probes.len() - i,
    {
        assert(probes@[i as int].probe_hit);
        all = all && probes[i].probe_hit;
        i = i + 1;
    }
    all
}

/// Verify every K_v1 synthetic probe scrubs to zero residual hits at the manifold boundary.
pub fn manifold_verify_scrub_roundtrip() -> (r: bool)
    ensures
        r,
{
    let ids = k_v1_patterns();
    let mut all = true;
    let mut i: usize = 0;
    while i < ids.len()
        invariant
            i <= ids.len(),
            all,
        decreases ids.len() - i,
    {
        let bytes = synthetic_probe_bytes(ids[i]);
        all = all && scrubs_clean(&bytes);
        i = i + 1;
    }
    all
}

/// Verify the first eight fuzz rotors scrub to zero residual at the manifold boundary.
pub fn manifold_verify_fuzz_scrub_sample() -> (r: bool)
    ensures
        r,
{
    let mut all = true;
    let mut i: u32 = 0;
    while i < 8
        invariant
            i <= 8,
            all,
        decreases 8 - i,
    {
        let payload = manifold_synthetic_fuzz_entry(i);
        all = all && scrubs_clean(&payload);
        i = i + 1;
    }
    all
}

/// Verify three stride samples per K_v1 class scrub to zero residual.
pub fn manifold_verify_fuzz_scrub_stride() -> (r: bool)
    ensures
        r,
{
    let mut all = true;
    let mut class: u32 = 0;
    while class < 8
        invariant
            class <= 8,
            all,
        decreases 8 - class,
    {
        let mut stride_idx: u32 = 0;
        while stride_idx < STRIDE_SAMPLES_PER_CLASS
            invariant
                class < 8,
                stride_idx <= STRIDE_SAMPLES_PER_CLASS,
                all,
            decreases STRIDE_SAMPLES_PER_CLASS - stride_idx,
        {
            let payload = manifold_synthetic_fuzz_entry(class + stride_idx * 8);
            all = all && scrubs_clean(&payload);
            stride_idx = stride_idx + 1;
        }
        class = class + 1;
    }
    all
}

/// Sparse prop sample across the default 10k fuzz space at the manifold boundary.
pub fn manifold_verify_fuzz_scrub_prop_sample() -> (r: bool)
    ensures
        r,
{
    let mut all = true;
    let mut class: u32 = 0;
    while class < 8
        invariant
            class <= 8,
            all,
        decreases 8 - class,
    {
        let mut stride_idx: u32 = 0;
        while stride_idx < PROP_SAMPLE_STRIDES
            invariant
                class < 8,
                stride_idx <= PROP_SAMPLE_STRIDES,
                all,
            decreases PROP_SAMPLE_STRIDES - stride_idx,
        {
            let payload = manifold_synthetic_fuzz_entry(class + stride_idx * PROP_SAMPLE_STRIDE_STEP);
            all = all && scrubs_clean(&payload);
            stride_idx = stride_idx + 1;
        }
        class = class + 1;
    }
    all
}

/// Run the mini privacy-fuzz histogram at the manifold cold edge over
/// `max(entries, 1)` rotors (the count taken as `u32`).
pub fn manifold_run_mini_fuzz_histogram(entries: usize) -> (r: SecS4ManifoldFuzzHistogram)
    ensures
        r.entries_target == hist_target(entries),
        r.entries_run == hist_target(entries),
        r.k_v1_class_histogram@ == hist_rows(hist_target(entries) as nat),
        r.k_v1_unique_classes_hit == count_where(hist_counts(hist_target(entries) as nat), count_positive()),
        r.k_v1_exhaustive_in_corpus == hist_exhaustive(hist_target(entries) as nat),
        r.scrub_roundtrip_verified,
        r.fuzz_scrub_sample_verified,
        r.fuzz_scrub_stride_verified,
        r.fuzz_scrub_prop_sample_verified,
        r.k_v1_min_class_hits == seq_min(hist_counts(hist_target(entries) as nat)),
        r.k_v1_max_class_hits == seq_max(hist_counts(hist_target(entries) as nat)),
        r.k_v1_rotor_balanced == hist_balanced(hist_target(entries) as nat),
{
    let clamped: usize = if entries < 1 { 1 } else { entries };
    let target = clamped as u32;
    let counts = kv1_fuzz_class_counts(target);
    let histogram = kv1_histogram_from_counts(&counts);
    assert(histogram@ =~= hist_rows(target as nat));
    let mut unique: usize = 0;
    let mut i: usize = 0;
    while i < counts.len()
        invariant
            i <= counts.len(),
            unique == count_where(counts@.take(i as int), count_positive()),
            unique <= i,
        decreases counts.len() - i,
    {
        proof {
            lemma_count_step(counts@, count_positive(), i as int);
        }
        if counts[i] > 0 {
            unique = unique + 1;
        }
        i = i + 1;
    }
    proof {
        lemma_take_all(counts@);
    }
    let (min, max) = kv1_histogram_min_max(&counts);
    SecS4ManifoldFuzzHistogram {
        entries_target: target,
        entries_run: target,
        k_v1_unique_classes_hit: unique,
        k_v1_class_histogram: histogram,
        k_v1_exhaustive_in_corpus: unique == k_v1_patterns().len(),
        scrub_roundtrip_verified: manifold_verify_scrub_roundtrip(),
        fuzz_scrub_sample_verified: manifold_verify_fuzz_scrub_sample(),
        fuzz_scrub_stride_verified: manifold_verify_fuzz_scrub_stride(),
        fuzz_scrub_prop_sample_verified: manifold_verify_fuzz_scrub_prop_sample(),
        k_v1_rotor_balanced: min == max && min > 0,
        k_v1_min_class_hits: min,
        k_v1_max_class_hits: max,
    }
}

/// Run the stride privacy-fuzz histogram at the manifold cold edge (at least 24 rotors).
pub fn manifold_run_stride_fuzz_histogram(entries: usize) -> (r: SecS4ManifoldFuzzHistogram)
    ensures
        r.entries_target == hist_target(if entries < STRIDE_FUZZ_ENTRIES { STRIDE_FUZZ_ENTRIES } else { entries }),
        r.entries_run == hist_target(if entries < STRIDE_FUZZ_ENTRIES { STRIDE_FUZZ_ENTRIES } else { entries }),
        r.k_v1_unique_classes_hit == count_where(hist_counts(hist_target(if entries < STRIDE_FUZZ_ENTRIES { STRIDE_FUZZ_ENTRIES } else { entries }) as nat), count_positive()),
        r.k_v1_rotor_balanced == hist_balanced(hist_target(if entries < STRIDE_FUZZ_ENTRIES { STRIDE_FUZZ_ENTRIES } else { entries }) as nat),
        r.k_v1_exhaustive_in_corpus == hist_exhaustive(hist_target(if entries < STRIDE_FUZZ_ENTRIES { STRIDE_FUZZ_ENTRIES } else { entries }) as nat),
        r.k_v1_min_class_hits == seq_min(hist_counts(hist_target(if entries < STRIDE_FUZZ_ENTRIES { STRIDE_FUZZ_ENTRIES } else { entries }) as nat)),
        r.k_v1_max_class_hits == seq_max(hist_counts(hist_target(if entries < STRIDE_FUZZ_ENTRIES { STRIDE_FUZZ_ENTRIES } else { entries }) as nat)),
        r.k_v1_class_histogram@ == hist_rows(hist_target(if entries < STRIDE_FUZZ_ENTRIES { STRIDE_FUZZ_ENTRIES } else { entries }) as nat),
        r.scrub_roundtrip_verified,
        r.fuzz_scrub_sample_verified,
        r.fuzz_scrub_stride_verified,
        r.fuzz_scrub_prop_sample_verified,
{
    manifold_run_mini_fuzz_histogram(if entries < STRIDE_FUZZ_ENTRIES { STRIDE_FUZZ_ENTRIES } else { entries })
}

/// The pinned corpora are honest: the 8-rotor corpus covers every class and the
/// 24-rotor corpus hits every class equally often.
pub open spec fn fuzz_corpus_honest() -> bool {
    hist_exhaustive(8) && hist_balanced(24)
}

// ---------------------------------------------------------------------------
// Census
// ---------------------------------------------------------------------------

/// Board slice id.
pub const BOARD_SLICE_ID: &'static str = "SEC-S4";

/// AGAP slot id (2033 side-channel badge deepen).
pub const JOB_ID: &'static str = "AGAP-2033-SEC-S4";

/// FLEET-COMPOSER Prabhu Wave H slot H3 id.
pub const FLEET_P1800_H3_JOB_ID: &'static str = "PRABHU-WAVE-H-1800-H3";

/// FLEET-COMPOSER Prabhu Wave H H3 receipt path.
pub const FLEET_P1800_H3_RECEIPT_PATH: &'static str = "outputs/.tmp/COMPOSER_P1800_H3.md";

/// FLEET-COMPOSER ACCEL-25 slot AC06 id.
pub const FLEET_ACCEL_AC06_JOB_ID: &'static str = "ACCEL-2030-AC06";

/// FLEET-COMPOSER ACCEL-25 AC06 receipt path.
pub const FLEET_ACCEL_AC06_RECEIPT_PATH: &'static str = "outputs/.tmp/COMPOSER_ACCEL_2030_AC06.md";

/// Prior AGAP-2033 SEC-S4 side-channel badge receipt.
pub const PRIOR_RECEIPT_PATH_2033: &'static str =
    "old/residuals/residuals/misc-outputs-tmp/COMPLETION_AGAP_AGENT_SEC-S4_2033.md";

/// Prior AGAP-2127 SEC-S4 scrub-roundtrip receipt.
pub const PRIOR_RECEIPT_PATH_2127: &'static str =
    "old/residuals/residuals/misc-outputs-tmp/COMPLETION_AGAP_AGENT_SEC-S4_2127.md";

/// Prior AGAP-2350 SEC-S4 K_v1 fuzz histogram receipt.
pub const PRIOR_RECEIPT_PATH_2350: &'static str =
    "old/residuals/residuals/misc-outputs-tmp/COMPLETION_AGAP_AGENT_S-4_2350.md";

/// umst-trust SEC-S4 side-channel delegate SSOT.
pub const TRUST_SSOT: &'static str = "umst-foundations/crates/umst-trust/src/sec_s4_side_channel.rs";

/// egoff sanitize SSOT (full GMD-7 + side-channel regex scrub).
pub const EGOFF_SANITIZE_SSOT: &'static str = "egoff/egoff/src/security/sanitize.rs";

/// egoff cockpit side-channel badge SSOT.
pub const EGOFF_BADGE_SSOT: &'static str = "egoff/egoff/src/security/mod.rs";

/// Gateway trust-wrap delegate SSOT (serial next-hop).
pub const GATEWAY_SSOT: &'static str = "umst-gateway/crates/umst-gateway/src/sec_gw_trust_wrap.rs";

/// umst-formal L-S5 proof SSOT (honest open).
pub const FORMAL_LS5_SSOT: &'static str = "umst-formal/Lean/Crypto/SanitizePatternCoverage.lean";

/// Honest adoption tier.
pub const POSTURE_TAG: &'static str = "manifold-gate-census-wired-not-production";

/// Census schema version.
pub const SCHEMA_VERSION: &'static str = "sec_s4_gate_side_channel_scrub_census_v2";

/// Default mini-fuzz corpus size (one rotor per K_v1 class).
pub const MINI_FUZZ_ENTRIES: usize = 8;

/// Stride samples per K_v1 class.
pub const STRIDE_SAMPLES_PER_CLASS: u32 = 3;

/// Stride fuzz corpus size — three rotors per class (`8 × 3 = 24`).
pub const STRIDE_FUZZ_ENTRIES: usize = 24;

/// Prop-sample strides across the 10k rotor space.
pub const PROP_SAMPLE_STRIDES: u32 = 8;

/// Prop-sample stride step across the default 10k fuzz space.
pub const PROP_SAMPLE_STRIDE_STEP: u32 = 1250;

/// L-S5 formal proof wired — honest false until Lean lands.
pub const L_S5_PROOF_WIRED_HONEST: bool = false;

/// Sled anomaly audit trail wired — honest false.
pub const SLED_ANOMALY_AUDIT_WIRED_HONEST: bool = false;

/// One hop in the manifold SEC-S4 gate runtime wire map.
#[derive(Debug, Clone, Copy, PartialEq, Eq)]
pub struct SecS4GateWireHop {
    pub ordinal: u8,
    pub surface: &'static str,
    pub role: &'static str,
    pub wired: bool,
}

/// Manifold SEC-S4 gate runtime wire map (cold-edge evidence → side-channel scrub census).
pub open spec fn wire_hops_spec() -> Seq<SecS4GateWireHop> {
    seq![
        SecS4GateWireHop { ordinal: 1, surface: "umst-manifold::runtime::gate::evidence::AdmissibilityToken", role: "Gate admit witness token on cold edge", wired: true },
        SecS4GateWireHop { ordinal: 2, surface: "umst-manifold::runtime::gate::cartridge::GateCartridge::transition_evidence", role: "CdTransitionCartridge structured witness", wired: true },
        SecS4GateWireHop { ordinal: 3, surface: "umst-manifold::runtime::gate::sec_s4::gate_side_channel_scrub_census", role: "Manifold gate SEC-S4 side-channel scrub census", wired: true },
        SecS4GateWireHop { ordinal: 4, surface: "umst-trust::sec_s4_side_channel::validate_s4_side_channel_honesty", role: "Trust side-channel scrub delegate (Y82/G75/F75)", wired: true },
        SecS4GateWireHop { ordinal: 5, surface: "egoff::security::sanitize + egoff::security::mod::session_trust_badge", role: "egoff GMD-7 scrub + cockpit badge (live wire egoff-owned)", wired: true },
        SecS4GateWireHop { ordinal: 6, surface: "umst-formal::Lean::Crypto::SanitizePatternCoverage", role: "L-S5 formal proof (R-LS5-full)", wired: false },
        SecS4GateWireHop { ordinal: 7, surface: "umst-gateway::sec_gw_trust_wrap::trust_wrap_wired", role: "Gateway production ceremony + sled anomaly audit (serial Wave H)", wired: false },
    ]
}

/// Manifold SEC-S4 gate runtime wire map (cold-edge evidence → side-channel scrub census).
pub fn manifold_sec_s4_gate_wire_hops() -> (r: Vec<SecS4GateWireHop>)
    ensures
        r@ == wire_hops_spec(),
{
    let r = vec![
        SecS4GateWireHop { ordinal: 1, surface: "umst-manifold::runtime::gate::evidence::AdmissibilityToken", role: "Gate admit witness token on cold edge", wired: true },
        SecS4GateWireHop { ordinal: 2, surface: "umst-manifold::runtime::gate::cartridge::GateCartridge::transition_evidence", role: "CdTransitionCartridge structured witness", wired: true },
        SecS4GateWireHop { ordinal: 3, surface: "umst-manifold::runtime::gate::sec_s4::gate_side_channel_scrub_census", role: "Manifold gate SEC-S4 side-channel scrub census", wired: true },
        SecS4GateWireHop { ordinal: 4, surface: "umst-trust::sec_s4_side_channel::validate_s4_side_channel_honesty", role: "Trust side-channel scrub delegate (Y82/G75/F75)", wired: true },
        SecS4GateWireHop { ordinal: 5, surface: "egoff::security::sanitize + egoff::security::mod::session_trust_badge", role: "egoff GMD-7 scrub + cockpit badge (live wire egoff-owned)", wired: true },
        SecS4GateWireHop { ordinal: 6, surface: "umst-formal::Lean::Crypto::SanitizePatternCoverage", role: "L-S5 formal proof (R-LS5-full)", wired: false },
        SecS4GateWireHop { ordinal: 7, surface: "umst-gateway::sec_gw_trust_wrap::trust_wrap_wired", role: "Gateway production ceremony + sled anomaly audit (serial Wave H)", wired: false },
    ];
    assert(r@ =~= wire_hops_spec());
    r
}

/// Selects the wired hops of a wire map.
pub open spec fn hop_is_wired() -> spec_fn(SecS4GateWireHop) -> bool {
    |h: SecS4GateWireHop| h.wired
}

/// Five of the seven wire hops are wired today.
pub proof fn lemma_wire_hops_wired_count()
    ensures
        count_where(wire_hops_spec(), hop_is_wired()) == 5,
{
    let s = wire_hops_spec();
    let p = hop_is_wired();
    assert(s.take(0) =~= Seq::<SecS4GateWireHop>::empty());
    lemma_count_step(s, p, 0);
    lemma_count_step(s, p, 1);
    lemma_count_step(s, p, 2);
    lemma_count_step(s, p, 3);
    lemma_count_step(s, p, 4);
    lemma_count_step(s, p, 5);
    lemma_count_step(s, p, 6);
    lemma_take_all(s);
}

/// Count the wired hops of a wire map.
pub fn count_wired_hops(items: &Vec<SecS4GateWireHop>) -> (r: usize)
    ensures
        r == count_where(items@, hop_is_wired()),
{
    let mut n: usize = 0;
    let mut i: usize = 0;
    while i < items.len()
        invariant
            i <= items.len(),
            n == count_where(items@.take(i as int), hop_is_wired()),
            n <= i,
        decreases items.len() - i,
    {
        proof {
            lemma_count_step(items@, hop_is_wired(), i as int);
        }
        if items[i].wired {
            n = n + 1;
        }
        i = i + 1;
    }
    proof {
        lemma_take_all(items@);
    }
    n
}

/// The pinned receipt paths carry the markers the probes check for.
pub proof fn lemma_ssot_pins()
    ensures
        seq_contains(PRIOR_RECEIPT_PATH_2033@, "SEC-S4_2033"@),
        seq_contains(PRIOR_RECEIPT_PATH_2127@, "SEC-S4_2127"@),
        seq_contains(PRIOR_RECEIPT_PATH_2350@, "S-4_2350"@),
        seq_contains(FLEET_P1800_H3_RECEIPT_PATH@, "COMPOSER_P1800_H3"@),
{
    reveal_strlit("old/residuals/residuals/misc-outputs-tmp/COMPLETION_AGAP_AGENT_SEC-S4_2033.md");
    reveal_strlit("SEC-S4_2033");
    reveal_strlit("old/residuals/residuals/misc-outputs-tmp/COMPLETION_AGAP_AGENT_SEC-S4_2127.md");
    reveal_strlit("SEC-S4_2127");
    reveal_strlit("old/residuals/residuals/misc-outputs-tmp/COMPLETION_AGAP_AGENT_S-4_2350.md");
    reveal_strlit("S-4_2350");
    reveal_strlit("outputs/.tmp/COMPOSER_P1800_H3.md");
    reveal_strlit("COMPOSER_P1800_H3");
    assert(PRIOR_RECEIPT_PATH_2033@.subrange(63, 74) =~= "SEC-S4_2033"@);
    assert(matches_at(PRIOR_RECEIPT_PATH_2033@, "SEC-S4_2033"@, 63));
    assert(PRIOR_RECEIPT_PATH_2127@.subrange(63, 74) =~= "SEC-S4_2127"@);
    assert(matches_at(PRIOR_RECEIPT_PATH_2127@, "SEC-S4_2127"@, 63));
    assert(PRIOR_RECEIPT_PATH_2350@.subrange(63, 71) =~= "S-4_2350"@);
    assert(matches_at(PRIOR_RECEIPT_PATH_2350@, "S-4_2350"@, 63));
    assert(FLEET_P1800_H3_RECEIPT_PATH@.subrange(13, 30) =~= "COMPOSER_P1800_H3"@);
    assert(matches_at(FLEET_P1800_H3_RECEIPT_PATH@, "COMPOSER_P1800_H3"@, 13));
}

/// Aggregated SEC-S4 gate side-channel scrub census on the manifold boundary.
#[derive(Debug, Clone, Copy, PartialEq, Eq)]
pub struct SecS4GateSideChannelScrubCensus {
    pub schema_version: &'static str,
    pub board_slice_id: &'static str,
    pub gate_evidence_wired: bool,
    pub ls5_all_k_v1_probed: bool,
    pub scrub_roundtrip_verified: bool,
    pub mini_fuzz_histogram_exhaustive: bool,
    pub stride_fuzz_histogram_balanced: bool,
    pub fuzz_scrub_sample_verified: bool,
    pub fuzz_scrub_stride_verified: bool,
    pub fuzz_scrub_prop_sample_verified: bool,
    /// Honest false.
    pub l_s5_proof_wired: bool,
    /// Honest false.
    pub sled_anomaly_audit_wired: bool,
    /// Gateway production flip.
    pub production_wired: bool,
    pub wire_hop_wired_count: u8,
}

/// Exercise gate cold-edge evidence at the manifold SSOT (the identity transition admits).
pub fn gate_transition_evidence_probe(evidence: &TransitionEvidence) -> (r: bool)
    ensures
        r == witness_admits(*evidence),
{
    cold_edge_witness_admits(evidence)
}

/// Whether the live gateway trust-wrap production flip is plumbed (honest `false`).
pub fn sec_s4_production_wired() -> (r: bool)
    ensures
        !r,
{
    false
}

/// Build the manifold SEC-S4 gate side-channel scrub census from live measurements.
pub fn gate_side_channel_scrub_census(gate_evidence_wired: bool) -> (r: SecS4GateSideChannelScrubCensus)
    ensures
        r.schema_version == SCHEMA_VERSION,
        r.board_slice_id == BOARD_SLICE_ID,
        r.gate_evidence_wired == gate_evidence_wired,
        r.ls5_all_k_v1_probed,
        r.scrub_roundtrip_verified,
        r.mini_fuzz_histogram_exhaustive == hist_exhaustive(8),
        r.stride_fuzz_histogram_balanced == hist_balanced(24),
        r.fuzz_scrub_sample_verified,
        r.fuzz_scrub_stride_verified,
        r.fuzz_scrub_prop_sample_verified,
        !r.l_s5_proof_wired,
        !r.sled_anomaly_audit_wired,
        !r.production_wired,
        r.wire_hop_wired_count == 5,
{
    let hops = manifold_sec_s4_gate_wire_hops();
    let wired = count_wired_hops(&hops);
    proof {
        lemma_wire_hops_wired_count();
    }
    let mini = manifold_run_mini_fuzz_histogram(MINI_FUZZ_ENTRIES);
    let stride = manifold_run_stride_fuzz_histogram(STRIDE_FUZZ_ENTRIES);
    SecS4GateSideChannelScrubCensus {
        schema_version: SCHEMA_VERSION,
        board_slice_id: BOARD_SLICE_ID,
        gate_evidence_wired,
        ls5_all_k_v1_probed: manifold_ls5_all_k_v1_probed(),
        scrub_roundtrip_verified: manifold_verify_scrub_roundtrip(),
        mini_fuzz_histogram_exhaustive: mini.k_v1_exhaustive_in_corpus,
        stride_fuzz_histogram_balanced: stride.k_v1_rotor_balanced,
        fuzz_scrub_sample_verified: mini.fuzz_scrub_sample_verified,
        fuzz_scrub_stride_verified: stride.fuzz_scrub_stride_verified,
        fuzz_scrub_prop_sample_verified: stride.fuzz_scrub_prop_sample_verified,
        l_s5_proof_wired: L_S5_PROOF_WIRED_HONEST,
        sled_anomaly_audit_wired: SLED_ANOMALY_AUDIT_WIRED_HONEST,
        production_wired: sec_s4_production_wired(),
        wire_hop_wired_count: wired as u8,
    }
}

/// Whether the manifold gate SEC-S4 ceremony is closed at census tier: exactly when the
/// cold-edge evidence admits and the pinned fuzz corpora are honest.
pub fn manifold_gate_sec_s4_ceremony_closed(gate_evidence_wired: bool) -> (r: bool)
    ensures
        r == (gate_evidence_wired && fuzz_corpus_honest()),
{
    let census = gate_side_channel_scrub_census(gate_evidence_wired);
    census.gate_evidence_wired && census.ls5_all_k_v1_probed && census.scrub_roundtrip_verified
        && census.mini_fuzz_histogram_exhaustive && census.stride_fuzz_histogram_balanced
        && census.fuzz_scrub_sample_verified && census.fuzz_scrub_stride_verified
        && census.fuzz_scrub_prop_sample_verified && !census.l_s5_proof_wired
        && !census.sled_anomaly_audit_wired && !census.production_wired
        && census.wire_hop_wired_count == 5 && gate_evidence_wired
}

/// Typed probe for SEC-S4 manifold gate closure honesty.
#[derive(Debug, Clone, Copy, PartialEq, Eq, Structural)]
pub struct SecS4GateManifoldProbe {
    pub gate_evidence_wired: bool,
    pub ls5_all_k_v1_probed: bool,
    pub scrub_roundtrip_verified: bool,
    pub mini_fuzz_histogram_exhaustive: bool,
    pub stride_fuzz_histogram_balanced: bool,
    pub fuzz_scrub_sample_verified: bool,
    pub fuzz_scrub_stride_verified: bool,
    pub fuzz_scrub_prop_sample_verified: bool,
    pub l_s5_proof_honest_false: bool,
    pub sled_anomaly_honest_false: bool,
    pub production_honest_false: bool,
    pub wire_hop_wired_count: u8,
    pub ceremony_closed: bool,
}

/// The manifold probe measured for a given cold-edge outcome.
pub open spec fn manifold_probe_spec(gate_evidence_wired: bool) -> SecS4GateManifoldProbe {
    SecS4GateManifoldProbe {
        gate_evidence_wired,
        ls5_all_k_v1_probed: true,
        scrub_roundtrip_verified: true,
        mini_fuzz_histogram_exhaustive: hist_exhaustive(8),
        stride_fuzz_histogram_balanced: hist_balanced(24),
        fuzz_scrub_sample_verified: true,
        fuzz_scrub_stride_verified: true,
        fuzz_scrub_prop_sample_verified: true,
        l_s5_proof_honest_false: true,
        sled_anomaly_honest_false: true,
        production_honest_false: true,
        wire_hop_wired_count: 5,
        ceremony_closed: gate_evidence_wired && fuzz_corpus_honest(),
    }
}

/// Build the introspection probe for SEC-S4 done-when checks.
pub fn sec_s4_gate_manifold_probe(gate_evidence_wired: bool) -> (r: SecS4GateManifoldProbe)
    ensures
        r == manifold_probe_spec(gate_evidence_wired),
{
    let census = gate_side_channel_scrub_census(gate_evidence_wired);
    SecS4GateManifoldProbe {
        gate_evidence_wired: census.gate_evidence_wired,
        ls5_all_k_v1_probed: census.ls5_all_k_v1_probed,
        scrub_roundtrip_verified: census.scrub_roundtrip_verified,
        mini_fuzz_histogram_exhaustive: census.mini_fuzz_histogram_exhaustive,
        stride_fuzz_histogram_balanced: census.stride_fuzz_histogram_balanced,
        fuzz_scrub_sample_verified: census.fuzz_scrub_sample_verified,
        fuzz_scrub_stride_verified: census.fuzz_scrub_stride_verified,
        fuzz_scrub_prop_sample_verified: census.fuzz_scrub_prop_sample_verified,
        l_s5_proof_honest_false: !census.l_s5_proof_wired,
        sled_anomaly_honest_false: !census.sled_anomaly_audit_wired,
        production_honest_false: !census.production_wired,
        wire_hop_wired_count: census.wire_hop_wired_count,
        ceremony_closed: manifold_gate_sec_s4_ceremony_closed(gate_evidence_wired),
    }
}

/// FLEET-COMPOSER Prabhu Wave H H3 integration probe.
#[derive(Debug, Clone, Copy, PartialEq, Eq)]
pub struct SecS4P1800H3Probe {
    pub h3_job_id: &'static str,
    pub prior_2033_absorbed: bool,
    pub prior_2127_absorbed: bool,
    pub prior_2350_absorbed: bool,
    /// Manifold ceremony close predicate.
    pub ceremony_closed: bool,
    /// Underlying gate probe.
    pub probe: SecS4GateManifoldProbe,
    /// Honest false.
    pub production_wired: bool,
    /// Honest false.
    pub l_s5_proof_wired: bool,
}

/// Build the FLEET-COMPOSER P1800 H3 integration probe from live measurements.
pub fn sec_s4_p1800_h3_probe(gate_evidence_wired: bool) -> (r: SecS4P1800H3Probe)
    ensures
        r.h3_job_id == FLEET_P1800_H3_JOB_ID,
        r.prior_2033_absorbed,
        r.prior_2127_absorbed,
        r.prior_2350_absorbed,
        r.ceremony_closed == (gate_evidence_wired && fuzz_corpus_honest()),
        r.probe == manifold_probe_spec(gate_evidence_wired),
        !r.production_wired,
        !r.l_s5_proof_wired,
{
    proof {
        lemma_ssot_pins();
    }
    SecS4P1800H3Probe {
        h3_job_id: FLEET_P1800_H3_JOB_ID,
        prior_2033_absorbed: str_contains(PRIOR_RECEIPT_PATH_2033, "SEC-S4_2033"),
        prior_2127_absorbed: str_contains(PRIOR_RECEIPT_PATH_2127, "SEC-S4_2127"),
        prior_2350_absorbed: str_contains(PRIOR_RECEIPT_PATH_2350, "S-4_2350"),
        ceremony_closed: manifold_gate_sec_s4_ceremony_closed(gate_evidence_wired),
        probe: sec_s4_gate_manifold_probe(gate_evidence_wired),
        production_wired: sec_s4_production_wired(),
        l_s5_proof_wired: L_S5_PROOF_WIRED_HONEST,
    }
}

/// FLEET-COMPOSER P1800 H3 honesty gate — honest exactly when the ceremony closes.
pub fn sec_s4_p1800_h3_honest(gate_evidence_wired: bool) -> (r: bool)
    ensures
        r == (gate_evidence_wired && fuzz_corpus_honest()),
{
    let probe = sec_s4_p1800_h3_probe(gate_evidence_wired);
    str_eq(probe.h3_job_id, FLEET_P1800_H3_JOB_ID) && probe.prior_2033_absorbed
        && probe.prior_2127_absorbed && probe.prior_2350_absorbed && probe.ceremony_closed
        && probe.probe.gate_evidence_wired && probe.probe.ls5_all_k_v1_probed
        && probe.probe.scrub_roundtrip_verified && probe.probe.mini_fuzz_histogram_exhaustive
        && probe.probe.stride_fuzz_histogram_balanced && probe.probe.fuzz_scrub_sample_verified
        && probe.probe.fuzz_scrub_stride_verified && probe.probe.fuzz_scrub_prop_sample_verified
        && probe.probe.l_s5_proof_honest_false && probe.probe.sled_anomaly_honest_false
        && probe.probe.production_honest_false && probe.probe.wire_hop_wired_count == 5
        && !probe.production_wired && !probe.l_s5_proof_wired
}

/// FLEET-COMPOSER ACCEL-25 AC06 histogram deepen probe.
#[derive(Debug, Clone, Copy, PartialEq, Eq)]
pub struct SecS4AccelAc06Probe {
    pub ac06_job_id: &'static str,
    pub prior_h3_absorbed: bool,
    pub prior_2350_absorbed: bool,
    /// Manifold ceremony close predicate.
    pub ceremony_closed: bool,
    /// Mini fuzz histogram row count.
    pub histogram_row_count: usize,
    pub mini_fuzz_histogram_exhaustive: bool,
    pub stride_fuzz_histogram_balanced: bool,
    pub fuzz_scrub_sample_verified: bool,
    pub fuzz_scrub_stride_verified: bool,
    pub fuzz_scrub_prop_sample_verified: bool,
    /// Underlying gate probe.
    pub probe: SecS4GateManifoldProbe,
}

/// Build the FLEET-COMPOSER ACCEL-25 AC06 histogram deepen probe.
pub fn sec_s4_accel_ac06_probe(gate_evidence_wired: bool) -> (r: SecS4AccelAc06Probe)
    ensures
        r.ac06_job_id == FLEET_ACCEL_AC06_JOB_ID,
        r.prior_h3_absorbed,
        r.prior_2350_absorbed,
        r.ceremony_closed == (gate_evidence_wired && fuzz_corpus_honest()),
        r.histogram_row_count == 8,
        r.mini_fuzz_histogram_exhaustive == hist_exhaustive(8),
        r.stride_fuzz_histogram_balanced == hist_balanced(24),
        r.fuzz_scrub_sample_verified,
        r.fuzz_scrub_stride_verified,
        r.fuzz_scrub_prop_sample_verified,
        r.probe == manifold_probe_spec(gate_evidence_wired),
{
    proof {
        lemma_ssot_pins();
    }
    let mini = manifold_run_mini_fuzz_histogram(MINI_FUZZ_ENTRIES);
    let stride = manifold_run_stride_fuzz_histogram(STRIDE_FUZZ_ENTRIES);
    SecS4AccelAc06Probe {
        ac06_job_id: FLEET_ACCEL_AC06_JOB_ID,
        prior_h3_absorbed: str_contains(FLEET_P1800_H3_RECEIPT_PATH, "COMPOSER_P1800_H3"),
        prior_2350_absorbed: str_contains(PRIOR_RECEIPT_PATH_2350, "S-4_2350"),
        ceremony_closed: manifold_gate_sec_s4_ceremony_closed(gate_evidence_wired),
        histogram_row_count: mini.k_v1_class_histogram.len(),
        mini_fuzz_histogram_exhaustive: mini.k_v1_exhaustive_in_corpus,
        stride_fuzz_histogram_balanced: stride.k_v1_rotor_balanced,
        fuzz_scrub_sample_verified: mini.fuzz_scrub_sample_verified,
        fuzz_scrub_stride_verified: stride.fuzz_scrub_stride_verified,
        fuzz_scrub_prop_sample_verified: stride.fuzz_scrub_prop_sample_verified,
        probe: sec_s4_gate_manifold_probe(gate_evidence_wired),
    }
}

/// FLEET-COMPOSER ACCEL-25 AC06 honesty gate — honest exactly when the ceremony closes.
pub fn sec_s4_accel_ac06_honest(gate_evidence_wired: bool) -> (r: bool)
    ensures
        r == (gate_evidence_wired && fuzz_corpus_honest()),
{
    let probe = sec_s4_accel_ac06_probe(gate_evidence_wired);
    str_eq(probe.ac06_job_id, FLEET_ACCEL_AC06_JOB_ID) && probe.prior_h3_absorbed
        && probe.prior_2350_absorbed && probe.ceremony_closed && probe.histogram_row_count == 8
        && probe.mini_fuzz_histogram_exhaustive && probe.stride_fuzz_histogram_balanced
        && probe.fuzz_scrub_sample_verified && probe.fuzz_scrub_stride_verified
        && probe.fuzz_scrub_prop_sample_verified && probe.probe.gate_evidence_wired
        && probe.probe.ls5_all_k_v1_probed && probe.probe.scrub_roundtrip_verified
        && probe.probe.l_s5_proof_honest_false && probe.probe.sled_anomaly_honest_false
        && probe.probe.production_honest_false && probe.probe.wire_hop_wired_count == 5
}

/// Validate SEC-S4 gate census honesty: `Ok` exactly when the cold-edge evidence admits and
/// the pinned fuzz corpora are honest; otherwise the first failing check's error.
pub fn validate_sec_s4_gate_honesty(gate_evidence_wired: bool) -> (r: Result<(), &'static str>)
    ensures
        !gate_evidence_wired ==> r == Err::<(), &'static str>("gate transition evidence probe failed"),
        gate_evidence_wired && !hist_exhaustive(8) ==> r == Err::<(), &'static str>(
            "mini fuzz histogram must be 8/8 exhaustive at manifold boundary",
        ),
        gate_evidence_wired && hist_exhaustive(8) && !hist_balanced(24) ==> r == Err::<
            (),
            &'static str,
        >("stride fuzz histogram must be balanced at 24 rotors"),
        gate_evidence_wired && fuzz_corpus_honest() ==> r == Ok::<(), &'static str>(()),
{
    let census = gate_side_channel_scrub_census(gate_evidence_wired);
    if census.l_s5_proof_wired {
        return Err("l_s5_proof_wired must stay false until Lean lands");
    }
    if census.sled_anomaly_audit_wired {
        return Err("sled_anomaly_audit_wired must stay false until egoff sled");
    }
    if census.production_wired {
        return Err("sec_s4_production_wired must stay false until SEC-GW-WRAP");
    }
    if !census.gate_evidence_wired {
        return Err("gate transition evidence probe failed");
    }
    if !census.ls5_all_k_v1_probed {
        return Err("L-S5 8/8 K_v1 probes must hit at manifold boundary");
    }
    if !census.scrub_roundtrip_verified {
        return Err("manifold scrub roundtrip witness failed");
    }
    if !census.mini_fuzz_histogram_exhaustive {
        return Err("mini fuzz histogram must be 8/8 exhaustive at manifold boundary");
    }
    if !census.stride_fuzz_histogram_balanced {
        return Err("stride fuzz histogram must be balanced at 24 rotors");
    }
    if !census.fuzz_scrub_sample_verified {
        return Err("fuzz scrub sample witness failed");
    }
    if !census.fuzz_scrub_stride_verified {
        return Err("fuzz scrub stride witness failed");
    }
    if !census.fuzz_scrub_prop_sample_verified {
        return Err("fuzz scrub prop sample witness failed");
    }
    if manifold_sec_s4_gate_wire_hops().len() != 7 {
        return Err("seven SEC-S4 gate wire hops expected");
    }
    if census.wire_hop_wired_count != 5 {
        return Err("five SEC-S4 gate wire hops should be wired today");
    }
    if !manifold_gate_sec_s4_ceremony_closed(gate_evidence_wired) {
        return Err("manifold gate SEC-S4 ceremony must be closed at census tier");
    }
    if !sec_s4_p1800_h3_honest(gate_evidence_wired) {
        return Err("P1800 H3 probe must be honest");
    }
    if !sec_s4_accel_ac06_honest(gate_evidence_wired) {
        return Err("ACCEL AC06 histogram deepen probe must be honest");
    }
    Ok(())
}

/// One rendered line of the SEC-S4 gate wire map.
pub open spec fn hop_row_text() -> spec_fn(SecS4GateWireHop) -> Seq<char> {
    |hop: SecS4GateWireHop| "  "@ + decimal(hop.ordinal as nat) + " wired="@ + bool_text(hop.wired) + " "@ + hop.surface@ + " ["@ + hop.role@ + "]\n"@
}

/// A closing line of the SEC-S4 gate wire map.
pub open spec fn wire_matrix_counts() -> Seq<char> {
    "  wired="@ + decimal(5 as nat) + "/"@ + decimal(7 as nat) + " ls5_all_k_v1_probed="@ + bool_text(true) + " scrub_roundtrip="@ + bool_text(true) + " mini_fuzz_exhaustive="@ + bool_text(hist_exhaustive(8)) + " stride_balanced="@ + bool_text(hist_balanced(24)) + " fuzz_sample="@ + bool_text(true) + " fuzz_stride="@ + bool_text(true) + " fuzz_prop="@ + bool_text(true) + " l_s5_proof_wired="@ + bool_text(false) + " production_wired="@ + bool_text(false) + "\n"@
}

/// A closing line of the SEC-S4 gate wire map.
pub open spec fn wire_matrix_ssots() -> Seq<char> {
    "  trust_ssot="@ + TRUST_SSOT@ + "\n  egoff_sanitize_ssot="@ + EGOFF_SANITIZE_SSOT@ + "\n"@
}

/// The SEC-S4 gate wire map, as rendered for operator receipts.
pub open spec fn wire_matrix_spec() -> Seq<char> {
    "SEC-S4 manifold gate side-channel scrub wire map (H3):\n"@ + wire_hops_spec().map_values(hop_row_text()).flatten() + wire_matrix_counts() + wire_matrix_ssots()
}

/// The hop rows of the SEC-S4 wire map, rendered.
fn wire_matrix_rows() -> (r: String)
    ensures
        r@ == wire_hops_spec().map_values(hop_row_text()).flatten(),
{
    let items = manifold_sec_s4_gate_wire_hops();
    let mut out = String::new();
    let ghost header = out@;
    let mut i: usize = 0;
    while i < items.len()
        invariant
            i <= items.len(),
            items@ == wire_hops_spec(),
            header == Seq::<char>::empty(),
            out@ == header + items@.take(i as int).map_values(hop_row_text()).flatten(),
        decreases items.len() - i,
    {
        proof {
            lemma_flatten_step(items@, hop_row_text(), i as int);
        }
        let hop = items[i];
        push_str(&mut out, "  ");
        push_decimal(&mut out, hop.ordinal as u64);
        push_str(&mut out, " wired=");
        push_bool(&mut out, hop.wired);
        push_str(&mut out, " ");
        push_str(&mut out, hop.surface);
        push_str(&mut out, " [");
        push_str(&mut out, hop.role);
        push_str(&mut out, "]\n");
        assert(out@ == header + items@.take(i + 1).map_values(hop_row_text()).flatten());
        i = i + 1;
    }
    proof {
        lemma_take_all(items@);
    }
    assert(out@ =~= items@.map_values(hop_row_text()).flatten());
    out
}

/// The count and SSOT lines that end the SEC-S4 wire map, rendered.
fn wire_matrix_tail() -> (r: String)
    ensures
        r@ == wire_matrix_counts() + wire_matrix_ssots(),
{
    // The rendered counts read no census field that depends on the cold-edge outcome.
    let census = gate_side_channel_scrub_census(true);
    let hops_len = manifold_sec_s4_gate_wire_hops().len();
    let mut out = String::new();
    push_str(&mut out, "  wired=");
    push_decimal(&mut out, census.wire_hop_wired_count as u64);
    push_str(&mut out, "/");
    push_decimal(&mut out, hops_len as u64);
    push_str(&mut out, " ls5_all_k_v1_probed=");
    push_bool(&mut out, census.ls5_all_k_v1_probed);
    push_str(&mut out, " scrub_roundtrip=");
    push_bool(&mut out, census.scrub_roundtrip_verified);
    push_str(&mut out, " mini_fuzz_exhaustive=");
    push_bool(&mut out, census.mini_fuzz_histogram_exhaustive);
    push_str(&mut out, " stride_balanced=");
    push_bool(&mut out, census.stride_fuzz_histogram_balanced);
    push_str(&mut out, " fuzz_sample=");
    push_bool(&mut out, census.fuzz_scrub_sample_verified);
    push_str(&mut out, " fuzz_stride=");
    push_bool(&mut out, census.fuzz_scrub_stride_verified);
    push_str(&mut out, " fuzz_prop=");
    push_bool(&mut out, census.fuzz_scrub_prop_sample_verified);
    push_str(&mut out, " l_s5_proof_wired=");
    push_bool(&mut out, census.l_s5_proof_wired);
    push_str(&mut out, " production_wired=");
    push_bool(&mut out, census.production_wired);
    push_str(&mut out, "\n");
    assert(out@ =~= wire_matrix_counts());
    let ghost counts = out@;
    push_str(&mut out, "  trust_ssot=");
    push_str(&mut out, TRUST_SSOT);
    push_str(&mut out, "\n  egoff_sanitize_ssot=");
    push_str(&mut out, EGOFF_SANITIZE_SSOT);
    push_str(&mut out, "\n");
    assert(out@ =~= counts + wire_matrix_ssots());
    out
}

/// Render the SEC-S4 gate wire map for operator receipts.
pub fn sec_s4_gate_wire_matrix() -> (r: String)
    ensures
        r@ == wire_matrix_spec(),
{
    let mut out = String::new();
    push_str(&mut out, "SEC-S4 manifold gate side-channel scrub wire map (H3):\n");
    let rows = wire_matrix_rows();
    push_str(&mut out, rows.as_str());
    let tail = wire_matrix_tail();
    push_str(&mut out, tail.as_str());
    assert(out@ =~= wire_matrix_spec());
    out
}

/// Next-hop surface for the L-S5 formal proof (formal-owned).
pub fn sec_s4_l_s5_proof_next_hop() -> (r: &'static str)
    ensures
        r@ == "umst-formal/Lean/Crypto/SanitizePatternCoverage.lean:R-LS5-full"@,
{
    "umst-formal/Lean/Crypto/SanitizePatternCoverage.lean:R-LS5-full"
}

// ---------------------------------------------------------------------------
// The synthetic corpus is honest
// ---------------------------------------------------------------------------

/// No byte of `s`, lower-cased, is `b`.
pub open spec fn lower_absent(s: Seq<u8>, b: u8) -> bool
    decreases s.len(),
{
    if s.len() == 0 {
        true
    } else {
        ascii_lower(s.last()) != b && lower_absent(s.drop_last(), b)
    }
}

/// `lower_absent` holds byte by byte.
proof fn lemma_lower_absent(s: Seq<u8>, b: u8)
    requires
        lower_absent(s, b),
    ensures
        forall|q: int| 0 <= q < s.len() ==> ascii_lower(#[trigger] s[q]) != b,
    decreases s.len(),
{
    if s.len() > 0 {
        lemma_lower_absent(s.drop_last(), b);
        assert forall|q: int| 0 <= q < s.len() implies ascii_lower(#[trigger] s[q]) != b by {
            if q < s.len() - 1 {
                assert(s.drop_last()[q] == s[q]);
            }
        };
    }
}

/// No two adjacent bytes of `s`, lower-cased, are `b1` then `b2`.
pub open spec fn bigram_absent(s: Seq<u8>, b1: u8, b2: u8) -> bool
    decreases s.len(),
{
    if s.len() < 2 {
        true
    } else {
        !(ascii_lower(s[s.len() - 2]) == b1 && ascii_lower(s.last()) == b2) && bigram_absent(
            s.drop_last(),
            b1,
            b2,
        )
    }
}

/// `bigram_absent` holds position by position.
proof fn lemma_bigram_absent(s: Seq<u8>, b1: u8, b2: u8)
    requires
        bigram_absent(s, b1, b2),
    ensures
        forall|q: int| 0 <= q && q + 1 < s.len() ==> !(ascii_lower(#[trigger] s[q]) == b1 && ascii_lower(s[q + 1]) == b2),
    decreases s.len(),
{
    if s.len() >= 2 {
        lemma_bigram_absent(s.drop_last(), b1, b2);
        assert forall|q: int| 0 <= q && q + 1 < s.len() implies !(ascii_lower(#[trigger] s[q]) == b1 && ascii_lower(s[q + 1]) == b2) by {
            if q + 2 < s.len() {
                assert(s.drop_last()[q] == s[q]);
                assert(s.drop_last()[q + 1] == s[q + 1]);
            }
        };
    }
}

/// An ASCII decimal digit.
pub open spec fn digit_byte(b: u8) -> bool {
    48 <= b && b <= 57
}

/// Every byte is an ASCII decimal digit.
pub open spec fn all_digits(d: Seq<u8>) -> bool {
    forall|q: int| 0 <= q < d.len() ==> digit_byte(#[trigger] d[q])
}

/// The decimal digits of a number are digits.
proof fn lemma_dec_bytes_digits(n: nat)
    ensures
        all_digits(dec_bytes(n)),
    decreases n,
{
    if n >= 10 {
        lemma_dec_bytes_digits(n / 10);
        let d = dec_bytes(n / 10);
        assert forall|q: int| 0 <= q < dec_bytes(n).len() implies digit_byte(#[trigger] dec_bytes(n)[q]) by {
            if q < d.len() {
                assert(dec_bytes(n)[q] == d[q]);
            }
        };
    }
}

/// Zero-padding keeps a digit string all digits.
proof fn lemma_zero_pad5_digits(d: Seq<u8>)
    requires
        all_digits(d),
    ensures
        all_digits(zero_pad5(d)),
{
    if d.len() < 5 {
        let z = Seq::new((5 - d.len()) as nat, |_k: int| 48u8);
        assert forall|q: int| 0 <= q < zero_pad5(d).len() implies digit_byte(#[trigger] zero_pad5(d)[q]) by {
            if q >= z.len() {
                assert(zero_pad5(d)[q] == d[q - z.len()]);
            }
        };
    }
}

/// A needle with a (non-digit) byte that occurs nowhere in `p`, `t` or the digits `d` does
/// not occur in `p + t + d`.
proof fn lemma_entry_byte_absent(p: Seq<u8>, t: Seq<u8>, d: Seq<u8>, n: Seq<u8>, k: int)
    requires
        0 <= k < n.len(),
        lower_absent(p, ascii_lower(n[k])),
        lower_absent(t, ascii_lower(n[k])),
        all_digits(d),
        !digit_byte(ascii_lower(n[k])),
    ensures
        !ci_contains(p + t + d, n),
{
    let b = ascii_lower(n[k]);
    let h = p + t + d;
    lemma_lower_absent(p, b);
    lemma_lower_absent(t, b);
    lemma_ci_contains(h, n);
    if ci_contains(h, n) {
        let q = choose|q: int| ci_match_at(h, n, q);
        lemma_ci_match_at(h, n, q);
        assert(ci_byte_agrees(h, n, q, k));
        let x = q + k;
        if x < p.len() {
            assert(h[x] == p[x]);
        } else if x < p.len() + t.len() {
            assert(h[x] == t[x - p.len()]);
        } else {
            assert(h[x] == d[x - p.len() - t.len()]);
            assert(digit_byte(d[x - p.len() - t.len()]));
        }
    }
}

/// A needle with an adjacent byte pair that occurs nowhere in `p`, `t`, across their joins,
/// or in the digits `d` does not occur in `p + t + d`.
proof fn lemma_entry_bigram_absent(p: Seq<u8>, t: Seq<u8>, d: Seq<u8>, n: Seq<u8>, k: int)
    requires
        0 <= k && k + 1 < n.len(),
        p.len() > 0,
        t.len() > 0,
        bigram_absent(p, ascii_lower(n[k]), ascii_lower(n[k + 1])),
        bigram_absent(t, ascii_lower(n[k]), ascii_lower(n[k + 1])),
        all_digits(d),
        !(digit_byte(ascii_lower(n[k])) && digit_byte(ascii_lower(n[k + 1]))),
        !(ascii_lower(p.last()) == ascii_lower(n[k]) && ascii_lower(t[0]) == ascii_lower(n[k + 1])),
        !(ascii_lower(t.last()) == ascii_lower(n[k]) && digit_byte(ascii_lower(n[k + 1]))),
    ensures
        !ci_contains(p + t + d, n),
{
    let b1 = ascii_lower(n[k]);
    let b2 = ascii_lower(n[k + 1]);
    let h = p + t + d;
    lemma_bigram_absent(p, b1, b2);
    lemma_bigram_absent(t, b1, b2);
    lemma_ci_contains(h, n);
    if ci_contains(h, n) {
        let q = choose|q: int| ci_match_at(h, n, q);
        lemma_ci_match_at(h, n, q);
        assert(ci_byte_agrees(h, n, q, k));
        assert(ci_byte_agrees(h, n, q, k + 1));
        let x = q + k;
        let pl = p.len() as int;
        let tl = t.len() as int;
        if x + 1 < pl {
            assert(h[x] == p[x]);
            assert(h[x + 1] == p[x + 1]);
        } else if x + 1 == pl {
            assert(h[x] == p[pl - 1]);
            assert(h[x + 1] == t[0]);
        } else if x + 1 < pl + tl {
            assert(h[x] == t[x - pl]);
            assert(h[x + 1] == t[x + 1 - pl]);
        } else if x + 1 == pl + tl {
            assert(h[x] == t[tl - 1]);
            assert(h[x + 1] == d[0]);
            assert(digit_byte(d[0]));
        } else {
            assert(h[x] == d[x - pl - tl]);
            assert(h[x + 1] == d[x + 1 - pl - tl]);
            assert(digit_byte(d[x - pl - tl]));
            assert(digit_byte(d[x + 1 - pl - tl]));
        }
    }
}

/// An occurrence in the prefix `p` is an occurrence in `p + t + d`.
proof fn lemma_entry_prefix_hit(p: Seq<u8>, t: Seq<u8>, d: Seq<u8>, n: Seq<u8>, q: int)
    requires
        n.len() > 0,
        ci_match_at(p, n, q),
    ensures
        ci_contains(p + t + d, n),
{
    let h = p + t + d;
    lemma_ci_match_at(p, n, q);
    assert forall|k: int| 0 <= k < n.len() implies #[trigger] ci_byte_agrees(h, n, q, k) by {
        assert(ci_byte_agrees(p, n, q, k));
        assert(h[q + k] == p[q + k]);
    };
    lemma_ci_match_at(h, n, q);
    lemma_ci_contains(h, n);
}

/// The class a fuzz rotor plants.
pub open spec fn rotor_class(r: int) -> Kv1PatternClass {
    if r == 0 {
        Kv1PatternClass::MacAddress
    } else     if r == 1 {
        Kv1PatternClass::RaplCorrelatedBytes
    } else     if r == 2 {
        Kv1PatternClass::TimingLeakFingerprint
    } else     if r == 3 {
        Kv1PatternClass::MemoryAccessFingerprint
    } else     if r == 4 {
        Kv1PatternClass::GpuUuidV4
    } else     if r == 5 {
        Kv1PatternClass::CpuinfoSerial
    } else     if r == 6 {
        Kv1PatternClass::IoPlatformSerial
    } else {
        Kv1PatternClass::KernelLeaf
    }
}

/// The rotor that plants a class.
pub open spec fn rotor_index(c: Kv1PatternClass) -> int {
    match c {
        Kv1PatternClass::MacAddress => 0,
        Kv1PatternClass::RaplCorrelatedBytes => 1,
        Kv1PatternClass::TimingLeakFingerprint => 2,
        Kv1PatternClass::MemoryAccessFingerprint => 3,
        Kv1PatternClass::GpuUuidV4 => 4,
        Kv1PatternClass::CpuinfoSerial => 5,
        Kv1PatternClass::IoPlatformSerial => 6,
        Kv1PatternClass::KernelLeaf => 7,
    }
}

#[verifier::rlimit(60)]
proof fn lemma_rotor_0_needle_0(d: Seq<u8>)
    requires
        all_digits(d),
    ensures
        ci_contains(fuzz_class_prefix(0) + fuzz_seed_prefix() + d, scrub_needles()[0]) == true,
{
    reveal_with_fuel(ci_match_from, 40);
    assert(ci_match_at(fuzz_class_prefix(0), scrub_needles()[0], 9));
    lemma_entry_prefix_hit(fuzz_class_prefix(0), fuzz_seed_prefix(), d, scrub_needles()[0], 9);
}

#[verifier::rlimit(60)]
proof fn lemma_rotor_0_needle_1(d: Seq<u8>)
    requires
        all_digits(d),
    ensures
        ci_contains(fuzz_class_prefix(0) + fuzz_seed_prefix() + d, scrub_needles()[1]) == false,
{
    reveal_with_fuel(lower_absent, 45);
    assert(ascii_lower(scrub_needles()[1][3]) == 98u8);
    assert(lower_absent(fuzz_class_prefix(0), 98u8));
    assert(lower_absent(fuzz_seed_prefix(), 98u8));
    lemma_entry_byte_absent(fuzz_class_prefix(0), fuzz_seed_prefix(), d, scrub_needles()[1], 3);
}

#[verifier::rlimit(60)]
proof fn lemma_rotor_0_needle_2(d: Seq<u8>)
    requires
        all_digits(d),
    ensures
        ci_contains(fuzz_class_prefix(0) + fuzz_seed_prefix() + d, scrub_needles()[2]) == false,
{
    reveal_with_fuel(lower_absent, 45);
    assert(ascii_lower(scrub_needles()[2][34]) == 98u8);
    assert(lower_absent(fuzz_class_prefix(0), 98u8));
    assert(lower_absent(fuzz_seed_prefix(), 98u8));
    lemma_entry_byte_absent(fuzz_class_prefix(0), fuzz_seed_prefix(), d, scrub_needles()[2], 34);
}

#[verifier::rlimit(60)]
proof fn lemma_rotor_0_needle_3(d: Seq<u8>)
    requires
        all_digits(d),
    ensures
        ci_contains(fuzz_class_prefix(0) + fuzz_seed_prefix() + d, scrub_needles()[3]) == false,
{
    reveal_with_fuel(lower_absent, 45);
    assert(ascii_lower(scrub_needles()[3][2]) == 112u8);
    assert(lower_absent(fuzz_class_prefix(0), 112u8));
    assert(lower_absent(fuzz_seed_prefix(), 112u8));
    lemma_entry_byte_absent(fuzz_class_prefix(0), fuzz_seed_prefix(), d, scrub_needles()[3], 2);
}

#[verifier::rlimit(60)]
proof fn lemma_rotor_0_needle_4(d: Seq<u8>)
    requires
        all_digits(d),
    ensures
        ci_contains(fuzz_class_prefix(0) + fuzz_seed_prefix() + d, scrub_needles()[4]) == false,
{
    reveal_with_fuel(lower_absent, 45);
    assert(ascii_lower(scrub_needles()[4][3]) == 101u8);
    assert(lower_absent(fuzz_class_prefix(0), 101u8));
    assert(lower_absent(fuzz_seed_prefix(), 101u8));
    lemma_entry_byte_absent(fuzz_class_prefix(0), fuzz_seed_prefix(), d, scrub_needles()[4], 3);
}

#[verifier::rlimit(60)]
proof fn lemma_rotor_0_needle_5(d: Seq<u8>)
    requires
        all_digits(d),
    ensures
        ci_contains(fuzz_class_prefix(0) + fuzz_seed_prefix() + d, scrub_needles()[5]) == false,
{
    reveal_with_fuel(lower_absent, 45);
    assert(ascii_lower(scrub_needles()[5][1]) == 101u8);
    assert(lower_absent(fuzz_class_prefix(0), 101u8));
    assert(lower_absent(fuzz_seed_prefix(), 101u8));
    lemma_entry_byte_absent(fuzz_class_prefix(0), fuzz_seed_prefix(), d, scrub_needles()[5], 1);
}

#[verifier::rlimit(60)]
proof fn lemma_rotor_0_needle_6(d: Seq<u8>)
    requires
        all_digits(d),
    ensures
        ci_contains(fuzz_class_prefix(0) + fuzz_seed_prefix() + d, scrub_needles()[6]) == false,
{
    reveal_with_fuel(lower_absent, 45);
    assert(ascii_lower(scrub_needles()[6][0]) == 114u8);
    assert(lower_absent(fuzz_class_prefix(0), 114u8));
    assert(lower_absent(fuzz_seed_prefix(), 114u8));
    lemma_entry_byte_absent(fuzz_class_prefix(0), fuzz_seed_prefix(), d, scrub_needles()[6], 0);
}

#[verifier::rlimit(60)]
proof fn lemma_rotor_0_needle_7(d: Seq<u8>)
    requires
        all_digits(d),
    ensures
        ci_contains(fuzz_class_prefix(0) + fuzz_seed_prefix() + d, scrub_needles()[7]) == false,
{
    reveal_with_fuel(lower_absent, 45);
    assert(ascii_lower(scrub_needles()[7][0]) == 101u8);
    assert(lower_absent(fuzz_class_prefix(0), 101u8));
    assert(lower_absent(fuzz_seed_prefix(), 101u8));
    lemma_entry_byte_absent(fuzz_class_prefix(0), fuzz_seed_prefix(), d, scrub_needles()[7], 0);
}

#[verifier::rlimit(60)]
proof fn lemma_rotor_0_needle_8(d: Seq<u8>)
    requires
        all_digits(d),
    ensures
        ci_contains(fuzz_class_prefix(0) + fuzz_seed_prefix() + d, scrub_needles()[8]) == false,
{
    reveal_with_fuel(lower_absent, 45);
    assert(ascii_lower(scrub_needles()[8][0]) == 114u8);
    assert(lower_absent(fuzz_class_prefix(0), 114u8));
    assert(lower_absent(fuzz_seed_prefix(), 114u8));
    lemma_entry_byte_absent(fuzz_class_prefix(0), fuzz_seed_prefix(), d, scrub_needles()[8], 0);
}

#[verifier::rlimit(60)]
proof fn lemma_rotor_0_needle_9(d: Seq<u8>)
    requires
        all_digits(d),
    ensures
        ci_contains(fuzz_class_prefix(0) + fuzz_seed_prefix() + d, scrub_needles()[9]) == false,
{
    reveal_with_fuel(lower_absent, 45);
    assert(ascii_lower(scrub_needles()[9][5]) == 103u8);
    assert(lower_absent(fuzz_class_prefix(0), 103u8));
    assert(lower_absent(fuzz_seed_prefix(), 103u8));
    lemma_entry_byte_absent(fuzz_class_prefix(0), fuzz_seed_prefix(), d, scrub_needles()[9], 5);
}

#[verifier::rlimit(60)]
proof fn lemma_rotor_0_needle_10(d: Seq<u8>)
    requires
        all_digits(d),
    ensures
        ci_contains(fuzz_class_prefix(0) + fuzz_seed_prefix() + d, scrub_needles()[10]) == false,
{
    reveal_with_fuel(lower_absent, 45);
    assert(ascii_lower(scrub_needles()[10][4]) == 101u8);
    assert(lower_absent(fuzz_class_prefix(0), 101u8));
    assert(lower_absent(fuzz_seed_prefix(), 101u8));
    lemma_entry_byte_absent(fuzz_class_prefix(0), fuzz_seed_prefix(), d, scrub_needles()[10], 4);
}

#[verifier::rlimit(60)]
proof fn lemma_rotor_0_needle_11(d: Seq<u8>)
    requires
        all_digits(d),
    ensures
        ci_contains(fuzz_class_prefix(0) + fuzz_seed_prefix() + d, scrub_needles()[11]) == false,
{
    reveal_with_fuel(lower_absent, 45);
    assert(ascii_lower(scrub_needles()[11][2]) == 114u8);
    assert(lower_absent(fuzz_class_prefix(0), 114u8));
    assert(lower_absent(fuzz_seed_prefix(), 114u8));
    lemma_entry_byte_absent(fuzz_class_prefix(0), fuzz_seed_prefix(), d, scrub_needles()[11], 2);
}

#[verifier::rlimit(100)]
#[verifier::spinoff_prover]
proof fn lemma_rotor_0_classes(d: Seq<u8>)
    requires
        all_digits(d),
    ensures
        classes_spec(fuzz_class_prefix(0) + fuzz_seed_prefix() + d) == seq![Kv1PatternClass::MacAddress],
{
    let h = fuzz_class_prefix(0) + fuzz_seed_prefix() + d;
    lemma_rotor_0_needle_0(d);
    lemma_rotor_0_needle_1(d);
    lemma_rotor_0_needle_2(d);
    lemma_rotor_0_needle_3(d);
    lemma_rotor_0_needle_4(d);
    lemma_rotor_0_needle_5(d);
    lemma_rotor_0_needle_6(d);
    lemma_rotor_0_needle_7(d);
    lemma_rotor_0_needle_8(d);
    lemma_rotor_0_needle_9(d);
    lemma_rotor_0_needle_10(d);
    lemma_rotor_0_needle_11(d);
    assert(classes_through(h, 0) =~= Seq::<Kv1PatternClass>::empty());
    assert(classes_through(h, 1) =~= seq![Kv1PatternClass::MacAddress]);
    assert(classes_through(h, 2) =~= seq![Kv1PatternClass::MacAddress]);
    assert(classes_through(h, 3) =~= seq![Kv1PatternClass::MacAddress]);
    assert(classes_through(h, 4) =~= seq![Kv1PatternClass::MacAddress]);
    assert(classes_through(h, 5) =~= seq![Kv1PatternClass::MacAddress]);
    assert(classes_through(h, 6) =~= seq![Kv1PatternClass::MacAddress]);
    assert(classes_through(h, 7) =~= seq![Kv1PatternClass::MacAddress]);
    assert(classes_through(h, 8) =~= seq![Kv1PatternClass::MacAddress]);
    assert(classes_through(h, 9) =~= seq![Kv1PatternClass::MacAddress]);
    assert(classes_through(h, 10) =~= seq![Kv1PatternClass::MacAddress]);
    assert(classes_through(h, 11) =~= seq![Kv1PatternClass::MacAddress]);
    assert(classes_through(h, 12) =~= seq![Kv1PatternClass::MacAddress]);
}

#[verifier::rlimit(60)]
proof fn lemma_rotor_1_needle_0(d: Seq<u8>)
    requires
        all_digits(d),
    ensures
        ci_contains(fuzz_class_prefix(1) + fuzz_seed_prefix() + d, scrub_needles()[0]) == false,
{
    reveal_with_fuel(lower_absent, 45);
    assert(ascii_lower(scrub_needles()[0][2]) == 58u8);
    assert(lower_absent(fuzz_class_prefix(1), 58u8));
    assert(lower_absent(fuzz_seed_prefix(), 58u8));
    lemma_entry_byte_absent(fuzz_class_prefix(1), fuzz_seed_prefix(), d, scrub_needles()[0], 2);
}

#[verifier::rlimit(60)]
proof fn lemma_rotor_1_needle_1(d: Seq<u8>)
    requires
        all_digits(d),
    ensures
        ci_contains(fuzz_class_prefix(1) + fuzz_seed_prefix() + d, scrub_needles()[1]) == false,
{
    reveal_with_fuel(lower_absent, 45);
    assert(ascii_lower(scrub_needles()[1][2]) == 58u8);
    assert(lower_absent(fuzz_class_prefix(1), 58u8));
    assert(lower_absent(fuzz_seed_prefix(), 58u8));
    lemma_entry_byte_absent(fuzz_class_prefix(1), fuzz_seed_prefix(), d, scrub_needles()[1], 2);
}

#[verifier::rlimit(60)]
proof fn lemma_rotor_1_needle_2(d: Seq<u8>)
    requires
        all_digits(d),
    ensures
        ci_contains(fuzz_class_prefix(1) + fuzz_seed_prefix() + d, scrub_needles()[2]) == false,
{
    reveal_with_fuel(lower_absent, 45);
    assert(ascii_lower(scrub_needles()[2][34]) == 98u8);
    assert(lower_absent(fuzz_class_prefix(1), 98u8));
    assert(lower_absent(fuzz_seed_prefix(), 98u8));
    lemma_entry_byte_absent(fuzz_class_prefix(1), fuzz_seed_prefix(), d, scrub_needles()[2], 34);
}

#[verifier::rlimit(60)]
proof fn lemma_rotor_1_needle_3(d: Seq<u8>)
    requires
        all_digits(d),
    ensures
        ci_contains(fuzz_class_prefix(1) + fuzz_seed_prefix() + d, scrub_needles()[3]) == false,
{
    reveal_with_fuel(lower_absent, 45);
    assert(ascii_lower(scrub_needles()[3][19]) == 98u8);
    assert(lower_absent(fuzz_class_prefix(1), 98u8));
    assert(lower_absent(fuzz_seed_prefix(), 98u8));
    lemma_entry_byte_absent(fuzz_class_prefix(1), fuzz_seed_prefix(), d, scrub_needles()[3], 19);
}

#[verifier::rlimit(60)]
proof fn lemma_rotor_1_needle_4(d: Seq<u8>)
    requires
        all_digits(d),
    ensures
        ci_contains(fuzz_class_prefix(1) + fuzz_seed_prefix() + d, scrub_needles()[4]) == false,
{
    reveal_with_fuel(lower_absent, 45);
    assert(ascii_lower(scrub_needles()[4][11]) == 58u8);
    assert(lower_absent(fuzz_class_prefix(1), 58u8));
    assert(lower_absent(fuzz_seed_prefix(), 58u8));
    lemma_entry_byte_absent(fuzz_class_prefix(1), fuzz_seed_prefix(), d, scrub_needles()[4], 11);
}

#[verifier::rlimit(60)]
proof fn lemma_rotor_1_needle_5(d: Seq<u8>)
    requires
        all_digits(d),
    ensures
        ci_contains(fuzz_class_prefix(1) + fuzz_seed_prefix() + d, scrub_needles()[5]) == false,
{
    reveal_with_fuel(lower_absent, 45);
    assert(ascii_lower(scrub_needles()[5][7]) == 58u8);
    assert(lower_absent(fuzz_class_prefix(1), 58u8));
    assert(lower_absent(fuzz_seed_prefix(), 58u8));
    lemma_entry_byte_absent(fuzz_class_prefix(1), fuzz_seed_prefix(), d, scrub_needles()[5], 7);
}

#[verifier::rlimit(60)]
proof fn lemma_rotor_1_needle_6(d: Seq<u8>)
    requires
        all_digits(d),
    ensures
        ci_contains(fuzz_class_prefix(1) + fuzz_seed_prefix() + d, scrub_needles()[6]) == true,
{
    reveal_with_fuel(ci_match_from, 40);
    assert(ci_match_at(fuzz_class_prefix(1), scrub_needles()[6], 0));
    lemma_entry_prefix_hit(fuzz_class_prefix(1), fuzz_seed_prefix(), d, scrub_needles()[6], 0);
}

#[verifier::rlimit(60)]
proof fn lemma_rotor_1_needle_7(d: Seq<u8>)
    requires
        all_digits(d),
    ensures
        ci_contains(fuzz_class_prefix(1) + fuzz_seed_prefix() + d, scrub_needles()[7]) == true,
{
    reveal_with_fuel(ci_match_from, 40);
    assert(ci_match_at(fuzz_class_prefix(1), scrub_needles()[7], 5));
    lemma_entry_prefix_hit(fuzz_class_prefix(1), fuzz_seed_prefix(), d, scrub_needles()[7], 5);
}

#[verifier::rlimit(60)]
proof fn lemma_rotor_1_needle_8(d: Seq<u8>)
    requires
        all_digits(d),
    ensures
        ci_contains(fuzz_class_prefix(1) + fuzz_seed_prefix() + d, scrub_needles()[8]) == false,
{
    reveal_with_fuel(lower_absent, 45);
    assert(ascii_lower(scrub_needles()[8][4]) == 99u8);
    assert(lower_absent(fuzz_class_prefix(1), 99u8));
    assert(lower_absent(fuzz_seed_prefix(), 99u8));
    lemma_entry_byte_absent(fuzz_class_prefix(1), fuzz_seed_prefix(), d, scrub_needles()[8], 4);
}

#[verifier::rlimit(60)]
proof fn lemma_rotor_1_needle_9(d: Seq<u8>)
    requires
        all_digits(d),
    ensures
        ci_contains(fuzz_class_prefix(1) + fuzz_seed_prefix() + d, scrub_needles()[9]) == false,
{
    reveal_with_fuel(lower_absent, 45);
    assert(ascii_lower(scrub_needles()[9][7]) == 118u8);
    assert(lower_absent(fuzz_class_prefix(1), 118u8));
    assert(lower_absent(fuzz_seed_prefix(), 118u8));
    lemma_entry_byte_absent(fuzz_class_prefix(1), fuzz_seed_prefix(), d, scrub_needles()[9], 7);
}

#[verifier::rlimit(60)]
proof fn lemma_rotor_1_needle_10(d: Seq<u8>)
    requires
        all_digits(d),
    ensures
        ci_contains(fuzz_class_prefix(1) + fuzz_seed_prefix() + d, scrub_needles()[10]) == false,
{
    reveal_with_fuel(lower_absent, 45);
    assert(ascii_lower(scrub_needles()[10][0]) == 99u8);
    assert(lower_absent(fuzz_class_prefix(1), 99u8));
    assert(lower_absent(fuzz_seed_prefix(), 99u8));
    lemma_entry_byte_absent(fuzz_class_prefix(1), fuzz_seed_prefix(), d, scrub_needles()[10], 0);
}

#[verifier::rlimit(60)]
proof fn lemma_rotor_1_needle_11(d: Seq<u8>)
    requires
        all_digits(d),
    ensures
        ci_contains(fuzz_class_prefix(1) + fuzz_seed_prefix() + d, scrub_needles()[11]) == false,
{
    reveal_with_fuel(lower_absent, 45);
    assert(ascii_lower(scrub_needles()[11][13]) == 99u8);
    assert(lower_absent(fuzz_class_prefix(1), 99u8));
    assert(lower_absent(fuzz_seed_prefix(), 99u8));
    lemma_entry_byte_absent(fuzz_class_prefix(1), fuzz_seed_prefix(), d, scrub_needles()[11], 13);
}

#[verifier::rlimit(100)]
#[verifier::spinoff_prover]
proof fn lemma_rotor_1_classes(d: Seq<u8>)
    requires
        all_digits(d),
    ensures
        classes_spec(fuzz_class_prefix(1) + fuzz_seed_prefix() + d) == seq![Kv1PatternClass::RaplCorrelatedBytes],
{
    let h = fuzz_class_prefix(1) + fuzz_seed_prefix() + d;
    lemma_rotor_1_needle_0(d);
    lemma_rotor_1_needle_1(d);
    lemma_rotor_1_needle_2(d);
    lemma_rotor_1_needle_3(d);
    lemma_rotor_1_needle_4(d);
    lemma_rotor_1_needle_5(d);
    lemma_rotor_1_needle_6(d);
    lemma_rotor_1_needle_7(d);
    lemma_rotor_1_needle_8(d);
    lemma_rotor_1_needle_9(d);
    lemma_rotor_1_needle_10(d);
    lemma_rotor_1_needle_11(d);
    assert(classes_through(h, 0) =~= Seq::<Kv1PatternClass>::empty());
    assert(classes_through(h, 1) =~= Seq::<Kv1PatternClass>::empty());
    assert(classes_through(h, 2) =~= Seq::<Kv1PatternClass>::empty());
    assert(classes_through(h, 3) =~= Seq::<Kv1PatternClass>::empty());
    assert(classes_through(h, 4) =~= Seq::<Kv1PatternClass>::empty());
    assert(classes_through(h, 5) =~= Seq::<Kv1PatternClass>::empty());
    assert(classes_through(h, 6) =~= Seq::<Kv1PatternClass>::empty());
    assert(classes_through(h, 7) =~= seq![Kv1PatternClass::RaplCorrelatedBytes]);
    assert(classes_through(h, 7)[0] == Kv1PatternClass::RaplCorrelatedBytes);
    assert(classes_through(h, 8) =~= seq![Kv1PatternClass::RaplCorrelatedBytes]);
    assert(classes_through(h, 9) =~= seq![Kv1PatternClass::RaplCorrelatedBytes]);
    assert(classes_through(h, 10) =~= seq![Kv1PatternClass::RaplCorrelatedBytes]);
    assert(classes_through(h, 11) =~= seq![Kv1PatternClass::RaplCorrelatedBytes]);
    assert(classes_through(h, 12) =~= seq![Kv1PatternClass::RaplCorrelatedBytes]);
}

#[verifier::rlimit(60)]
proof fn lemma_rotor_2_needle_0(d: Seq<u8>)
    requires
        all_digits(d),
    ensures
        ci_contains(fuzz_class_prefix(2) + fuzz_seed_prefix() + d, scrub_needles()[0]) == false,
{
    reveal_with_fuel(lower_absent, 45);
    assert(ascii_lower(scrub_needles()[0][2]) == 58u8);
    assert(lower_absent(fuzz_class_prefix(2), 58u8));
    assert(lower_absent(fuzz_seed_prefix(), 58u8));
    lemma_entry_byte_absent(fuzz_class_prefix(2), fuzz_seed_prefix(), d, scrub_needles()[0], 2);
}

#[verifier::rlimit(60)]
proof fn lemma_rotor_2_needle_1(d: Seq<u8>)
    requires
        all_digits(d),
    ensures
        ci_contains(fuzz_class_prefix(2) + fuzz_seed_prefix() + d, scrub_needles()[1]) == false,
{
    reveal_with_fuel(lower_absent, 45);
    assert(ascii_lower(scrub_needles()[1][2]) == 58u8);
    assert(lower_absent(fuzz_class_prefix(2), 58u8));
    assert(lower_absent(fuzz_seed_prefix(), 58u8));
    lemma_entry_byte_absent(fuzz_class_prefix(2), fuzz_seed_prefix(), d, scrub_needles()[1], 2);
}

#[verifier::rlimit(60)]
proof fn lemma_rotor_2_needle_2(d: Seq<u8>)
    requires
        all_digits(d),
    ensures
        ci_contains(fuzz_class_prefix(2) + fuzz_seed_prefix() + d, scrub_needles()[2]) == false,
{
    reveal_with_fuel(bigram_absent, 45);
    assert(ascii_lower(scrub_needles()[2][7]) == 56u8);
    assert(ascii_lower(scrub_needles()[2][8]) == 45u8);
    assert(bigram_absent(fuzz_class_prefix(2), 56u8, 45u8));
    assert(bigram_absent(fuzz_seed_prefix(), 56u8, 45u8));
    lemma_entry_bigram_absent(fuzz_class_prefix(2), fuzz_seed_prefix(), d, scrub_needles()[2], 7);
}

#[verifier::rlimit(60)]
proof fn lemma_rotor_2_needle_3(d: Seq<u8>)
    requires
        all_digits(d),
    ensures
        ci_contains(fuzz_class_prefix(2) + fuzz_seed_prefix() + d, scrub_needles()[3]) == false,
{
    reveal_with_fuel(bigram_absent, 45);
    assert(ascii_lower(scrub_needles()[3][0]) == 105u8);
    assert(ascii_lower(scrub_needles()[3][1]) == 111u8);
    assert(bigram_absent(fuzz_class_prefix(2), 105u8, 111u8));
    assert(bigram_absent(fuzz_seed_prefix(), 105u8, 111u8));
    lemma_entry_bigram_absent(fuzz_class_prefix(2), fuzz_seed_prefix(), d, scrub_needles()[3], 0);
}

#[verifier::rlimit(60)]
proof fn lemma_rotor_2_needle_4(d: Seq<u8>)
    requires
        all_digits(d),
    ensures
        ci_contains(fuzz_class_prefix(2) + fuzz_seed_prefix() + d, scrub_needles()[4]) == false,
{
    reveal_with_fuel(lower_absent, 45);
    assert(ascii_lower(scrub_needles()[4][11]) == 58u8);
    assert(lower_absent(fuzz_class_prefix(2), 58u8));
    assert(lower_absent(fuzz_seed_prefix(), 58u8));
    lemma_entry_byte_absent(fuzz_class_prefix(2), fuzz_seed_prefix(), d, scrub_needles()[4], 11);
}

#[verifier::rlimit(60)]
proof fn lemma_rotor_2_needle_5(d: Seq<u8>)
    requires
        all_digits(d),
    ensures
        ci_contains(fuzz_class_prefix(2) + fuzz_seed_prefix() + d, scrub_needles()[5]) == false,
{
    reveal_with_fuel(lower_absent, 45);
    assert(ascii_lower(scrub_needles()[5][7]) == 58u8);
    assert(lower_absent(fuzz_class_prefix(2), 58u8));
    assert(lower_absent(fuzz_seed_prefix(), 58u8));
    lemma_entry_byte_absent(fuzz_class_prefix(2), fuzz_seed_prefix(), d, scrub_needles()[5], 7);
}

#[verifier::rlimit(60)]
proof fn lemma_rotor_2_needle_6(d: Seq<u8>)
    requires
        all_digits(d),
    ensures
        ci_contains(fuzz_class_prefix(2) + fuzz_seed_prefix() + d, scrub_needles()[6]) == false,
{
    reveal_with_fuel(bigram_absent, 45);
    assert(ascii_lower(scrub_needles()[6][0]) == 114u8);
    assert(ascii_lower(scrub_needles()[6][1]) == 97u8);
    assert(bigram_absent(fuzz_class_prefix(2), 114u8, 97u8));
    assert(bigram_absent(fuzz_seed_prefix(), 114u8, 97u8));
    lemma_entry_bigram_absent(fuzz_class_prefix(2), fuzz_seed_prefix(), d, scrub_needles()[6], 0);
}

#[verifier::rlimit(60)]
proof fn lemma_rotor_2_needle_7(d: Seq<u8>)
    requires
        all_digits(d),
    ensures
        ci_contains(fuzz_class_prefix(2) + fuzz_seed_prefix() + d, scrub_needles()[7]) == false,
{
    reveal_with_fuel(lower_absent, 45);
    assert(ascii_lower(scrub_needles()[7][5]) == 121u8);
    assert(lower_absent(fuzz_class_prefix(2), 121u8));
    assert(lower_absent(fuzz_seed_prefix(), 121u8));
    lemma_entry_byte_absent(fuzz_class_prefix(2), fuzz_seed_prefix(), d, scrub_needles()[7], 5);
}

#[verifier::rlimit(60)]
proof fn lemma_rotor_2_needle_8(d: Seq<u8>)
    requires
        all_digits(d),
    ensures
        ci_contains(fuzz_class_prefix(2) + fuzz_seed_prefix() + d, scrub_needles()[8]) == true,
{
    reveal_with_fuel(ci_match_from, 40);
    assert(ci_match_at(fuzz_class_prefix(2), scrub_needles()[8], 0));
    lemma_entry_prefix_hit(fuzz_class_prefix(2), fuzz_seed_prefix(), d, scrub_needles()[8], 0);
}

#[verifier::rlimit(60)]
proof fn lemma_rotor_2_needle_9(d: Seq<u8>)
    requires
        all_digits(d),
    ensures
        ci_contains(fuzz_class_prefix(2) + fuzz_seed_prefix() + d, scrub_needles()[9]) == true,
{
    reveal_with_fuel(ci_match_from, 40);
    assert(ci_match_at(fuzz_class_prefix(2), scrub_needles()[9], 6));
    lemma_entry_prefix_hit(fuzz_class_prefix(2), fuzz_seed_prefix(), d, scrub_needles()[9], 6);
}

#[verifier::rlimit(60)]
proof fn lemma_rotor_2_needle_10(d: Seq<u8>)
    requires
        all_digits(d),
    ensures
        ci_contains(fuzz_class_prefix(2) + fuzz_seed_prefix() + d, scrub_needles()[10]) == false,
{
    reveal_with_fuel(lower_absent, 45);
    assert(ascii_lower(scrub_needles()[10][3]) == 104u8);
    assert(lower_absent(fuzz_class_prefix(2), 104u8));
    assert(lower_absent(fuzz_seed_prefix(), 104u8));
    lemma_entry_byte_absent(fuzz_class_prefix(2), fuzz_seed_prefix(), d, scrub_needles()[10], 3);
}

#[verifier::rlimit(60)]
proof fn lemma_rotor_2_needle_11(d: Seq<u8>)
    requires
        all_digits(d),
    ensures
        ci_contains(fuzz_class_prefix(2) + fuzz_seed_prefix() + d, scrub_needles()[11]) == false,
{
    reveal_with_fuel(lower_absent, 45);
    assert(ascii_lower(scrub_needles()[11][14]) == 104u8);
    assert(lower_absent(fuzz_class_prefix(2), 104u8));
    assert(lower_absent(fuzz_seed_prefix(), 104u8));
    lemma_entry_byte_absent(fuzz_class_prefix(2), fuzz_seed_prefix(), d, scrub_needles()[11], 14);
}

#[verifier::rlimit(100)]
#[verifier::spinoff_prover]
proof fn lemma_rotor_2_classes(d: Seq<u8>)
    requires
        all_digits(d),
    ensures
        classes_spec(fuzz_class_prefix(2) + fuzz_seed_prefix() + d) == seq![Kv1PatternClass::TimingLeakFingerprint],
{
    let h = fuzz_class_prefix(2) + fuzz_seed_prefix() + d;
    lemma_rotor_2_needle_0(d);
    lemma_rotor_2_needle_1(d);
    lemma_rotor_2_needle_2(d);
    lemma_rotor_2_needle_3(d);
    lemma_rotor_2_needle_4(d);
    lemma_rotor_2_needle_5(d);
    lemma_rotor_2_needle_6(d);
    lemma_rotor_2_needle_7(d);
    lemma_rotor_2_needle_8(d);
    lemma_rotor_2_needle_9(d);
    lemma_rotor_2_needle_10(d);
    lemma_rotor_2_needle_11(d);
    assert(classes_through(h, 0) =~= Seq::<Kv1PatternClass>::empty());
    assert(classes_through(h, 1) =~= Seq::<Kv1PatternClass>::empty());
    assert(classes_through(h, 2) =~= Seq::<Kv1PatternClass>::empty());
    assert(classes_through(h, 3) =~= Seq::<Kv1PatternClass>::empty());
    assert(classes_through(h, 4) =~= Seq::<Kv1PatternClass>::empty());
    assert(classes_through(h, 5) =~= Seq::<Kv1PatternClass>::empty());
    assert(classes_through(h, 6) =~= Seq::<Kv1PatternClass>::empty());
    assert(classes_through(h, 7) =~= Seq::<Kv1PatternClass>::empty());
    assert(classes_through(h, 8) =~= Seq::<Kv1PatternClass>::empty());
    assert(classes_through(h, 9) =~= seq![Kv1PatternClass::TimingLeakFingerprint]);
    assert(classes_through(h, 9)[0] == Kv1PatternClass::TimingLeakFingerprint);
    assert(classes_through(h, 10) =~= seq![Kv1PatternClass::TimingLeakFingerprint]);
    assert(classes_through(h, 11) =~= seq![Kv1PatternClass::TimingLeakFingerprint]);
    assert(classes_through(h, 12) =~= seq![Kv1PatternClass::TimingLeakFingerprint]);
}

#[verifier::rlimit(60)]
proof fn lemma_rotor_3_needle_0(d: Seq<u8>)
    requires
        all_digits(d),
    ensures
        ci_contains(fuzz_class_prefix(3) + fuzz_seed_prefix() + d, scrub_needles()[0]) == false,
{
    reveal_with_fuel(lower_absent, 45);
    assert(ascii_lower(scrub_needles()[0][2]) == 58u8);
    assert(lower_absent(fuzz_class_prefix(3), 58u8));
    assert(lower_absent(fuzz_seed_prefix(), 58u8));
    lemma_entry_byte_absent(fuzz_class_prefix(3), fuzz_seed_prefix(), d, scrub_needles()[0], 2);
}

#[verifier::rlimit(60)]
proof fn lemma_rotor_3_needle_1(d: Seq<u8>)
    requires
        all_digits(d),
    ensures
        ci_contains(fuzz_class_prefix(3) + fuzz_seed_prefix() + d, scrub_needles()[1]) == false,
{
    reveal_with_fuel(lower_absent, 45);
    assert(ascii_lower(scrub_needles()[1][2]) == 58u8);
    assert(lower_absent(fuzz_class_prefix(3), 58u8));
    assert(lower_absent(fuzz_seed_prefix(), 58u8));
    lemma_entry_byte_absent(fuzz_class_prefix(3), fuzz_seed_prefix(), d, scrub_needles()[1], 2);
}

#[verifier::rlimit(60)]
proof fn lemma_rotor_3_needle_2(d: Seq<u8>)
    requires
        all_digits(d),
    ensures
        ci_contains(fuzz_class_prefix(3) + fuzz_seed_prefix() + d, scrub_needles()[2]) == false,
{
    reveal_with_fuel(lower_absent, 45);
    assert(ascii_lower(scrub_needles()[2][34]) == 98u8);
    assert(lower_absent(fuzz_class_prefix(3), 98u8));
    assert(lower_absent(fuzz_seed_prefix(), 98u8));
    lemma_entry_byte_absent(fuzz_class_prefix(3), fuzz_seed_prefix(), d, scrub_needles()[2], 34);
}

#[verifier::rlimit(60)]
proof fn lemma_rotor_3_needle_3(d: Seq<u8>)
    requires
        all_digits(d),
    ensures
        ci_contains(fuzz_class_prefix(3) + fuzz_seed_prefix() + d, scrub_needles()[3]) == false,
{
    reveal_with_fuel(lower_absent, 45);
    assert(ascii_lower(scrub_needles()[3][19]) == 98u8);
    assert(lower_absent(fuzz_class_prefix(3), 98u8));
    assert(lower_absent(fuzz_seed_prefix(), 98u8));
    lemma_entry_byte_absent(fuzz_class_prefix(3), fuzz_seed_prefix(), d, scrub_needles()[3], 19);
}

#[verifier::rlimit(60)]
proof fn lemma_rotor_3_needle_4(d: Seq<u8>)
    requires
        all_digits(d),
    ensures
        ci_contains(fuzz_class_prefix(3) + fuzz_seed_prefix() + d, scrub_needles()[4]) == false,
{
    reveal_with_fuel(lower_absent, 45);
    assert(ascii_lower(scrub_needles()[4][11]) == 58u8);
    assert(lower_absent(fuzz_class_prefix(3), 58u8));
    assert(lower_absent(fuzz_seed_prefix(), 58u8));
    lemma_entry_byte_absent(fuzz_class_prefix(3), fuzz_seed_prefix(), d, scrub_needles()[4], 11);
}

#[verifier::rlimit(60)]
proof fn lemma_rotor_3_needle_5(d: Seq<u8>)
    requires
        all_digits(d),
    ensures
        ci_contains(fuzz_class_prefix(3) + fuzz_seed_prefix() + d, scrub_needles()[5]) == false,
{
    reveal_with_fuel(lower_absent, 45);
    assert(ascii_lower(scrub_needles()[5][7]) == 58u8);
    assert(lower_absent(fuzz_class_prefix(3), 58u8));
    assert(lower_absent(fuzz_seed_prefix(), 58u8));
    lemma_entry_byte_absent(fuzz_class_prefix(3), fuzz_seed_prefix(), d, scrub_needles()[5], 7);
}

#[verifier::rlimit(60)]
proof fn lemma_rotor_3_needle_6(d: Seq<u8>)
    requires
        all_digits(d),
    ensures
        ci_contains(fuzz_class_prefix(3) + fuzz_seed_prefix() + d, scrub_needles()[6]) == false,
{
    reveal_with_fuel(bigram_absent, 45);
    assert(ascii_lower(scrub_needles()[6][0]) == 114u8);
    assert(ascii_lower(scrub_needles()[6][1]) == 97u8);
    assert(bigram_absent(fuzz_class_prefix(3), 114u8, 97u8));
    assert(bigram_absent(fuzz_seed_prefix(), 114u8, 97u8));
    lemma_entry_bigram_absent(fuzz_class_prefix(3), fuzz_seed_prefix(), d, scrub_needles()[6], 0);
}

#[verifier::rlimit(60)]
proof fn lemma_rotor_3_needle_7(d: Seq<u8>)
    requires
        all_digits(d),
    ensures
        ci_contains(fuzz_class_prefix(3) + fuzz_seed_prefix() + d, scrub_needles()[7]) == false,
{
    reveal_with_fuel(lower_absent, 45);
    assert(ascii_lower(scrub_needles()[7][4]) == 103u8);
    assert(lower_absent(fuzz_class_prefix(3), 103u8));
    assert(lower_absent(fuzz_seed_prefix(), 103u8));
    lemma_entry_byte_absent(fuzz_class_prefix(3), fuzz_seed_prefix(), d, scrub_needles()[7], 4);
}

#[verifier::rlimit(60)]
proof fn lemma_rotor_3_needle_8(d: Seq<u8>)
    requires
        all_digits(d),
    ensures
        ci_contains(fuzz_class_prefix(3) + fuzz_seed_prefix() + d, scrub_needles()[8]) == false,
{
    reveal_with_fuel(bigram_absent, 45);
    assert(ascii_lower(scrub_needles()[8][0]) == 114u8);
    assert(ascii_lower(scrub_needles()[8][1]) == 100u8);
    assert(bigram_absent(fuzz_class_prefix(3), 114u8, 100u8));
    assert(bigram_absent(fuzz_seed_prefix(), 114u8, 100u8));
    lemma_entry_bigram_absent(fuzz_class_prefix(3), fuzz_seed_prefix(), d, scrub_needles()[8], 0);
}

#[verifier::rlimit(60)]
proof fn lemma_rotor_3_needle_9(d: Seq<u8>)
    requires
        all_digits(d),
    ensures
        ci_contains(fuzz_class_prefix(3) + fuzz_seed_prefix() + d, scrub_needles()[9]) == false,
{
    reveal_with_fuel(lower_absent, 45);
    assert(ascii_lower(scrub_needles()[9][5]) == 103u8);
    assert(lower_absent(fuzz_class_prefix(3), 103u8));
    assert(lower_absent(fuzz_seed_prefix(), 103u8));
    lemma_entry_byte_absent(fuzz_class_prefix(3), fuzz_seed_prefix(), d, scrub_needles()[9], 5);
}

#[verifier::rlimit(60)]
proof fn lemma_rotor_3_needle_10(d: Seq<u8>)
    requires
        all_digits(d),
    ensures
        ci_contains(fuzz_class_prefix(3) + fuzz_seed_prefix() + d, scrub_needles()[10]) == true,
{
    reveal_with_fuel(ci_match_from, 40);
    assert(ci_match_at(fuzz_class_prefix(3), scrub_needles()[10], 0));
    lemma_entry_prefix_hit(fuzz_class_prefix(3), fuzz_seed_prefix(), d, scrub_needles()[10], 0);
}

#[verifier::rlimit(60)]
proof fn lemma_rotor_3_needle_11(d: Seq<u8>)
    requires
        all_digits(d),
    ensures
        ci_contains(fuzz_class_prefix(3) + fuzz_seed_prefix() + d, scrub_needles()[11]) == true,
{
    reveal_with_fuel(ci_match_from, 40);
    assert(ci_match_at(fuzz_class_prefix(3), scrub_needles()[11], 11));
    lemma_entry_prefix_hit(fuzz_class_prefix(3), fuzz_seed_prefix(), d, scrub_needles()[11], 11);
}

#[verifier::rlimit(100)]
#[verifier::spinoff_prover]
proof fn lemma_rotor_3_classes(d: Seq<u8>)
    requires
        all_digits(d),
    ensures
        classes_spec(fuzz_class_prefix(3) + fuzz_seed_prefix() + d) == seq![Kv1PatternClass::MemoryAccessFingerprint],
{
    let h = fuzz_class_prefix(3) + fuzz_seed_prefix() + d;
    lemma_rotor_3_needle_0(d);
    lemma_rotor_3_needle_1(d);
    lemma_rotor_3_needle_2(d);
    lemma_rotor_3_needle_3(d);
    lemma_rotor_3_needle_4(d);
    lemma_rotor_3_needle_5(d);
    lemma_rotor_3_needle_6(d);
    lemma_rotor_3_needle_7(d);
    lemma_rotor_3_needle_8(d);
    lemma_rotor_3_needle_9(d);
    lemma_rotor_3_needle_10(d);
    lemma_rotor_3_needle_11(d);
    assert(classes_through(h, 0) =~= Seq::<Kv1PatternClass>::empty());
    assert(classes_through(h, 1) =~= Seq::<Kv1PatternClass>::empty());
    assert(classes_through(h, 2) =~= Seq::<Kv1PatternClass>::empty());
    assert(classes_through(h, 3) =~= Seq::<Kv1PatternClass>::empty());
    assert(classes_through(h, 4) =~= Seq::<Kv1PatternClass>::empty());
    assert(classes_through(h, 5) =~= Seq::<Kv1PatternClass>::empty());
    assert(classes_through(h, 6) =~= Seq::<Kv1PatternClass>::empty());
    assert(classes_through(h, 7) =~= Seq::<Kv1PatternClass>::empty());
    assert(classes_through(h, 8) =~= Seq::<Kv1PatternClass>::empty());
    assert(classes_through(h, 9) =~= Seq::<Kv1PatternClass>::empty());
    assert(classes_through(h, 10) =~= Seq::<Kv1PatternClass>::empty());
    assert(classes_through(h, 11) =~= seq![Kv1PatternClass::MemoryAccessFingerprint]);
    assert(classes_through(h, 11)[0] == Kv1PatternClass::MemoryAccessFingerprint);
    assert(classes_through(h, 12) =~= seq![Kv1PatternClass::MemoryAccessFingerprint]);
}

#[verifier::rlimit(60)]
proof fn lemma_rotor_4_needle_0(d: Seq<u8>)
    requires
        all_digits(d),
    ensures
        ci_contains(fuzz_class_prefix(4) + fuzz_seed_prefix() + d, scrub_needles()[0]) == false,
{
    reveal_with_fuel(lower_absent, 45);
    assert(ascii_lower(scrub_needles()[0][2]) == 58u8);
    assert(lower_absent(fuzz_class_prefix(4), 58u8));
    assert(lower_absent(fuzz_seed_prefix(), 58u8));
    lemma_entry_byte_absent(fuzz_class_prefix(4), fuzz_seed_prefix(), d, scrub_needles()[0], 2);
}

#[verifier::rlimit(60)]
proof fn lemma_rotor_4_needle_1(d: Seq<u8>)
    requires
        all_digits(d),
    ensures
        ci_contains(fuzz_class_prefix(4) + fuzz_seed_prefix() + d, scrub_needles()[1]) == false,
{
    reveal_with_fuel(lower_absent, 45);
    assert(ascii_lower(scrub_needles()[1][2]) == 58u8);
    assert(lower_absent(fuzz_class_prefix(4), 58u8));
    assert(lower_absent(fuzz_seed_prefix(), 58u8));
    lemma_entry_byte_absent(fuzz_class_prefix(4), fuzz_seed_prefix(), d, scrub_needles()[1], 2);
}

#[verifier::rlimit(60)]
proof fn lemma_rotor_4_needle_2(d: Seq<u8>)
    requires
        all_digits(d),
    ensures
        ci_contains(fuzz_class_prefix(4) + fuzz_seed_prefix() + d, scrub_needles()[2]) == true,
{
    reveal_with_fuel(ci_match_from, 40);
    assert(ci_match_at(fuzz_class_prefix(4), scrub_needles()[2], 4));
    lemma_entry_prefix_hit(fuzz_class_prefix(4), fuzz_seed_prefix(), d, scrub_needles()[2], 4);
}

#[verifier::rlimit(60)]
proof fn lemma_rotor_4_needle_3(d: Seq<u8>)
    requires
        all_digits(d),
    ensures
        ci_contains(fuzz_class_prefix(4) + fuzz_seed_prefix() + d, scrub_needles()[3]) == false,
{
    reveal_with_fuel(lower_absent, 45);
    assert(ascii_lower(scrub_needles()[3][8]) == 114u8);
    assert(lower_absent(fuzz_class_prefix(4), 114u8));
    assert(lower_absent(fuzz_seed_prefix(), 114u8));
    lemma_entry_byte_absent(fuzz_class_prefix(4), fuzz_seed_prefix(), d, scrub_needles()[3], 8);
}

#[verifier::rlimit(60)]
proof fn lemma_rotor_4_needle_4(d: Seq<u8>)
    requires
        all_digits(d),
    ensures
        ci_contains(fuzz_class_prefix(4) + fuzz_seed_prefix() + d, scrub_needles()[4]) == false,
{
    reveal_with_fuel(lower_absent, 45);
    assert(ascii_lower(scrub_needles()[4][3]) == 101u8);
    assert(lower_absent(fuzz_class_prefix(4), 101u8));
    assert(lower_absent(fuzz_seed_prefix(), 101u8));
    lemma_entry_byte_absent(fuzz_class_prefix(4), fuzz_seed_prefix(), d, scrub_needles()[4], 3);
}

#[verifier::rlimit(60)]
proof fn lemma_rotor_4_needle_5(d: Seq<u8>)
    requires
        all_digits(d),
    ensures
        ci_contains(fuzz_class_prefix(4) + fuzz_seed_prefix() + d, scrub_needles()[5]) == false,
{
    reveal_with_fuel(lower_absent, 45);
    assert(ascii_lower(scrub_needles()[5][1]) == 101u8);
    assert(lower_absent(fuzz_class_prefix(4), 101u8));
    assert(lower_absent(fuzz_seed_prefix(), 101u8));
    lemma_entry_byte_absent(fuzz_class_prefix(4), fuzz_seed_prefix(), d, scrub_needles()[5], 1);
}

#[verifier::rlimit(60)]
proof fn lemma_rotor_4_needle_6(d: Seq<u8>)
    requires
        all_digits(d),
    ensures
        ci_contains(fuzz_class_prefix(4) + fuzz_seed_prefix() + d, scrub_needles()[6]) == false,
{
    reveal_with_fuel(lower_absent, 45);
    assert(ascii_lower(scrub_needles()[6][0]) == 114u8);
    assert(lower_absent(fuzz_class_prefix(4), 114u8));
    assert(lower_absent(fuzz_seed_prefix(), 114u8));
    lemma_entry_byte_absent(fuzz_class_prefix(4), fuzz_seed_prefix(), d, scrub_needles()[6], 0);
}

#[verifier::rlimit(60)]
proof fn lemma_rotor_4_needle_7(d: Seq<u8>)
    requires
        all_digits(d),
    ensures
        ci_contains(fuzz_class_prefix(4) + fuzz_seed_prefix() + d, scrub_needles()[7]) == false,
{
    reveal_with_fuel(lower_absent, 45);
    assert(ascii_lower(scrub_needles()[7][0]) == 101u8);
    assert(lower_absent(fuzz_class_prefix(4), 101u8));
    assert(lower_absent(fuzz_seed_prefix(), 101u8));
    lemma_entry_byte_absent(fuzz_class_prefix(4), fuzz_seed_prefix(), d, scrub_needles()[7], 0);
}

#[verifier::rlimit(60)]
proof fn lemma_rotor_4_needle_8(d: Seq<u8>)
    requires
        all_digits(d),
    ensures
        ci_contains(fuzz_class_prefix(4) + fuzz_seed_prefix() + d, scrub_needles()[8]) == false,
{
    reveal_with_fuel(lower_absent, 45);
    assert(ascii_lower(scrub_needles()[8][0]) == 114u8);
    assert(lower_absent(fuzz_class_prefix(4), 114u8));
    assert(lower_absent(fuzz_seed_prefix(), 114u8));
    lemma_entry_byte_absent(fuzz_class_prefix(4), fuzz_seed_prefix(), d, scrub_needles()[8], 0);
}

#[verifier::rlimit(60)]
proof fn lemma_rotor_4_needle_9(d: Seq<u8>)
    requires
        all_digits(d),
    ensures
        ci_contains(fuzz_class_prefix(4) + fuzz_seed_prefix() + d, scrub_needles()[9]) == false,
{
    reveal_with_fuel(lower_absent, 45);
    assert(ascii_lower(scrub_needles()[9][6]) == 95u8);
    assert(lower_absent(fuzz_class_prefix(4), 95u8));
    assert(lower_absent(fuzz_seed_prefix(), 95u8));
    lemma_entry_byte_absent(fuzz_class_prefix(4), fuzz_seed_prefix(), d, scrub_needles()[9], 6);
}

#[verifier::rlimit(60)]
proof fn lemma_rotor_4_needle_10(d: Seq<u8>)
    requires
        all_digits(d),
    ensures
        ci_contains(fuzz_class_prefix(4) + fuzz_seed_prefix() + d, scrub_needles()[10]) == false,
{
    reveal_with_fuel(lower_absent, 45);
    assert(ascii_lower(scrub_needles()[10][3]) == 104u8);
    assert(lower_absent(fuzz_class_prefix(4), 104u8));
    assert(lower_absent(fuzz_seed_prefix(), 104u8));
    lemma_entry_byte_absent(fuzz_class_prefix(4), fuzz_seed_prefix(), d, scrub_needles()[10], 3);
}

#[verifier::rlimit(60)]
proof fn lemma_rotor_4_needle_11(d: Seq<u8>)
    requires
        all_digits(d),
    ensures
        ci_contains(fuzz_class_prefix(4) + fuzz_seed_prefix() + d, scrub_needles()[11]) == false,
{
    reveal_with_fuel(lower_absent, 45);
    assert(ascii_lower(scrub_needles()[11][2]) == 114u8);
    assert(lower_absent(fuzz_class_prefix(4), 114u8));
    assert(lower_absent(fuzz_seed_prefix(), 114u8));
    lemma_entry_byte_absent(fuzz_class_prefix(4), fuzz_seed_prefix(), d, scrub_needles()[11], 2);
}

#[verifier::rlimit(100)]
#[verifier::spinoff_prover]
proof fn lemma_rotor_4_classes(d: Seq<u8>)
    requires
        all_digits(d),
    ensures
        classes_spec(fuzz_class_prefix(4) + fuzz_seed_prefix() + d) == seq![Kv1PatternClass::GpuUuidV4],
{
    let h = fuzz_class_prefix(4) + fuzz_seed_prefix() + d;
    lemma_rotor_4_needle_0(d);
    lemma_rotor_4_needle_1(d);
    lemma_rotor_4_needle_2(d);
    lemma_rotor_4_needle_3(d);
    lemma_rotor_4_needle_4(d);
    lemma_rotor_4_needle_5(d);
    lemma_rotor_4_needle_6(d);
    lemma_rotor_4_needle_7(d);
    lemma_rotor_4_needle_8(d);
    lemma_rotor_4_needle_9(d);
    lemma_rotor_4_needle_10(d);
    lemma_rotor_4_needle_11(d);
    assert(classes_through(h, 0) =~= Seq::<Kv1PatternClass>::empty());
    assert(classes_through(h, 1) =~= Seq::<Kv1PatternClass>::empty());
    assert(classes_through(h, 2) =~= Seq::<Kv1PatternClass>::empty());
    assert(classes_through(h, 3) =~= seq![Kv1PatternClass::GpuUuidV4]);
    assert(classes_through(h, 4) =~= seq![Kv1PatternClass::GpuUuidV4]);
    assert(classes_through(h, 5) =~= seq![Kv1PatternClass::GpuUuidV4]);
    assert(classes_through(h, 6) =~= seq![Kv1PatternClass::GpuUuidV4]);
    assert(classes_through(h, 7) =~= seq![Kv1PatternClass::GpuUuidV4]);
    assert(classes_through(h, 8) =~= seq![Kv1PatternClass::GpuUuidV4]);
    assert(classes_through(h, 9) =~= seq![Kv1PatternClass::GpuUuidV4]);
    assert(classes_through(h, 10) =~= seq![Kv1PatternClass::GpuUuidV4]);
    assert(classes_through(h, 11) =~= seq![Kv1PatternClass::GpuUuidV4]);
    assert(classes_through(h, 12) =~= seq![Kv1PatternClass::GpuUuidV4]);
}

#[verifier::rlimit(60)]
proof fn lemma_rotor_5_needle_0(d: Seq<u8>)
    requires
        all_digits(d),
    ensures
        ci_contains(fuzz_class_prefix(5) + fuzz_seed_prefix() + d, scrub_needles()[0]) == false,
{
    reveal_with_fuel(bigram_absent, 45);
    assert(ascii_lower(scrub_needles()[0][1]) == 48u8);
    assert(ascii_lower(scrub_needles()[0][2]) == 58u8);
    assert(bigram_absent(fuzz_class_prefix(5), 48u8, 58u8));
    assert(bigram_absent(fuzz_seed_prefix(), 48u8, 58u8));
    lemma_entry_bigram_absent(fuzz_class_prefix(5), fuzz_seed_prefix(), d, scrub_needles()[0], 1);
}

#[verifier::rlimit(60)]
proof fn lemma_rotor_5_needle_1(d: Seq<u8>)
    requires
        all_digits(d),
    ensures
        ci_contains(fuzz_class_prefix(5) + fuzz_seed_prefix() + d, scrub_needles()[1]) == false,
{
    reveal_with_fuel(bigram_absent, 45);
    assert(ascii_lower(scrub_needles()[1][0]) == 97u8);
    assert(ascii_lower(scrub_needles()[1][1]) == 97u8);
    assert(bigram_absent(fuzz_class_prefix(5), 97u8, 97u8));
    assert(bigram_absent(fuzz_seed_prefix(), 97u8, 97u8));
    lemma_entry_bigram_absent(fuzz_class_prefix(5), fuzz_seed_prefix(), d, scrub_needles()[1], 0);
}

#[verifier::rlimit(60)]
proof fn lemma_rotor_5_needle_2(d: Seq<u8>)
    requires
        all_digits(d),
    ensures
        ci_contains(fuzz_class_prefix(5) + fuzz_seed_prefix() + d, scrub_needles()[2]) == false,
{
    reveal_with_fuel(bigram_absent, 45);
    assert(ascii_lower(scrub_needles()[2][7]) == 56u8);
    assert(ascii_lower(scrub_needles()[2][8]) == 45u8);
    assert(bigram_absent(fuzz_class_prefix(5), 56u8, 45u8));
    assert(bigram_absent(fuzz_seed_prefix(), 56u8, 45u8));
    lemma_entry_bigram_absent(fuzz_class_prefix(5), fuzz_seed_prefix(), d, scrub_needles()[2], 7);
}

#[verifier::rlimit(60)]
proof fn lemma_rotor_5_needle_3(d: Seq<u8>)
    requires
        all_digits(d),
    ensures
        ci_contains(fuzz_class_prefix(5) + fuzz_seed_prefix() + d, scrub_needles()[3]) == false,
{
    reveal_with_fuel(lower_absent, 45);
    assert(ascii_lower(scrub_needles()[3][2]) == 112u8);
    assert(lower_absent(fuzz_class_prefix(5), 112u8));
    assert(lower_absent(fuzz_seed_prefix(), 112u8));
    lemma_entry_byte_absent(fuzz_class_prefix(5), fuzz_seed_prefix(), d, scrub_needles()[3], 2);
}

#[verifier::rlimit(60)]
proof fn lemma_rotor_5_needle_4(d: Seq<u8>)
    requires
        all_digits(d),
    ensures
        ci_contains(fuzz_class_prefix(5) + fuzz_seed_prefix() + d, scrub_needles()[4]) == false,
{
    reveal_with_fuel(bigram_absent, 45);
    assert(ascii_lower(scrub_needles()[4][0]) == 109u8);
    assert(ascii_lower(scrub_needles()[4][1]) == 111u8);
    assert(bigram_absent(fuzz_class_prefix(5), 109u8, 111u8));
    assert(bigram_absent(fuzz_seed_prefix(), 109u8, 111u8));
    lemma_entry_bigram_absent(fuzz_class_prefix(5), fuzz_seed_prefix(), d, scrub_needles()[4], 0);
}

#[verifier::rlimit(60)]
proof fn lemma_rotor_5_needle_5(d: Seq<u8>)
    requires
        all_digits(d),
    ensures
        ci_contains(fuzz_class_prefix(5) + fuzz_seed_prefix() + d, scrub_needles()[5]) == true,
{
    reveal_with_fuel(ci_match_from, 40);
    assert(ci_match_at(fuzz_class_prefix(5), scrub_needles()[5], 0));
    lemma_entry_prefix_hit(fuzz_class_prefix(5), fuzz_seed_prefix(), d, scrub_needles()[5], 0);
}

#[verifier::rlimit(60)]
proof fn lemma_rotor_5_needle_6(d: Seq<u8>)
    requires
        all_digits(d),
    ensures
        ci_contains(fuzz_class_prefix(5) + fuzz_seed_prefix() + d, scrub_needles()[6]) == false,
{
    reveal_with_fuel(lower_absent, 45);
    assert(ascii_lower(scrub_needles()[6][2]) == 112u8);
    assert(lower_absent(fuzz_class_prefix(5), 112u8));
    assert(lower_absent(fuzz_seed_prefix(), 112u8));
    lemma_entry_byte_absent(fuzz_class_prefix(5), fuzz_seed_prefix(), d, scrub_needles()[6], 2);
}

#[verifier::rlimit(60)]
proof fn lemma_rotor_5_needle_7(d: Seq<u8>)
    requires
        all_digits(d),
    ensures
        ci_contains(fuzz_class_prefix(5) + fuzz_seed_prefix() + d, scrub_needles()[7]) == false,
{
    reveal_with_fuel(lower_absent, 45);
    assert(ascii_lower(scrub_needles()[7][4]) == 103u8);
    assert(lower_absent(fuzz_class_prefix(5), 103u8));
    assert(lower_absent(fuzz_seed_prefix(), 103u8));
    lemma_entry_byte_absent(fuzz_class_prefix(5), fuzz_seed_prefix(), d, scrub_needles()[7], 4);
}

#[verifier::rlimit(60)]
proof fn lemma_rotor_5_needle_8(d: Seq<u8>)
    requires
        all_digits(d),
    ensures
        ci_contains(fuzz_class_prefix(5) + fuzz_seed_prefix() + d, scrub_needles()[8]) == false,
{
    reveal_with_fuel(bigram_absent, 45);
    assert(ascii_lower(scrub_needles()[8][0]) == 114u8);
    assert(ascii_lower(scrub_needles()[8][1]) == 100u8);
    assert(bigram_absent(fuzz_class_prefix(5), 114u8, 100u8));
    assert(bigram_absent(fuzz_seed_prefix(), 114u8, 100u8));
    lemma_entry_bigram_absent(fuzz_class_prefix(5), fuzz_seed_prefix(), d, scrub_needles()[8], 0);
}

#[verifier::rlimit(60)]
proof fn lemma_rotor_5_needle_9(d: Seq<u8>)
    requires
        all_digits(d),
    ensures
        ci_contains(fuzz_class_prefix(5) + fuzz_seed_prefix() + d, scrub_needles()[9]) == false,
{
    reveal_with_fuel(lower_absent, 45);
    assert(ascii_lower(scrub_needles()[9][5]) == 103u8);
    assert(lower_absent(fuzz_class_prefix(5), 103u8));
    assert(lower_absent(fuzz_seed_prefix(), 103u8));
    lemma_entry_byte_absent(fuzz_class_prefix(5), fuzz_seed_prefix(), d, scrub_needles()[9], 5);
}

#[verifier::rlimit(60)]
proof fn lemma_rotor_5_needle_10(d: Seq<u8>)
    requires
        all_digits(d),
    ensures
        ci_contains(fuzz_class_prefix(5) + fuzz_seed_prefix() + d, scrub_needles()[10]) == false,
{
    reveal_with_fuel(lower_absent, 45);
    assert(ascii_lower(scrub_needles()[10][3]) == 104u8);
    assert(lower_absent(fuzz_class_prefix(5), 104u8));
    assert(lower_absent(fuzz_seed_prefix(), 104u8));
    lemma_entry_byte_absent(fuzz_class_prefix(5), fuzz_seed_prefix(), d, scrub_needles()[10], 3);
}

#[verifier::rlimit(60)]
proof fn lemma_rotor_5_needle_11(d: Seq<u8>)
    requires
        all_digits(d),
    ensures
        ci_contains(fuzz_class_prefix(5) + fuzz_seed_prefix() + d, scrub_needles()[11]) == false,
{
    reveal_with_fuel(lower_absent, 45);
    assert(ascii_lower(scrub_needles()[11][6]) == 95u8);
    assert(lower_absent(fuzz_class_prefix(5), 95u8));
    assert(lower_absent(fuzz_seed_prefix(), 95u8));
    lemma_entry_byte_absent(fuzz_class_prefix(5), fuzz_seed_prefix(), d, scrub_needles()[11], 6);
}

#[verifier::rlimit(100)]
#[verifier::spinoff_prover]
proof fn lemma_rotor_5_classes(d: Seq<u8>)
    requires
        all_digits(d),
    ensures
        classes_spec(fuzz_class_prefix(5) + fuzz_seed_prefix() + d) == seq![Kv1PatternClass::CpuinfoSerial],
{
    let h = fuzz_class_prefix(5) + fuzz_seed_prefix() + d;
    lemma_rotor_5_needle_0(d);
    lemma_rotor_5_needle_1(d);
    lemma_rotor_5_needle_2(d);
    lemma_rotor_5_needle_3(d);
    lemma_rotor_5_needle_4(d);
    lemma_rotor_5_needle_5(d);
    lemma_rotor_5_needle_6(d);
    lemma_rotor_5_needle_7(d);
    lemma_rotor_5_needle_8(d);
    lemma_rotor_5_needle_9(d);
    lemma_rotor_5_needle_10(d);
    lemma_rotor_5_needle_11(d);
    assert(classes_through(h, 0) =~= Seq::<Kv1PatternClass>::empty());
    assert(classes_through(h, 1) =~= Seq::<Kv1PatternClass>::empty());
    assert(classes_through(h, 2) =~= Seq::<Kv1PatternClass>::empty());
    assert(classes_through(h, 3) =~= Seq::<Kv1PatternClass>::empty());
    assert(classes_through(h, 4) =~= Seq::<Kv1PatternClass>::empty());
    assert(classes_through(h, 5) =~= Seq::<Kv1PatternClass>::empty());
    assert(classes_through(h, 6) =~= seq![Kv1PatternClass::CpuinfoSerial]);
    assert(classes_through(h, 7) =~= seq![Kv1PatternClass::CpuinfoSerial]);
    assert(classes_through(h, 8) =~= seq![Kv1PatternClass::CpuinfoSerial]);
    assert(classes_through(h, 9) =~= seq![Kv1PatternClass::CpuinfoSerial]);
    assert(classes_through(h, 10) =~= seq![Kv1PatternClass::CpuinfoSerial]);
    assert(classes_through(h, 11) =~= seq![Kv1PatternClass::CpuinfoSerial]);
    assert(classes_through(h, 12) =~= seq![Kv1PatternClass::CpuinfoSerial]);
}

#[verifier::rlimit(60)]
proof fn lemma_rotor_6_needle_0(d: Seq<u8>)
    requires
        all_digits(d),
    ensures
        ci_contains(fuzz_class_prefix(6) + fuzz_seed_prefix() + d, scrub_needles()[0]) == false,
{
    reveal_with_fuel(lower_absent, 45);
    assert(ascii_lower(scrub_needles()[0][2]) == 58u8);
    assert(lower_absent(fuzz_class_prefix(6), 58u8));
    assert(lower_absent(fuzz_seed_prefix(), 58u8));
    lemma_entry_byte_absent(fuzz_class_prefix(6), fuzz_seed_prefix(), d, scrub_needles()[0], 2);
}

#[verifier::rlimit(60)]
proof fn lemma_rotor_6_needle_1(d: Seq<u8>)
    requires
        all_digits(d),
    ensures
        ci_contains(fuzz_class_prefix(6) + fuzz_seed_prefix() + d, scrub_needles()[1]) == false,
{
    reveal_with_fuel(lower_absent, 45);
    assert(ascii_lower(scrub_needles()[1][2]) == 58u8);
    assert(lower_absent(fuzz_class_prefix(6), 58u8));
    assert(lower_absent(fuzz_seed_prefix(), 58u8));
    lemma_entry_byte_absent(fuzz_class_prefix(6), fuzz_seed_prefix(), d, scrub_needles()[1], 2);
}

#[verifier::rlimit(60)]
proof fn lemma_rotor_6_needle_2(d: Seq<u8>)
    requires
        all_digits(d),
    ensures
        ci_contains(fuzz_class_prefix(6) + fuzz_seed_prefix() + d, scrub_needles()[2]) == false,
{
    reveal_with_fuel(lower_absent, 45);
    assert(ascii_lower(scrub_needles()[2][35]) == 99u8);
    assert(lower_absent(fuzz_class_prefix(6), 99u8));
    assert(lower_absent(fuzz_seed_prefix(), 99u8));
    lemma_entry_byte_absent(fuzz_class_prefix(6), fuzz_seed_prefix(), d, scrub_needles()[2], 35);
}

#[verifier::rlimit(60)]
proof fn lemma_rotor_6_needle_3(d: Seq<u8>)
    requires
        all_digits(d),
    ensures
        ci_contains(fuzz_class_prefix(6) + fuzz_seed_prefix() + d, scrub_needles()[3]) == true,
{
    reveal_with_fuel(ci_match_from, 40);
    assert(ci_match_at(fuzz_class_prefix(6), scrub_needles()[3], 0));
    lemma_entry_prefix_hit(fuzz_class_prefix(6), fuzz_seed_prefix(), d, scrub_needles()[3], 0);
}

#[verifier::rlimit(60)]
proof fn lemma_rotor_6_needle_4(d: Seq<u8>)
    requires
        all_digits(d),
    ensures
        ci_contains(fuzz_class_prefix(6) + fuzz_seed_prefix() + d, scrub_needles()[4]) == false,
{
    reveal_with_fuel(lower_absent, 45);
    assert(ascii_lower(scrub_needles()[4][11]) == 58u8);
    assert(lower_absent(fuzz_class_prefix(6), 58u8));
    assert(lower_absent(fuzz_seed_prefix(), 58u8));
    lemma_entry_byte_absent(fuzz_class_prefix(6), fuzz_seed_prefix(), d, scrub_needles()[4], 11);
}

#[verifier::rlimit(60)]
proof fn lemma_rotor_6_needle_5(d: Seq<u8>)
    requires
        all_digits(d),
    ensures
        ci_contains(fuzz_class_prefix(6) + fuzz_seed_prefix() + d, scrub_needles()[5]) == false,
{
    reveal_with_fuel(lower_absent, 45);
    assert(ascii_lower(scrub_needles()[5][7]) == 58u8);
    assert(lower_absent(fuzz_class_prefix(6), 58u8));
    assert(lower_absent(fuzz_seed_prefix(), 58u8));
    lemma_entry_byte_absent(fuzz_class_prefix(6), fuzz_seed_prefix(), d, scrub_needles()[5], 7);
}

#[verifier::rlimit(60)]
proof fn lemma_rotor_6_needle_6(d: Seq<u8>)
    requires
        all_digits(d),
    ensures
        ci_contains(fuzz_class_prefix(6) + fuzz_seed_prefix() + d, scrub_needles()[6]) == false,
{
    reveal_with_fuel(bigram_absent, 45);
    assert(ascii_lower(scrub_needles()[6][0]) == 114u8);
    assert(ascii_lower(scrub_needles()[6][1]) == 97u8);
    assert(bigram_absent(fuzz_class_prefix(6), 114u8, 97u8));
    assert(bigram_absent(fuzz_seed_prefix(), 114u8, 97u8));
    lemma_entry_bigram_absent(fuzz_class_prefix(6), fuzz_seed_prefix(), d, scrub_needles()[6], 0);
}

#[verifier::rlimit(60)]
proof fn lemma_rotor_6_needle_7(d: Seq<u8>)
    requires
        all_digits(d),
    ensures
        ci_contains(fuzz_class_prefix(6) + fuzz_seed_prefix() + d, scrub_needles()[7]) == false,
{
    reveal_with_fuel(lower_absent, 45);
    assert(ascii_lower(scrub_needles()[7][4]) == 103u8);
    assert(lower_absent(fuzz_class_prefix(6), 103u8));
    assert(lower_absent(fuzz_seed_prefix(), 103u8));
    lemma_entry_byte_absent(fuzz_class_prefix(6), fuzz_seed_prefix(), d, scrub_needles()[7], 4);
}

#[verifier::rlimit(60)]
proof fn lemma_rotor_6_needle_8(d: Seq<u8>)
    requires
        all_digits(d),
    ensures
        ci_contains(fuzz_class_prefix(6) + fuzz_seed_prefix() + d, scrub_needles()[8]) == false,
{
    reveal_with_fuel(lower_absent, 45);
    assert(ascii_lower(scrub_needles()[8][4]) == 99u8);
    assert(lower_absent(fuzz_class_prefix(6), 99u8));
    assert(lower_absent(fuzz_seed_prefix(), 99u8));
    lemma_entry_byte_absent(fuzz_class_prefix(6), fuzz_seed_prefix(), d, scrub_needles()[8], 4);
}

#[verifier::rlimit(60)]
proof fn lemma_rotor_6_needle_9(d: Seq<u8>)
    requires
        all_digits(d),
    ensures
        ci_contains(fuzz_class_prefix(6) + fuzz_seed_prefix() + d, scrub_needles()[9]) == false,
{
    reveal_with_fuel(lower_absent, 45);
    assert(ascii_lower(scrub_needles()[9][5]) == 103u8);
    assert(lower_absent(fuzz_class_prefix(6), 103u8));
    assert(lower_absent(fuzz_seed_prefix(), 103u8));
    lemma_entry_byte_absent(fuzz_class_prefix(6), fuzz_seed_prefix(), d, scrub_needles()[9], 5);
}

#[verifier::rlimit(60)]
proof fn lemma_rotor_6_needle_10(d: Seq<u8>)
    requires
        all_digits(d),
    ensures
        ci_contains(fuzz_class_prefix(6) + fuzz_seed_prefix() + d, scrub_needles()[10]) == false,
{
    reveal_with_fuel(lower_absent, 45);
    assert(ascii_lower(scrub_needles()[10][0]) == 99u8);
    assert(lower_absent(fuzz_class_prefix(6), 99u8));
    assert(lower_absent(fuzz_seed_prefix(), 99u8));
    lemma_entry_byte_absent(fuzz_class_prefix(6), fuzz_seed_prefix(), d, scrub_needles()[10], 0);
}

#[verifier::rlimit(60)]
proof fn lemma_rotor_6_needle_11(d: Seq<u8>)
    requires
        all_digits(d),
    ensures
        ci_contains(fuzz_class_prefix(6) + fuzz_seed_prefix() + d, scrub_needles()[11]) == false,
{
    reveal_with_fuel(lower_absent, 45);
    assert(ascii_lower(scrub_needles()[11][6]) == 95u8);
    assert(lower_absent(fuzz_class_prefix(6), 95u8));
    assert(lower_absent(fuzz_seed_prefix(), 95u8));
    lemma_entry_byte_absent(fuzz_class_prefix(6), fuzz_seed_prefix(), d, scrub_needles()[11], 6);
}

#[verifier::rlimit(100)]
#[verifier::spinoff_prover]
proof fn lemma_rotor_6_classes(d: Seq<u8>)
    requires
        all_digits(d),
    ensures
        classes_spec(fuzz_class_prefix(6) + fuzz_seed_prefix() + d) == seq![Kv1PatternClass::IoPlatformSerial],
{
    let h = fuzz_class_prefix(6) + fuzz_seed_prefix() + d;
    lemma_rotor_6_needle_0(d);
    lemma_rotor_6_needle_1(d);
    lemma_rotor_6_needle_2(d);
    lemma_rotor_6_needle_3(d);
    lemma_rotor_6_needle_4(d);
    lemma_rotor_6_needle_5(d);
    lemma_rotor_6_needle_6(d);
    lemma_rotor_6_needle_7(d);
    lemma_rotor_6_needle_8(d);
    lemma_rotor_6_needle_9(d);
    lemma_rotor_6_needle_10(d);
    lemma_rotor_6_needle_11(d);
    assert(classes_through(h, 0) =~= Seq::<Kv1PatternClass>::empty());
    assert(classes_through(h, 1) =~= Seq::<Kv1PatternClass>::empty());
    assert(classes_through(h, 2) =~= Seq::<Kv1PatternClass>::empty());
    assert(classes_through(h, 3) =~= Seq::<Kv1PatternClass>::empty());
    assert(classes_through(h, 4) =~= seq![Kv1PatternClass::IoPlatformSerial]);
    assert(classes_through(h, 5) =~= seq![Kv1PatternClass::IoPlatformSerial]);
    assert(classes_through(h, 6) =~= seq![Kv1PatternClass::IoPlatformSerial]);
    assert(classes_through(h, 7) =~= seq![Kv1PatternClass::IoPlatformSerial]);
    assert(classes_through(h, 8) =~= seq![Kv1PatternClass::IoPlatformSerial]);
    assert(classes_through(h, 9) =~= seq![Kv1PatternClass::IoPlatformSerial]);
    assert(classes_through(h, 10) =~= seq![Kv1PatternClass::IoPlatformSerial]);
    assert(classes_through(h, 11) =~= seq![Kv1PatternClass::IoPlatformSerial]);
    assert(classes_through(h, 12) =~= seq![Kv1PatternClass::IoPlatformSerial]);
}

#[verifier::rlimit(60)]
proof fn lemma_rotor_7_needle_0(d: Seq<u8>)
    requires
        all_digits(d),
    ensures
        ci_contains(fuzz_class_prefix(7) + fuzz_seed_prefix() + d, scrub_needles()[0]) == false,
{
    reveal_with_fuel(bigram_absent, 45);
    assert(ascii_lower(scrub_needles()[0][1]) == 48u8);
    assert(ascii_lower(scrub_needles()[0][2]) == 58u8);
    assert(bigram_absent(fuzz_class_prefix(7), 48u8, 58u8));
    assert(bigram_absent(fuzz_seed_prefix(), 48u8, 58u8));
    lemma_entry_bigram_absent(fuzz_class_prefix(7), fuzz_seed_prefix(), d, scrub_needles()[0], 1);
}

#[verifier::rlimit(60)]
proof fn lemma_rotor_7_needle_1(d: Seq<u8>)
    requires
        all_digits(d),
    ensures
        ci_contains(fuzz_class_prefix(7) + fuzz_seed_prefix() + d, scrub_needles()[1]) == false,
{
    reveal_with_fuel(lower_absent, 45);
    assert(ascii_lower(scrub_needles()[1][3]) == 98u8);
    assert(lower_absent(fuzz_class_prefix(7), 98u8));
    assert(lower_absent(fuzz_seed_prefix(), 98u8));
    lemma_entry_byte_absent(fuzz_class_prefix(7), fuzz_seed_prefix(), d, scrub_needles()[1], 3);
}

#[verifier::rlimit(60)]
proof fn lemma_rotor_7_needle_2(d: Seq<u8>)
    requires
        all_digits(d),
    ensures
        ci_contains(fuzz_class_prefix(7) + fuzz_seed_prefix() + d, scrub_needles()[2]) == false,
{
    reveal_with_fuel(lower_absent, 45);
    assert(ascii_lower(scrub_needles()[2][34]) == 98u8);
    assert(lower_absent(fuzz_class_prefix(7), 98u8));
    assert(lower_absent(fuzz_seed_prefix(), 98u8));
    lemma_entry_byte_absent(fuzz_class_prefix(7), fuzz_seed_prefix(), d, scrub_needles()[2], 34);
}

#[verifier::rlimit(60)]
proof fn lemma_rotor_7_needle_3(d: Seq<u8>)
    requires
        all_digits(d),
    ensures
        ci_contains(fuzz_class_prefix(7) + fuzz_seed_prefix() + d, scrub_needles()[3]) == false,
{
    reveal_with_fuel(lower_absent, 45);
    assert(ascii_lower(scrub_needles()[3][2]) == 112u8);
    assert(lower_absent(fuzz_class_prefix(7), 112u8));
    assert(lower_absent(fuzz_seed_prefix(), 112u8));
    lemma_entry_byte_absent(fuzz_class_prefix(7), fuzz_seed_prefix(), d, scrub_needles()[3], 2);
}

#[verifier::rlimit(60)]
proof fn lemma_rotor_7_needle_4(d: Seq<u8>)
    requires
        all_digits(d),
    ensures
        ci_contains(fuzz_class_prefix(7) + fuzz_seed_prefix() + d, scrub_needles()[4]) == true,
{
    reveal_with_fuel(ci_match_from, 40);
    assert(ci_match_at(fuzz_class_prefix(7), scrub_needles()[4], 0));
    lemma_entry_prefix_hit(fuzz_class_prefix(7), fuzz_seed_prefix(), d, scrub_needles()[4], 0);
}

#[verifier::rlimit(60)]
proof fn lemma_rotor_7_needle_5(d: Seq<u8>)
    requires
        all_digits(d),
    ensures
        ci_contains(fuzz_class_prefix(7) + fuzz_seed_prefix() + d, scrub_needles()[5]) == false,
{
    reveal_with_fuel(lower_absent, 45);
    assert(ascii_lower(scrub_needles()[5][2]) == 114u8);
    assert(lower_absent(fuzz_class_prefix(7), 114u8));
    assert(lower_absent(fuzz_seed_prefix(), 114u8));
    lemma_entry_byte_absent(fuzz_class_prefix(7), fuzz_seed_prefix(), d, scrub_needles()[5], 2);
}

#[verifier::rlimit(60)]
proof fn lemma_rotor_7_needle_6(d: Seq<u8>)
    requires
        all_digits(d),
    ensures
        ci_contains(fuzz_class_prefix(7) + fuzz_seed_prefix() + d, scrub_needles()[6]) == false,
{
    reveal_with_fuel(lower_absent, 45);
    assert(ascii_lower(scrub_needles()[6][0]) == 114u8);
    assert(lower_absent(fuzz_class_prefix(7), 114u8));
    assert(lower_absent(fuzz_seed_prefix(), 114u8));
    lemma_entry_byte_absent(fuzz_class_prefix(7), fuzz_seed_prefix(), d, scrub_needles()[6], 0);
}

#[verifier::rlimit(60)]
proof fn lemma_rotor_7_needle_7(d: Seq<u8>)
    requires
        all_digits(d),
    ensures
        ci_contains(fuzz_class_prefix(7) + fuzz_seed_prefix() + d, scrub_needles()[7]) == false,
{
    reveal_with_fuel(lower_absent, 45);
    assert(ascii_lower(scrub_needles()[7][3]) == 114u8);
    assert(lower_absent(fuzz_class_prefix(7), 114u8));
    assert(lower_absent(fuzz_seed_prefix(), 114u8));
    lemma_entry_byte_absent(fuzz_class_prefix(7), fuzz_seed_prefix(), d, scrub_needles()[7], 3);
}

#[verifier::rlimit(60)]
proof fn lemma_rotor_7_needle_8(d: Seq<u8>)
    requires
        all_digits(d),
    ensures
        ci_contains(fuzz_class_prefix(7) + fuzz_seed_prefix() + d, scrub_needles()[8]) == false,
{
    reveal_with_fuel(lower_absent, 45);
    assert(ascii_lower(scrub_needles()[8][0]) == 114u8);
    assert(lower_absent(fuzz_class_prefix(7), 114u8));
    assert(lower_absent(fuzz_seed_prefix(), 114u8));
    lemma_entry_byte_absent(fuzz_class_prefix(7), fuzz_seed_prefix(), d, scrub_needles()[8], 0);
}

#[verifier::rlimit(60)]
proof fn lemma_rotor_7_needle_9(d: Seq<u8>)
    requires
        all_digits(d),
    ensures
        ci_contains(fuzz_class_prefix(7) + fuzz_seed_prefix() + d, scrub_needles()[9]) == false,
{
    reveal_with_fuel(lower_absent, 45);
    assert(ascii_lower(scrub_needles()[9][5]) == 103u8);
    assert(lower_absent(fuzz_class_prefix(7), 103u8));
    assert(lower_absent(fuzz_seed_prefix(), 103u8));
    lemma_entry_byte_absent(fuzz_class_prefix(7), fuzz_seed_prefix(), d, scrub_needles()[9], 5);
}

#[verifier::rlimit(60)]
proof fn lemma_rotor_7_needle_10(d: Seq<u8>)
    requires
        all_digits(d),
    ensures
        ci_contains(fuzz_class_prefix(7) + fuzz_seed_prefix() + d, scrub_needles()[10]) == false,
{
    reveal_with_fuel(lower_absent, 45);
    assert(ascii_lower(scrub_needles()[10][0]) == 99u8);
    assert(lower_absent(fuzz_class_prefix(7), 99u8));
    assert(lower_absent(fuzz_seed_prefix(), 99u8));
    lemma_entry_byte_absent(fuzz_class_prefix(7), fuzz_seed_prefix(), d, scrub_needles()[10], 0);
}

#[verifier::rlimit(60)]
proof fn lemma_rotor_7_needle_11(d: Seq<u8>)
    requires
        all_digits(d),
    ensures
        ci_contains(fuzz_class_prefix(7) + fuzz_seed_prefix() + d, scrub_needles()[11]) == false,
{
    reveal_with_fuel(lower_absent, 45);
    assert(ascii_lower(scrub_needles()[11][2]) == 114u8);
    assert(lower_absent(fuzz_class_prefix(7), 114u8));
    assert(lower_absent(fuzz_seed_prefix(), 114u8));
    lemma_entry_byte_absent(fuzz_class_prefix(7), fuzz_seed_prefix(), d, scrub_needles()[11], 2);
}

#[verifier::rlimit(100)]
#[verifier::spinoff_prover]
proof fn lemma_rotor_7_classes(d: Seq<u8>)
    requires
        all_digits(d),
    ensures
        classes_spec(fuzz_class_prefix(7) + fuzz_seed_prefix() + d) == seq![Kv1PatternClass::KernelLeaf],
{
    let h = fuzz_class_prefix(7) + fuzz_seed_prefix() + d;
    lemma_rotor_7_needle_0(d);
    lemma_rotor_7_needle_1(d);
    lemma_rotor_7_needle_2(d);
    lemma_rotor_7_needle_3(d);
    lemma_rotor_7_needle_4(d);
    lemma_rotor_7_needle_5(d);
    lemma_rotor_7_needle_6(d);
    lemma_rotor_7_needle_7(d);
    lemma_rotor_7_needle_8(d);
    lemma_rotor_7_needle_9(d);
    lemma_rotor_7_needle_10(d);
    lemma_rotor_7_needle_11(d);
    assert(classes_through(h, 0) =~= Seq::<Kv1PatternClass>::empty());
    assert(classes_through(h, 1) =~= Seq::<Kv1PatternClass>::empty());
    assert(classes_through(h, 2) =~= Seq::<Kv1PatternClass>::empty());
    assert(classes_through(h, 3) =~= Seq::<Kv1PatternClass>::empty());
    assert(classes_through(h, 4) =~= Seq::<Kv1PatternClass>::empty());
    assert(classes_through(h, 5) =~= seq![Kv1PatternClass::KernelLeaf]);
    assert(classes_through(h, 6) =~= seq![Kv1PatternClass::KernelLeaf]);
    assert(classes_through(h, 7) =~= seq![Kv1PatternClass::KernelLeaf]);
    assert(classes_through(h, 8) =~= seq![Kv1PatternClass::KernelLeaf]);
    assert(classes_through(h, 9) =~= seq![Kv1PatternClass::KernelLeaf]);
    assert(classes_through(h, 10) =~= seq![Kv1PatternClass::KernelLeaf]);
    assert(classes_through(h, 11) =~= seq![Kv1PatternClass::KernelLeaf]);
    assert(classes_through(h, 12) =~= seq![Kv1PatternClass::KernelLeaf]);
}

/// Every fuzz entry plants exactly its rotor's class: the scan of entry `i` detects the
/// class of rotor `i % 8` and nothing else.
pub proof fn lemma_fuzz_entry_classes(i: nat)
    ensures
        classes_spec(fuzz_entry_spec(i)) == seq![rotor_class((i % 8) as int)],
{
    lemma_dec_bytes_digits(i);
    lemma_zero_pad5_digits(dec_bytes(i));
    let d = zero_pad5(dec_bytes(i));
    let r = i % 8;
    if r == 0 {
        lemma_rotor_0_classes(d);
    }
    if r == 1 {
        lemma_rotor_1_classes(d);
    }
    if r == 2 {
        lemma_rotor_2_classes(d);
    }
    if r == 3 {
        lemma_rotor_3_classes(d);
    }
    if r == 4 {
        lemma_rotor_4_classes(d);
    }
    if r == 5 {
        lemma_rotor_5_classes(d);
    }
    if r == 6 {
        lemma_rotor_6_classes(d);
    }
    if r == 7 {
        lemma_rotor_7_classes(d);
    }
}

/// Entry `i` is hit by class `c` exactly when `i` is on the rotor of `c`.
proof fn lemma_fuzz_entry_hits(i: nat, c: Kv1PatternClass)
    ensures
        classes_spec(fuzz_entry_spec(i)).contains(c) <==> (i % 8) as int == rotor_index(c),
{
    lemma_fuzz_entry_classes(i);
    let cl = rotor_class((i % 8) as int);
    assert(seq![cl][0] == cl);
    if seq![cl].contains(c) {
        let m = choose|m: int| 0 <= m < 1 && seq![cl][m] == c;
        assert(m == 0);
    }
}

/// Class `c` is hit once per eight entries, on its rotor.
pub proof fn lemma_class_hit_count_closed(t: nat, c: Kv1PatternClass)
    ensures
        class_hit_count(t, c) == t / 8 + if t % 8 > rotor_index(c) {
            1nat
        } else {
            0nat
        },
    decreases t,
{
    assert(0 <= rotor_index(c) < 8);
    if t > 0 {
        lemma_class_hit_count_closed((t - 1) as nat, c);
        lemma_fuzz_entry_hits((t - 1) as nat, c);
    }
}

/// Law: the synthetic fuzz corpus is honest — its first eight entries hit every K_v1 class,
/// and its first twenty-four entries hit every class equally often (three times).
pub proof fn lemma_fuzz_corpus_honest()
    ensures
        fuzz_corpus_honest(),
{
    assert forall|k: int| 0 <= k < 8 implies #[trigger] hist_counts(8)[k] == 1u32 && hist_counts(24)[k] == 3u32 by {
        lemma_class_hit_count_closed(8, class_of_index(k));
        lemma_class_hit_count_closed(24, class_of_index(k));
    };
    assert(hist_counts(8) =~= seq![1u32, 1u32, 1u32, 1u32, 1u32, 1u32, 1u32, 1u32]);
    assert(hist_counts(24) =~= seq![3u32, 3u32, 3u32, 3u32, 3u32, 3u32, 3u32, 3u32]);
    reveal_with_fuel(count_where, 9);
    reveal_with_fuel(seq_min, 9);
    reveal_with_fuel(seq_max, 9);
}


// ---------------------------------------------------------------------------
// What the scan and the histogram report
// ---------------------------------------------------------------------------

/// The first `k` tokens list a class exactly when one of them that belongs to it occurs.
proof fn lemma_classes_through_contains(b: Seq<u8>, k: int, c: Kv1PatternClass)
    requires
        0 <= k <= 12,
    ensures
        classes_through(b, k).contains(c) <==> exists|j: int|
            0 <= j < k && #[trigger] ci_contains(b, scrub_needles()[j]) && needle_class(j) == c,
    decreases k,
{
    if k > 0 {
        lemma_classes_through_contains(b, k - 1, c);
        let prev = classes_through(b, k - 1);
        let cl = needle_class(k - 1);
        if ci_contains(b, scrub_needles()[k - 1]) && !prev.contains(cl) {
            let next = prev.push(cl);
            assert(next[prev.len() as int] == cl);
            if next.contains(c) {
                let m = choose|m: int| 0 <= m < next.len() && next[m] == c;
                if m < prev.len() {
                    assert(prev[m] == c);
                }
            }
            if prev.contains(c) {
                let m = choose|m: int| 0 <= m < prev.len() && prev[m] == c;
                assert(next[m] == c);
            }
        }
        if exists|j: int| 0 <= j < k - 1 && #[trigger] ci_contains(b, scrub_needles()[j]) && needle_class(j) == c {
            let j = choose|j: int| 0 <= j < k - 1 && #[trigger] ci_contains(b, scrub_needles()[j]) && needle_class(j) == c;
            assert(0 <= j < k && ci_contains(b, scrub_needles()[j]) && needle_class(j) == c);
        }
        if exists|j: int| 0 <= j < k && #[trigger] ci_contains(b, scrub_needles()[j]) && needle_class(j) == c {
            let j = choose|j: int| 0 <= j < k && #[trigger] ci_contains(b, scrub_needles()[j]) && needle_class(j) == c;
            if j < k - 1 {
                assert(exists|j: int| 0 <= j < k - 1 && #[trigger] ci_contains(b, scrub_needles()[j]) && needle_class(j) == c);
            }
        }
    }
}

/// Law: the scan reports a K_v1 class exactly when one of that class's tokens occurs in the
/// buffer — the two MAC-address tokens for `MacAddress`, the UUID token for `GpuUuidV4`, the
/// IOPlatform serial for `IoPlatformSerial`, `model name :` for `KernelLeaf`, `serial :` for
/// `CpuinfoSerial`, `RAPL` / `energy_uj` for `RaplCorrelatedBytes`, `rdtsc` /
/// `timing_variance` for `TimingLeakFingerprint`, and `cache_line` / `stride_prefetch` for
/// `MemoryAccessFingerprint` — and lists each class once.
pub proof fn lemma_scan_class_table(b: Seq<u8>)
    ensures
        classes_spec(b).no_duplicates(),
        classes_spec(b).contains(Kv1PatternClass::MacAddress) <==> ci_contains(b, scrub_needles()[0]) || ci_contains(b, scrub_needles()[1]),
        classes_spec(b).contains(Kv1PatternClass::GpuUuidV4) <==> ci_contains(b, scrub_needles()[2]),
        classes_spec(b).contains(Kv1PatternClass::IoPlatformSerial) <==> ci_contains(b, scrub_needles()[3]),
        classes_spec(b).contains(Kv1PatternClass::KernelLeaf) <==> ci_contains(b, scrub_needles()[4]),
        classes_spec(b).contains(Kv1PatternClass::CpuinfoSerial) <==> ci_contains(b, scrub_needles()[5]),
        classes_spec(b).contains(Kv1PatternClass::RaplCorrelatedBytes) <==> ci_contains(b, scrub_needles()[6]) || ci_contains(b, scrub_needles()[7]),
        classes_spec(b).contains(Kv1PatternClass::TimingLeakFingerprint) <==> ci_contains(b, scrub_needles()[8]) || ci_contains(b, scrub_needles()[9]),
        classes_spec(b).contains(Kv1PatternClass::MemoryAccessFingerprint) <==> ci_contains(b, scrub_needles()[10]) || ci_contains(b, scrub_needles()[11]),
{
    lemma_classes_through(b, 12);
    lemma_classes_through_contains(b, 12, Kv1PatternClass::MacAddress);
    if classes_spec(b).contains(Kv1PatternClass::MacAddress) {
        let j = choose|j: int| 0 <= j < 12 && #[trigger] ci_contains(b, scrub_needles()[j]) && needle_class(j) == Kv1PatternClass::MacAddress;
        assert(j == 0 || j == 1);
    }
    if ci_contains(b, scrub_needles()[0]) {
        assert(needle_class(0) == Kv1PatternClass::MacAddress);
    }
    if ci_contains(b, scrub_needles()[1]) {
        assert(needle_class(1) == Kv1PatternClass::MacAddress);
    }
    lemma_classes_through_contains(b, 12, Kv1PatternClass::GpuUuidV4);
    if classes_spec(b).contains(Kv1PatternClass::GpuUuidV4) {
        let j = choose|j: int| 0 <= j < 12 && #[trigger] ci_contains(b, scrub_needles()[j]) && needle_class(j) == Kv1PatternClass::GpuUuidV4;
        assert(j == 2);
    }
    if ci_contains(b, scrub_needles()[2]) {
        assert(needle_class(2) == Kv1PatternClass::GpuUuidV4);
    }
    lemma_classes_through_contains(b, 12, Kv1PatternClass::IoPlatformSerial);
    if classes_spec(b).contains(Kv1PatternClass::IoPlatformSerial) {
        let j = choose|j: int| 0 <= j < 12 && #[trigger] ci_contains(b, scrub_needles()[j]) && needle_class(j) == Kv1PatternClass::IoPlatformSerial;
        assert(j == 3);
    }
    if ci_contains(b, scrub_needles()[3]) {
        assert(needle_class(3) == Kv1PatternClass::IoPlatformSerial);
    }
    lemma_classes_through_contains(b, 12, Kv1PatternClass::KernelLeaf);
    if classes_spec(b).contains(Kv1PatternClass::KernelLeaf) {
        let j = choose|j: int| 0 <= j < 12 && #[trigger] ci_contains(b, scrub_needles()[j]) && needle_class(j) == Kv1PatternClass::KernelLeaf;
        assert(j == 4);
    }
    if ci_contains(b, scrub_needles()[4]) {
        assert(needle_class(4) == Kv1PatternClass::KernelLeaf);
    }
    lemma_classes_through_contains(b, 12, Kv1PatternClass::CpuinfoSerial);
    if classes_spec(b).contains(Kv1PatternClass::CpuinfoSerial) {
        let j = choose|j: int| 0 <= j < 12 && #[trigger] ci_contains(b, scrub_needles()[j]) && needle_class(j) == Kv1PatternClass::CpuinfoSerial;
        assert(j == 5);
    }
    if ci_contains(b, scrub_needles()[5]) {
        assert(needle_class(5) == Kv1PatternClass::CpuinfoSerial);
    }
    lemma_classes_through_contains(b, 12, Kv1PatternClass::RaplCorrelatedBytes);
    if classes_spec(b).contains(Kv1PatternClass::RaplCorrelatedBytes) {
        let j = choose|j: int| 0 <= j < 12 && #[trigger] ci_contains(b, scrub_needles()[j]) && needle_class(j) == Kv1PatternClass::RaplCorrelatedBytes;
        assert(j == 6 || j == 7);
    }
    if ci_contains(b, scrub_needles()[6]) {
        assert(needle_class(6) == Kv1PatternClass::RaplCorrelatedBytes);
    }
    if ci_contains(b, scrub_needles()[7]) {
        assert(needle_class(7) == Kv1PatternClass::RaplCorrelatedBytes);
    }
    lemma_classes_through_contains(b, 12, Kv1PatternClass::TimingLeakFingerprint);
    if classes_spec(b).contains(Kv1PatternClass::TimingLeakFingerprint) {
        let j = choose|j: int| 0 <= j < 12 && #[trigger] ci_contains(b, scrub_needles()[j]) && needle_class(j) == Kv1PatternClass::TimingLeakFingerprint;
        assert(j == 8 || j == 9);
    }
    if ci_contains(b, scrub_needles()[8]) {
        assert(needle_class(8) == Kv1PatternClass::TimingLeakFingerprint);
    }
    if ci_contains(b, scrub_needles()[9]) {
        assert(needle_class(9) == Kv1PatternClass::TimingLeakFingerprint);
    }
    lemma_classes_through_contains(b, 12, Kv1PatternClass::MemoryAccessFingerprint);
    if classes_spec(b).contains(Kv1PatternClass::MemoryAccessFingerprint) {
        let j = choose|j: int| 0 <= j < 12 && #[trigger] ci_contains(b, scrub_needles()[j]) && needle_class(j) == Kv1PatternClass::MemoryAccessFingerprint;
        assert(j == 10 || j == 11);
    }
    if ci_contains(b, scrub_needles()[10]) {
        assert(needle_class(10) == Kv1PatternClass::MemoryAccessFingerprint);
    }
    if ci_contains(b, scrub_needles()[11]) {
        assert(needle_class(11) == Kv1PatternClass::MemoryAccessFingerprint);
    }
}

/// Distinct classes carry distinct pattern ids.
proof fn lemma_pattern_ids_distinct(c1: Kv1PatternClass, c2: Kv1PatternClass)
    ensures
        class_pattern_id(c1) == class_pattern_id(c2) ==> c1 == c2,
{
    reveal_strlit("mac-address");
    reveal_strlit("gpu-uuid-v4");
    reveal_strlit("ioplatform-serial");
    reveal_strlit("kernel-leaf");
    reveal_strlit("cpuinfo-serial");
    reveal_strlit("rapl-correlated-bytes");
    reveal_strlit("timing-leak-fingerprint");
    reveal_strlit("memory-access-fingerprint");
    assert("mac-address"@.len() == 11);
    assert("gpu-uuid-v4"@.len() == 11);
    assert("ioplatform-serial"@.len() == 17);
    assert("kernel-leaf"@.len() == 11);
    assert("cpuinfo-serial"@.len() == 14);
    assert("rapl-correlated-bytes"@.len() == 21);
    assert("timing-leak-fingerprint"@.len() == 23);
    assert("memory-access-fingerprint"@.len() == 25);
    assert("mac-address"@[0] != "gpu-uuid-v4"@[0]);
    assert("mac-address"@[0] != "kernel-leaf"@[0]);
    assert("gpu-uuid-v4"@[0] != "kernel-leaf"@[0]);
}

/// Law: each histogram row counts its own class — row `k` carries the `k`-th
/// `K_V1_PATTERNS` id, the class at position `k` is the class with that pattern id, a class's
/// index is the position of its pattern id, and every row's hit count is the number of corpus
/// entries in which the class named by the row's pattern id is detected.
pub proof fn lemma_histogram_rows_keyed_by_pattern_id(t: nat, c: Kv1PatternClass)
    ensures
        forall|k: int| 0 <= k < 8 ==> class_pattern_id(#[trigger] class_of_index(k)) == k_v1_patterns_spec()[k]@,
        0 <= class_index(c) < 8,
        k_v1_patterns_spec()[class_index(c)]@ == class_pattern_id(c),
        forall|k: int|
            0 <= k < 8 && class_pattern_id(c) == (#[trigger] hist_rows(t)[k]).pattern_id@ ==> hist_rows(t)[k].hit_count
                == class_hit_count(t, c) as u32,
{
    lemma_pattern_ids();
    assert forall|k: int| 0 <= k < 8 implies class_pattern_id(#[trigger] class_of_index(k)) == k_v1_patterns_spec()[k]@ by {
        if k == 0 {} else if k == 1 {} else if k == 2 {} else if k == 3 {} else if k == 4 {} else if k == 5 {} else if k == 6 {} else {}
    };
    assert forall|k: int|
        0 <= k < 8 && class_pattern_id(c) == (#[trigger] hist_rows(t)[k]).pattern_id@ implies hist_rows(t)[k].hit_count
            == class_hit_count(t, c) as u32 by {
        assert(class_pattern_id(class_of_index(k)) == k_v1_patterns_spec()[k]@);
        lemma_pattern_ids_distinct(c, class_of_index(k));
    };
}

} // verus!
