//! Character-level text helpers shared by every census module: equality,
//! substring search, decimal rendering, and receipt assembly.
use vstd::prelude::*;

verus! {

/// `p` occurs in `s` starting at index `i`.
pub open spec fn matches_at(s: Seq<char>, p: Seq<char>, i: int) -> bool {
    &&& 0 <= i
    &&& i + p.len() <= s.len()
    &&& s.subrange(i, i + p.len()) == p
}

/// `p` occurs somewhere in `s` (the empty pattern occurs in every text).
pub open spec fn seq_contains(s: Seq<char>, p: Seq<char>) -> bool {
    exists|i: int| #[trigger] matches_at(s, p, i)
}

/// An occurrence survives when text is appended on either side.
pub proof fn lemma_contains_extend(a: Seq<char>, s: Seq<char>, b: Seq<char>, p: Seq<char>)
    requires
        seq_contains(s, p),
    ensures
        seq_contains(a + s + b, p),
{
    let i = choose|i: int| #[trigger] matches_at(s, p, i);
    assert((a + s + b).subrange(a.len() + i, a.len() + i + p.len()) =~= s.subrange(
        i,
        i + p.len(),
    ));
    assert(matches_at(a + s + b, p, a.len() + i));
}

/// Copy the characters of a string slice into a vector.
pub fn chars_of(s: &str) -> (v: Vec<char>)
    ensures
        v@ == s@,
{
    let n = s.unicode_len();
    let mut v: Vec<char> = Vec::new();
    let mut i: usize = 0;
    while i < n
        invariant
            n == s@.len(),
            i <= n,
            v@ == s@.subrange(0, i as int),
        decreases n - i,
    {
        let c = s.get_char(i);
        v.push(c);
        i = i + 1;
        assert(v@ =~= s@.subrange(0, i as int));
    }
    assert(v@ =~= s@);
    v
}

/// Whether the character vectors `s` and `p` agree at offset `i`.
fn chars_match_at(s: &Vec<char>, p: &Vec<char>, i: usize) -> (r: bool)
    requires
        i + p.len() <= s.len(),
    ensures
        r == matches_at(s@, p@, i as int),
{
    let mut j: usize = 0;
    while j < p.len()
        invariant
            i + p.len() <= s.len(),
            j <= p.len(),
            forall|k: int| 0 <= k < j ==> s@[i + k] == p@[k],
        decreases p.len() - j,
    {
        if s[i + j] != p[j] {
            assert(s@.subrange(i as int, i + p.len())[j as int] != p@[j as int]);
            return false;
        }
        j = j + 1;
    }
    assert(s@.subrange(i as int, i + p.len()) =~= p@);
    true
}

/// Substring search over character vectors.
pub fn chars_contains(s: &Vec<char>, p: &Vec<char>) -> (r: bool)
    ensures
        r == seq_contains(s@, p@),
{
    if p.len() > s.len() {
        assert forall|i: int| !#[trigger] matches_at(s@, p@, i) by {}
        return false;
    }
    let last = s.len() - p.len();
    let mut i: usize = 0;
    loop
        invariant
            last == s.len() - p.len(),
            p.len() <= s.len(),
            i <= last,
            forall|k: int| 0 <= k < i ==> !#[trigger] matches_at(s@, p@, k),
        decreases last - i,
    {
        if chars_match_at(s, p, i) {
            return true;
        }
        if i == last {
            assert forall|k: int| !#[trigger] matches_at(s@, p@, k) by {
                if 0 <= k && k + p@.len() <= s@.len() && k != i {
                    assert(k < i);
                }
            }
            return false;
        }
        i = i + 1;
    }
}

/// Equality of two string slices as character sequences.
pub fn str_eq(a: &str, b: &str) -> (r: bool)
    ensures
        r == (a@ == b@),
{
    let x = chars_of(a);
    let y = chars_of(b);
    if x.len() != y.len() {
        return false;
    }
    let mut i: usize = 0;
    while i < x.len()
        invariant
            x.len() == y.len(),
            x@ == a@,
            y@ == b@,
            i <= x.len(),
            forall|k: int| 0 <= k < i ==> x@[k] == y@[k],
        decreases x.len() - i,
    {
        if x[i] != y[i] {
            assert(x@[i as int] != y@[i as int]);
            return false;
        }
        i = i + 1;
    }
    assert(x@ =~= y@);
    true
}

/// Substring search over string slices.
pub fn str_contains(s: &str, p: &str) -> (r: bool)
    ensures
        r == seq_contains(s@, p@),
{
    let x = chars_of(s);
    let y = chars_of(p);
    chars_contains(&x, &y)
}

/// Substring search over an owned string.
pub fn string_contains(s: &String, p: &str) -> (r: bool)
    ensures
        r == seq_contains(s@, p@),
{
    str_contains(s.as_str(), p)
}

/// The decimal digit character for `d < 10`.
pub open spec fn digit_char(d: int) -> char {
    if d == 0 {
        '0'
    } else if d == 1 {
        '1'
    } else if d == 2 {
        '2'
    } else if d == 3 {
        '3'
    } else if d == 4 {
        '4'
    } else if d == 5 {
        '5'
    } else if d == 6 {
        '6'
    } else if d == 7 {
        '7'
    } else if d == 8 {
        '8'
    } else {
        '9'
    }
}

/// Shortest decimal rendering of a natural number.
pub open spec fn decimal(n: nat) -> Seq<char>
    decreases n,
{
    if n < 10 {
        seq![digit_char(n as int)]
    } else {
        decimal(n / 10) + seq![digit_char((n % 10) as int)]
    }
}

/// Rendering of a boolean as Rust prints it.
pub open spec fn bool_text(b: bool) -> Seq<char> {
    if b {
        seq!['t', 'r', 'u', 'e']
    } else {
        seq!['f', 'a', 'l', 's', 'e']
    }
}

fn digit_str(d: u64) -> (s: &'static str)
    requires
        d < 10,
    ensures
        s@ == seq![digit_char(d as int)],
{
    proof {
        reveal_strlit("0");
        reveal_strlit("1");
        reveal_strlit("2");
        reveal_strlit("3");
        reveal_strlit("4");
        reveal_strlit("5");
        reveal_strlit("6");
        reveal_strlit("7");
        reveal_strlit("8");
        reveal_strlit("9");
    }
    if d == 0 {
        "0"
    } else if d == 1 {
        "1"
    } else if d == 2 {
        "2"
    } else if d == 3 {
        "3"
    } else if d == 4 {
        "4"
    } else if d == 5 {
        "5"
    } else if d == 6 {
        "6"
    } else if d == 7 {
        "7"
    } else if d == 8 {
        "8"
    } else {
        "9"
    }
}

/// Append the decimal rendering of `n` to `out`.
pub fn push_decimal(out: &mut String, n: u64)
    ensures
        final(out)@ == old(out)@ + decimal(n as nat),
    decreases n,
{
    if n < 10 {
        out.append(digit_str(n));
    } else {
        push_decimal(out, n / 10);
        out.append(digit_str(n % 10));
        assert(decimal(n as nat) == decimal((n / 10) as nat) + seq![digit_char((n % 10) as int)]);
    }
}

/// Append `true` or `false` to `out`.
pub fn push_bool(out: &mut String, b: bool)
    ensures
        final(out)@ == old(out)@ + bool_text(b),
{
    proof {
        reveal_strlit("true");
        reveal_strlit("false");
    }
    if b {
        out.append("true");
    } else {
        out.append("false");
    }
}

/// Append a string slice to `out`.
pub fn push_str(out: &mut String, s: &str)
    ensures
        final(out)@ == old(out)@ + s@,
{
    out.append(s);
}

/// The views of a list of string slices.
pub open spec fn str_views(v: Seq<&'static str>) -> Seq<Seq<char>> {
    v.map_values(|x: &'static str| x@)
}

/// Membership of a string slice in a list, compared as character sequences.
pub fn str_list_contains(v: &Vec<&'static str>, x: &str) -> (r: bool)
    ensures
        r == str_views(v@).contains(x@),
{
    let mut i: usize = 0;
    while i < v.len()
        invariant
            i <= v.len(),
            forall|k: int| 0 <= k < i ==> v@[k]@ != x@,
        decreases v.len() - i,
    {
        if str_eq(v[i], x) {
            assert(str_views(v@)[i as int] == x@);
            return true;
        }
        i = i + 1;
    }
    assert forall|k: int| 0 <= k < str_views(v@).len() implies str_views(v@)[k] != x@ by {
        assert(v@[k]@ != x@);
    }
    false
}

/// Rendering one more row extends the flattened rendering of the prefix by that row.
pub proof fn lemma_flatten_step<T>(s: Seq<T>, f: spec_fn(T) -> Seq<char>, i: int)
    requires
        0 <= i < s.len(),
    ensures
        s.take(i + 1).map_values(f).flatten() == s.take(i).map_values(f).flatten() + f(s[i]),
{
    assert(s.take(i + 1).map_values(f) =~= s.take(i).map_values(f).push(f(s[i])));
    s.take(i).map_values(f).lemma_flatten_push(f(s[i]));
}

/// The whole of a sequence renders as the rendering of all of it.
pub proof fn lemma_take_all<T>(s: Seq<T>)
    ensures
        s.take(s.len() as int) == s,
{
    assert(s.take(s.len() as int) =~= s);
}

/// A flattened list splits around any of its entries.
pub proof fn lemma_flatten_split(l: Seq<Seq<char>>, k: int)
    requires
        0 <= k < l.len(),
    ensures
        l.flatten() == l.take(k).flatten() + l[k] + l.skip(k + 1).flatten(),
    decreases k,
{
    if k == 0 {
        assert(l.take(0) =~= Seq::<Seq<char>>::empty());
        assert(l.skip(1) =~= l.drop_first());
        assert(l.take(0).flatten() =~= Seq::<char>::empty());
        assert(l.flatten() =~= l.take(0).flatten() + l[0] + l.skip(1).flatten());
    } else {
        let t = l.drop_first();
        lemma_flatten_split(t, k - 1);
        assert(t.take(k - 1) =~= l.take(k).drop_first());
        assert(t.skip(k) =~= l.skip(k + 1));
        assert(l.take(k)[0] == l[0]);
        assert(l.take(k).flatten() == l[0] + l.take(k).drop_first().flatten());
        assert(l.flatten() =~= l.take(k).flatten() + l[k] + l.skip(k + 1).flatten());
    }
}

/// An occurrence inside one rendered entry is an occurrence in the whole rendering.
pub proof fn lemma_contains_entry(l: Seq<Seq<char>>, k: int, p: Seq<char>)
    requires
        0 <= k < l.len(),
        seq_contains(l[k], p),
    ensures
        seq_contains(l.flatten(), p),
{
    lemma_flatten_split(l, k);
    lemma_contains_extend(l.take(k).flatten(), l[k], l.skip(k + 1).flatten(), p);
}

/// Number of entries of `s` that satisfy `p`.
pub open spec fn count_where<T>(s: Seq<T>, p: spec_fn(T) -> bool) -> nat
    decreases s.len(),
{
    if s.len() == 0 {
        0
    } else {
        count_where(s.drop_last(), p) + if p(s.last()) {
            1nat
        } else {
            0nat
        }
    }
}

/// Counting one more entry adds one exactly when it satisfies the predicate.
pub proof fn lemma_count_step<T>(s: Seq<T>, p: spec_fn(T) -> bool, i: int)
    requires
        0 <= i < s.len(),
    ensures
        count_where(s.take(i + 1), p) == count_where(s.take(i), p) + if p(s[i]) {
            1nat
        } else {
            0nat
        },
{
    assert(s.take(i + 1).drop_last() =~= s.take(i));
}

} // verus!
