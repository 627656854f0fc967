//! Character-sequence utilities shared by the routing, templating and
//! asset modules: conversions between `str`/`String` and `Vec<char>`,
//! and element-wise equality of character vectors.

use vstd::prelude::*;

verus! {

/// The views of a sequence of character vectors, element by element.
pub open spec fn views_of(v: Seq<Vec<char>>) -> Seq<Seq<char>> {
    Seq::new(v.len(), |i: int| v[i]@)
}

/// Relies on `String::push`: appends exactly the one character.
#[verifier::external_body]
pub fn push_char(s: &mut String, c: char)
    ensures
        final(s)@ == old(s)@.push(c),
{
    s.push(c);
}

/// The characters of `s`, in order, as a vector.
pub fn chars_of(s: &str) -> (r: Vec<char>)
    ensures
        r@ == s@,
{
    let n = s.unicode_len();
    let mut r: Vec<char> = Vec::new();
    let mut i: usize = 0;
    while i < n
        invariant
            n == s@.len(),
            i <= n,
            r@ == s@.take(i as int),
        decreases n - i,
    {
        let c = s.get_char(i);
        r.push(c);
        assert(s@.take(i + 1 as int) =~= s@.take(i as int).push(s@[i as int]));
        i = i + 1;
    }
    assert(s@.take(n as int) =~= s@);
    r
}

/// The string holding exactly the characters of `v`, in order.
pub fn string_of(v: &Vec<char>) -> (r: String)
    ensures
        r@ == v@,
{
    let mut r = String::new();
    let mut i: usize = 0;
    while i < v.len()
        invariant
            i <= v.len(),
            r@ == v@.take(i as int),
        decreases v.len() - i,
    {
        push_char(&mut r, v[i]);
        assert(v@.take(i + 1 as int) =~= v@.take(i as int).push(v@[i as int]));
        i = i + 1;
    }
    assert(v@.take(v@.len() as int) =~= v@);
    r
}

/// Element-wise equality of two character vectors.
pub fn chars_eq(a: &Vec<char>, b: &Vec<char>) -> (r: bool)
    ensures
        r == (a@ == b@),
{
    if a.len() != b.len() {
        assert(a@ != b@);
        return false;
    }
    let mut i: usize = 0;
    while i < a.len()
        invariant
            a@.len() == b@.len(),
            i <= a@.len(),
            forall|j: int| 0 <= j < i ==> a@[j] == b@[j],
        decreases a.len() - i,
    {
        if a[i] != b[i] {
            return false;
        }
        i = i + 1;
    }
    assert(a@ =~= b@);
    true
}

/// Append every character of `s` to `r`.
pub fn append_str_chars(r: &mut Vec<char>, s: &str)
    ensures
        final(r)@ == old(r)@ + s@,
{
    let cs = chars_of(s);
    assert(r@ + cs@.take(0) =~= r@);
    let mut i: usize = 0;
    while i < cs.len()
        invariant
            cs@ == s@,
            i <= cs@.len(),
            r@ == old(r)@ + cs@.take(i as int),
        decreases cs@.len() - i,
    {
        r.push(cs[i]);
        assert(cs@.take(i + 1 as int) =~= cs@.take(i as int).push(cs@[i as int]));
        assert(old(r)@ + cs@.take(i as int).push(cs@[i as int]) =~= (old(r)@ + cs@.take(i as int)).push(
            cs@[i as int],
        ));
        i = i + 1;
    }
    assert(cs@.take(cs@.len() as int) =~= cs@);
}

/// Append every character of `s` to `r`.
pub fn append_chars(r: &mut Vec<char>, s: &Vec<char>)
    ensures
        final(r)@ == old(r)@ + s@,
{
    assert(r@ + s@.take(0) =~= r@);
    let mut i: usize = 0;
    while i < s.len()
        invariant
            i <= s@.len(),
            r@ == old(r)@ + s@.take(i as int),
        decreases s@.len() - i,
    {
        r.push(s[i]);
        assert(s@.take(i + 1 as int) =~= s@.take(i as int).push(s@[i as int]));
        assert(old(r)@ + s@.take(i as int).push(s@[i as int]) =~= (old(r)@ + s@.take(i as int)).push(
            s@[i as int],
        ));
        i = i + 1;
    }
    assert(s@.take(s@.len() as int) =~= s@);
}

/// Whether the characters of two string slices are equal.
pub fn str_eq(a: &str, b: &str) -> (r: bool)
    ensures
        r == (a@ == b@),
{
    let av = chars_of(a);
    let bv = chars_of(b);
    chars_eq(&av, &bv)
}

/// Splitting `s` at every occurrence of `sep`, having already read the
/// characters of `cur` as the start of the current piece. Splitting
/// yields one piece more than there are separators; pieces may be
/// empty.
pub open spec fn spec_split_rec(s: Seq<char>, sep: char, cur: Seq<char>) -> Seq<Seq<char>>
    decreases s.len(),
{
    if s.len() == 0 {
        seq![cur]
    } else if s[0] == sep {
        seq![cur] + spec_split_rec(s.skip(1), sep, Seq::empty())
    } else {
        spec_split_rec(s.skip(1), sep, cur.push(s[0]))
    }
}

/// The pieces of `s` between occurrences of `sep`, in order.
pub open spec fn spec_split(s: Seq<char>, sep: char) -> Seq<Seq<char>> {
    spec_split_rec(s, sep, Seq::empty())
}

/// Split a character vector at every occurrence of `sep`.
pub fn split_chars(s: &Vec<char>, sep: char) -> (r: Vec<Vec<char>>)
    ensures
        views_of(r@) == spec_split(s@, sep),
{
    let mut pieces: Vec<Vec<char>> = Vec::new();
    let mut cur: Vec<char> = Vec::new();
    assert(s@.skip(0) =~= s@);
    assert(views_of(pieces@) + spec_split_rec(s@, sep, cur@) =~= spec_split_rec(s@, sep, cur@));
    let mut i: usize = 0;
    while i < s.len()
        invariant
            i <= s@.len(),
            spec_split(s@, sep) == views_of(pieces@) + spec_split_rec(
                s@.skip(i as int),
                sep,
                cur@,
            ),
        decreases s@.len() - i,
    {
        let ghost old_pieces = views_of(pieces@);
        let ghost old_cur = cur@;
        proof {
            assert(s@.skip(i as int)[0] == s@[i as int]);
            assert(s@.skip(i as int).skip(1) =~= s@.skip(i + 1 as int));
        }
        if s[i] == sep {
            pieces.push(cur);
            cur = Vec::new();
            proof {
                assert(views_of(pieces@) =~= old_pieces.push(old_cur));
                assert(old_pieces + (seq![old_cur] + spec_split_rec(
                    s@.skip(i + 1 as int),
                    sep,
                    Seq::empty(),
                )) =~= old_pieces.push(old_cur) + spec_split_rec(
                    s@.skip(i + 1 as int),
                    sep,
                    Seq::empty(),
                ));
            }
        } else {
            cur.push(s[i]);
            assert(cur@ == old_cur.push(s@[i as int]));
        }
        i = i + 1;
    }
    assert(s@.skip(s@.len() as int) =~= Seq::<char>::empty());
    let ghost old_pieces = views_of(pieces@);
    let ghost last = cur@;
    pieces.push(cur);
    proof {
        assert(views_of(pieces@) =~= old_pieces.push(last));
        assert(old_pieces + seq![last] =~= old_pieces.push(last));
    }
    pieces
}

/// Splitting `s` at the first occurrence of `sep`: the part before it
/// and the part after it. Without an occurrence, the first part is all
/// of `s` and the second is empty.
pub open spec fn spec_split_first(s: Seq<char>, sep: char) -> (Seq<char>, Seq<char>)
    decreases s.len(),
{
    if s.len() == 0 {
        (Seq::empty(), Seq::empty())
    } else if s[0] == sep {
        (Seq::empty(), s.skip(1))
    } else {
        let rest = spec_split_first(s.skip(1), sep);
        (seq![s[0]] + rest.0, rest.1)
    }
}

/// Splitting at the first separator takes everything before its first
/// position and everything after it.
proof fn lemma_split_first_at(s: Seq<char>, sep: char, j: int)
    requires
        0 <= j <= s.len(),
        forall|k: int| 0 <= k < j ==> s[k] != sep,
        j < s.len() ==> s[j] == sep,
    ensures
        j < s.len() ==> spec_split_first(s, sep) == (s.take(j), s.skip(j + 1)),
        j == s.len() ==> spec_split_first(s, sep) == (s, Seq::<char>::empty()),
    decreases s.len(),
{
    if s.len() == 0 {
        assert(s =~= Seq::<char>::empty());
    } else if j == 0 {
        if j < s.len() {
            assert(s.take(0) =~= Seq::<char>::empty());
        }
    } else {
        lemma_split_first_at(s.skip(1), sep, j - 1);
        assert(forall|k: int| 0 <= k < j - 1 ==> s.skip(1)[k] == s[k + 1]);
        if j < s.len() {
            assert(s.skip(1)[j - 1] == s[j]);
            assert(seq![s[0]] + s.skip(1).take(j - 1) =~= s.take(j));
            assert(s.skip(1).skip(j) =~= s.skip(j + 1));
        } else {
            assert(seq![s[0]] + s.skip(1) =~= s);
        }
    }
}

/// Split a character vector at the first occurrence of `sep`.
pub fn split_first_char(s: &Vec<char>, sep: char) -> (r: (Vec<char>, Vec<char>))
    ensures
        (r.0@, r.1@) == spec_split_first(s@, sep),
{
    let n = s.len();
    let mut j: usize = 0;
    while j < n && s[j] != sep
        invariant
            n == s@.len(),
            j <= n,
            forall|k: int| 0 <= k < j ==> s@[k] != sep,
        decreases n - j,
    {
        j = j + 1;
    }
    proof {
        lemma_split_first_at(s@, sep, j as int);
    }
    let mut before: Vec<char> = Vec::new();
    let mut i: usize = 0;
    while i < j
        invariant
            j <= s@.len(),
            i <= j,
            before@ == s@.take(j as int).take(i as int),
        decreases j - i,
    {
        before.push(s[i]);
        assert(s@.take(j as int).take(i + 1 as int) =~= s@.take(j as int).take(i as int).push(
            s@[i as int],
        ));
        i = i + 1;
    }
    assert(s@.take(j as int).take(j as int) =~= s@.take(j as int));
    let mut after: Vec<char> = Vec::new();
    if j < s.len() {
        let mut k: usize = j + 1;
        while k < s.len()
            invariant
                j + 1 <= k <= s@.len(),
                after@ == s@.skip(j + 1 as int).take(k - (j + 1) as int),
            decreases s@.len() - k,
        {
            after.push(s[k]);
            assert(s@.skip(j + 1 as int).take(k + 1 - (j + 1) as int) =~= s@.skip(
                j + 1 as int,
            ).take(k - (j + 1) as int).push(s@[k as int]));
            k = k + 1;
        }
        assert(after@ =~= s@.skip(j + 1 as int));
        assert(before@ == s@.take(j as int));
        (before, after)
    } else {
        assert(before@ =~= s@);
        assert(after@ =~= Seq::<char>::empty());
        (before, after)
    }
}

/// Whether a character vector equals the characters of a string slice.
pub fn chars_eq_str(a: &Vec<char>, s: &str) -> (r: bool)
    ensures
        r == (a@ == s@),
{
    let b = chars_of(s);
    chars_eq(a, &b)
}

} // verus!
