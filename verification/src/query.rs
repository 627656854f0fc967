//! Query-string parsing: `a=1&b=2` becomes key/value pairs. A piece
//! without `=` is a key with an empty value; everything after the
//! first `=` of a piece, further `=` included, is the value. When a
//! key occurs more than once, lookup takes the first occurrence.

use vstd::prelude::*;

use crate::text::{chars_eq_str, spec_split, spec_split_first, split_chars, split_first_char,
    chars_of, views_of};

verus! {

/// The key/value pairs of a raw query string, in order of appearance.
/// The empty query has no pairs.
pub open spec fn spec_query_pairs(q: Seq<char>) -> Seq<(Seq<char>, Seq<char>)> {
    if q.len() == 0 {
        Seq::empty()
    } else {
        let pieces = spec_split(q, '&');
        Seq::new(pieces.len(), |i: int| spec_split_first(pieces[i], '='))
    }
}

/// The views of a vector of key/value pairs, element by element.
pub open spec fn pair_views(v: Seq<(Vec<char>, Vec<char>)>) -> Seq<(Seq<char>, Seq<char>)> {
    Seq::new(v.len(), |i: int| (v[i].0@, v[i].1@))
}

/// Parse a raw query string into its key/value pairs.
pub fn parse_query(q: &str) -> (r: Vec<(Vec<char>, Vec<char>)>)
    ensures
        pair_views(r@) == spec_query_pairs(q@),
{
    let v = chars_of(q);
    let mut out: Vec<(Vec<char>, Vec<char>)> = Vec::new();
    if v.len() == 0 {
        assert(pair_views(out@) =~= spec_query_pairs(q@));
        return out;
    }
    let pieces = split_chars(&v, '&');
    let ghost pv = views_of(pieces@);
    let mut i: usize = 0;
    while i < pieces.len()
        invariant
            pv == views_of(pieces@),
            pv == spec_split(q@, '&'),
            i <= pieces@.len(),
            pair_views(out@) =~= Seq::new(i as nat, |k: int| spec_split_first(pv[k], '=')),
        decreases pieces@.len() - i,
    {
        let ghost old_out = pair_views(out@);
        let kv = split_first_char(&pieces[i], '=');
        out.push(kv);
        proof {
            assert(pieces@[i as int]@ == pv[i as int]);
            assert(pair_views(out@) =~= old_out.push(spec_split_first(pv[i as int], '=')));
            assert(Seq::new((i + 1) as nat, |k: int| spec_split_first(pv[k], '=')) =~= Seq::new(
                i as nat,
                |k: int| spec_split_first(pv[k], '='),
            ).push(spec_split_first(pv[i as int], '=')));
        }
        i = i + 1;
    }
    proof {
        assert(q@.len() > 0);
        assert(pair_views(out@) =~= spec_query_pairs(q@));
    }
    out
}

/// The value of the first pair whose key is `key`, if any.
pub open spec fn spec_lookup_first(
    pairs: Seq<(Seq<char>, Seq<char>)>,
    key: Seq<char>,
) -> Option<Seq<char>>
    decreases pairs.len(),
{
    if pairs.len() == 0 {
        None
    } else if pairs[0].0 == key {
        Some(pairs[0].1)
    } else {
        spec_lookup_first(pairs.skip(1), key)
    }
}

/// Look a key up among parsed pairs; the first occurrence wins.
pub fn lookup_first(pairs: &Vec<(Vec<char>, Vec<char>)>, key: &str) -> (r: Option<Vec<char>>)
    ensures
        r is None ==> spec_lookup_first(pair_views(pairs@), key@) is None,
        r matches Some(v) ==> spec_lookup_first(pair_views(pairs@), key@) == Some(v@),
{
    let ghost pv = pair_views(pairs@);
    assert(pv.skip(0) =~= pv);
    let mut i: usize = 0;
    while i < pairs.len()
        invariant
            pv == pair_views(pairs@),
            i <= pairs@.len(),
            spec_lookup_first(pv, key@) == spec_lookup_first(pv.skip(i as int), key@),
        decreases pairs@.len() - i,
    {
        proof {
            assert(pv.skip(i as int)[0] == pv[i as int]);
            assert(pv.skip(i as int).skip(1) =~= pv.skip(i + 1 as int));
        }
        if chars_eq_str(&pairs[i].0, key) {
            let v = pairs[i].1.clone();
            assert(v@ == pv[i as int].1);
            return Some(v);
        }
        i = i + 1;
    }
    assert(pv.skip(pv.len() as int) =~= Seq::<(Seq<char>, Seq<char>)>::empty());
    None
}

/// The value the greeting handler reads for a key from an optional raw
/// query string: `None` when the request had no query string or the
/// key does not occur.
pub open spec fn spec_query_value(q: Option<Seq<char>>, key: Seq<char>) -> Option<Seq<char>> {
    match q {
        Option::None => None,
        Option::Some(qs) => spec_lookup_first(spec_query_pairs(qs), key),
    }
}

/// Look a key up in an optional raw query string.
pub fn query_value(q: &Option<String>, key: &str) -> (r: Option<Vec<char>>)
    ensures
        r is None ==> spec_query_value(spec_opt_view(q), key@) is None,
        r matches Some(v) ==> spec_query_value(spec_opt_view(q), key@) == Some(v@),
{
    match q {
        Option::None => None,
        Option::Some(qs) => {
            let pairs = parse_query(qs.as_str());
            lookup_first(&pairs, key)
        },
    }
}

/// The view of an optional string.
pub open spec fn spec_opt_view(q: &Option<String>) -> Option<Seq<char>> {
    match q {
        Option::None => None,
        Option::Some(qs) => Some(qs@),
    }
}

} // verus!
