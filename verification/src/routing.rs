//! The route table: method + path patterns with at most one kind of
//! dynamic segment (a named capture matching a single non-empty path
//! component), exact matching on static segments, and extraction of
//! the captured components.

use vstd::prelude::*;

use crate::http::Method;
use crate::text::{chars_eq, chars_of, spec_split, split_chars, views_of};

verus! {

/// The path segments of a request path: the leading `/` is dropped,
/// the remainder is split on `/`. The root path `/` (and the empty
/// path) have no segments.
pub open spec fn spec_path_segments(p: Seq<char>) -> Seq<Seq<char>> {
    let body = if p.len() > 0 && p[0] == '/' {
        p.skip(1)
    } else {
        p
    };
    if body.len() == 0 {
        Seq::empty()
    } else {
        spec_split(body, '/')
    }
}

/// Split a request path into its segments.
pub fn path_segments(p: &str) -> (r: Vec<Vec<char>>)
    ensures
        views_of(r@) == spec_path_segments(p@),
{
    let mut v = chars_of(p);
    if v.len() > 0 && v[0] == '/' {
        v.remove(0);
        assert(v@ =~= p@.skip(1));
    }
    if v.len() == 0 {
        let r: Vec<Vec<char>> = Vec::new();
        assert(views_of(r@) =~= Seq::<Seq<char>>::empty());
        r
    } else {
        split_chars(&v, '/')
    }
}

/// One segment of a route pattern: either a literal component that a
/// path segment must equal exactly (case-sensitive), or a capture
/// that matches any single non-empty component.
pub enum SegPat {
    Lit(Vec<char>),
    Capture,
}

/// A route pattern: a method plus a sequence of segment patterns.
/// The whole path must match (no partial prefixes).
pub struct RoutePattern {
    pub method: Method,
    pub segs: Vec<SegPat>,
}

/// The handlers the service dispatches to.
#[derive(Clone, Copy, Debug, PartialEq, Eq, Structural)]
pub enum HandlerId {
    Index,
    Greet,
}

/// A registered route: a pattern and the handler it dispatches to.
pub struct Route {
    pub pattern: RoutePattern,
    pub handler: HandlerId,
}

/// The route table, fixed at startup and immutable thereafter.
pub struct RouteTable {
    pub routes: Vec<Route>,
}

impl SegPat {
    /// Whether one path segment satisfies this segment pattern.
    pub open spec fn matches(self, seg: Seq<char>) -> bool {
        match self {
            SegPat::Lit(l) => seg == l@,
            SegPat::Capture => seg.len() > 0,
        }
    }
}

impl RoutePattern {
    /// Whether a request's method and full segment list satisfy this
    /// pattern: same method, same number of segments, every segment
    /// accepted by its pattern.
    pub open spec fn matches(self, method: Method, segs: Seq<Seq<char>>) -> bool {
        &&& method == self.method
        &&& segs.len() == self.segs@.len()
        &&& forall|i: int| 0 <= i < segs.len() ==> #[trigger] self.segs@[i].matches(segs[i])
    }
}

/// The path segments standing at the capture positions of `pats`,
/// in order.
pub open spec fn spec_captures(pats: Seq<SegPat>, segs: Seq<Seq<char>>) -> Seq<Seq<char>>
    decreases pats.len(),
{
    if pats.len() == 0 || segs.len() == 0 {
        Seq::empty()
    } else {
        match pats[0] {
            SegPat::Capture => seq![segs[0]] + spec_captures(pats.skip(1), segs.skip(1)),
            SegPat::Lit(_) => spec_captures(pats.skip(1), segs.skip(1)),
        }
    }
}

/// Extending pattern and path by one segment extends the captures by
/// that segment exactly when the new pattern position is a capture.
proof fn lemma_captures_push(pats: Seq<SegPat>, segs: Seq<Seq<char>>, p: SegPat, s: Seq<char>)
    requires
        pats.len() == segs.len(),
    ensures
        spec_captures(pats.push(p), segs.push(s)) == spec_captures(pats, segs) + (
        if p is Capture {
            seq![s]
        } else {
            Seq::<Seq<char>>::empty()
        }),
    decreases pats.len(),
{
    if pats.len() == 0 {
        assert(pats.push(p)[0] == p);
        assert(segs.push(s)[0] == s);
        assert(pats.push(p).skip(1) =~= Seq::<SegPat>::empty());
        assert(segs.push(s).skip(1) =~= Seq::<Seq<char>>::empty());
        assert(spec_captures(pats.push(p).skip(1), segs.push(s).skip(1)) == Seq::<
            Seq<char>,
        >::empty());
        assert(spec_captures(pats, segs) == Seq::<Seq<char>>::empty());
        if p is Capture {
            assert(spec_captures(pats.push(p), segs.push(s)) == seq![s] + Seq::<
                Seq<char>,
            >::empty());
            assert(seq![s] + Seq::<Seq<char>>::empty() =~= seq![s]);
            assert(spec_captures(pats, segs) + seq![s] =~= seq![s]);
        } else {
            assert(spec_captures(pats, segs) + Seq::<Seq<char>>::empty() =~= Seq::<
                Seq<char>,
            >::empty());
        }
    } else {
        lemma_captures_push(pats.skip(1), segs.skip(1), p, s);
        assert(pats.push(p).skip(1) =~= pats.skip(1).push(p));
        assert(segs.push(s).skip(1) =~= segs.skip(1).push(s));
        assert(pats.push(p)[0] == pats[0]);
        assert(segs.push(s)[0] == segs[0]);
        match pats[0] {
            SegPat::Capture => {
                assert(spec_captures(pats.push(p), segs.push(s)) == seq![segs[0]]
                    + spec_captures(pats.skip(1).push(p), segs.skip(1).push(s)));
                assert(seq![segs[0]] + (spec_captures(pats.skip(1), segs.skip(1)) + (
                if p is Capture {
                    seq![s]
                } else {
                    Seq::<Seq<char>>::empty()
                })) =~= (seq![segs[0]] + spec_captures(pats.skip(1), segs.skip(1))) + (
                if p is Capture {
                    seq![s]
                } else {
                    Seq::<Seq<char>>::empty()
                }));
            },
            SegPat::Lit(_) => {},
        }
    }
}

/// Matching one pattern against a segment list: `Some` holding the
/// captured segments exactly when the pattern matches.
fn pattern_match(p: &RoutePattern, method: Method, segs: &Vec<Vec<char>>) -> (r: Option<
    Vec<Vec<char>>,
>)
    ensures
        r is Some <==> p.matches(method, views_of(segs@)),
        r matches Some(ps) ==> views_of(ps@) == spec_captures(p.segs@, views_of(segs@)),
{
    if !method.eq_method(p.method) {
        return None;
    }
    if p.segs.len() != segs.len() {
        return None;
    }
    let ghost sdv = views_of(segs@);
    assert(sdv.len() == segs@.len());
    let mut caps: Vec<Vec<char>> = Vec::new();
    let mut i: usize = 0;
    while i < segs.len()
        invariant
            sdv == views_of(segs@),
            sdv.len() == segs@.len(),
            p.segs@.len() == segs@.len(),
            i <= segs@.len(),
            forall|j: int| 0 <= j < i ==> #[trigger] p.segs@[j].matches(sdv[j]),
            views_of(caps@) == spec_captures(p.segs@.take(i as int), sdv.take(i as int)),
        decreases segs@.len() - i,
    {
        let ghost old_caps = views_of(caps@);
        match &p.segs[i] {
            SegPat::Lit(l) => {
                if !chars_eq(&segs[i], l) {
                    assert(!p.segs@[i as int].matches(sdv[i as int]));
                    return None;
                }
            },
            SegPat::Capture => {
                if segs[i].len() == 0 {
                    assert(!p.segs@[i as int].matches(sdv[i as int]));
                    return None;
                }
                let c = segs[i].clone();
                assert(c@ == sdv[i as int]);
                caps.push(c);
            },
        }
        proof {
            lemma_captures_push(
                p.segs@.take(i as int),
                sdv.take(i as int),
                p.segs@[i as int],
                sdv[i as int],
            );
            assert(p.segs@.take(i + 1 as int) =~= p.segs@.take(i as int).push(p.segs@[i as int]));
            assert(sdv.take(i + 1 as int) =~= sdv.take(i as int).push(sdv[i as int]));
            if p.segs@[i as int] is Capture {
                assert(views_of(caps@) =~= old_caps + seq![sdv[i as int]]);
            } else {
                assert(views_of(caps@) =~= old_caps + Seq::<Seq<char>>::empty());
            }
        }
        i = i + 1;
    }
    proof {
        assert(p.segs@.take(segs@.len() as int) =~= p.segs@);
        assert(sdv.take(segs@.len() as int) =~= sdv);
        assert(p.matches(method, sdv));
    }
    Some(caps)
}

impl Method {
    /// Method equality, usable from executable code.
    pub fn eq_method(self, other: Method) -> (r: bool)
        ensures
            r == (self == other),
    {
        self == other
    }
}

/// First-match dispatch over a list of routes.
pub open spec fn spec_match_from(
    routes: Seq<Route>,
    method: Method,
    segs: Seq<Seq<char>>,
) -> Option<(HandlerId, Seq<Seq<char>>)>
    decreases routes.len(),
{
    if routes.len() == 0 {
        None
    } else if routes[0].pattern.matches(method, segs) {
        Some((routes[0].handler, spec_captures(routes[0].pattern.segs@, segs)))
    } else {
        spec_match_from(routes.skip(1), method, segs)
    }
}

/// First-match dispatch finds a route that matches and returns its
/// handler with the captures of its pattern; it returns `None` exactly
/// when no registered route matches. Because registered patterns are
/// non-overlapping by construction, the matching route is unique, so
/// registration order does not affect the outcome.
pub proof fn lemma_match_sound(routes: Seq<Route>, method: Method, segs: Seq<Seq<char>>)
    ensures
        spec_match_from(routes, method, segs) matches Some((h, ps)) ==> exists|i: int|
            0 <= i < routes.len() && (#[trigger] routes[i].pattern.matches(method, segs))
                && routes[i].handler == h && ps == spec_captures(routes[i].pattern.segs@, segs),
        spec_match_from(routes, method, segs) is None <==> forall|i: int|
            0 <= i < routes.len() ==> !(#[trigger] routes[i].pattern.matches(method, segs)),
    decreases routes.len(),
{
    if routes.len() != 0 {
        lemma_match_sound(routes.skip(1), method, segs);
        if !routes[0].pattern.matches(method, segs) {
            assert forall|i: int| 1 <= i < routes.len() implies routes.skip(1)[i - 1]
                == routes[i] by {}
            let m = spec_match_from(routes.skip(1), method, segs);
            if m is Some {
                let h = m->Some_0.0;
                let ps = m->Some_0.1;
                let j = choose|j: int|
                    0 <= j < routes.skip(1).len() && (#[trigger] routes.skip(
                        1,
                    )[j].pattern.matches(method, segs)) && routes.skip(1)[j].handler == h && ps
                        == spec_captures(routes.skip(1)[j].pattern.segs@, segs);
                assert(routes[j + 1].pattern.matches(method, segs));
            }
        }
    }
}

impl RouteTable {
    /// The table's dispatch outcome, as a mathematical function of the
    /// method and the path segments.
    pub open spec fn spec_match(self, method: Method, segs: Seq<Seq<char>>) -> Option<
        (HandlerId, Seq<Seq<char>>),
    > {
        spec_match_from(self.routes@, method, segs)
    }

    /// Dispatch a request: the handler of the first matching route and
    /// the captured path parameters, or `None` when no route matches
    /// (the caller must answer "not found").
    pub fn match_request(&self, method: Method, segs: &Vec<Vec<char>>) -> (r: Option<
        (HandlerId, Vec<Vec<char>>),
    >)
        ensures
            r is None ==> self.spec_match(method, views_of(segs@)) is None,
            r matches Some((h, ps)) ==> self.spec_match(method, views_of(segs@)) == Some(
                (h, views_of(ps@)),
            ),
    {
        let ghost sdv = views_of(segs@);
        assert(self.routes@.skip(0) =~= self.routes@);
        let mut i: usize = 0;
        while i < self.routes.len()
            invariant
                sdv == views_of(segs@),
                i <= self.routes@.len(),
                spec_match_from(self.routes@, method, sdv) == spec_match_from(
                    self.routes@.skip(i as int),
                    method,
                    sdv,
                ),
            decreases self.routes@.len() - i,
        {
            let route = &self.routes[i];
            if let Some(ps) = pattern_match(&route.pattern, method, segs) {
                assert(self.routes@.skip(i as int)[0] == self.routes@[i as int]);
                return Some((route.handler, ps));
            }
            proof {
                assert(self.routes@.skip(i as int)[0] == self.routes@[i as int]);
                assert(self.routes@.skip(i as int).skip(1) =~= self.routes@.skip(i + 1 as int));
            }
            i = i + 1;
        }
        assert(self.routes@.skip(self.routes@.len() as int) =~= Seq::<Route>::empty());
        None
    }
}

/// Whether a route is the greeting route: `GET` on a two-segment path
/// whose first segment is the literal `greet` and whose second is a
/// capture, dispatching to the greeting handler.
pub open spec fn is_greet_route(r: Route) -> bool {
    &&& r.pattern.method == Method::Get
    &&& r.pattern.segs@.len() == 2
    &&& r.pattern.segs@[0] matches SegPat::Lit(l) && l@ == "greet"@
    &&& r.pattern.segs@[1] is Capture
    &&& r.handler == HandlerId::Greet
}

/// Whether a route is the index route: `GET` on the empty path,
/// dispatching to the index handler.
pub open spec fn is_index_route(r: Route) -> bool {
    &&& r.pattern.method == Method::Get
    &&& r.pattern.segs@.len() == 0
    &&& r.handler == HandlerId::Index
}

impl RouteTable {
    /// Whether this table holds exactly the service's two routes.
    pub open spec fn is_default_table(self) -> bool {
        &&& self.routes@.len() == 2
        &&& is_greet_route(self.routes@[0])
        &&& is_index_route(self.routes@[1])
    }
}

/// Build the service's route table: the greeting route and the index
/// route. The static-asset prefix is not a route; the pipeline mounts
/// it before consulting the table.
pub fn default_route_table() -> (t: RouteTable)
    ensures
        t.is_default_table(),
{
    let greet_lit = chars_of("greet");
    let mut greet_segs: Vec<SegPat> = Vec::new();
    greet_segs.push(SegPat::Lit(greet_lit));
    greet_segs.push(SegPat::Capture);
    let greet = Route {
        pattern: RoutePattern { method: Method::Get, segs: greet_segs },
        handler: HandlerId::Greet,
    };
    let index = Route {
        pattern: RoutePattern { method: Method::Get, segs: Vec::new() },
        handler: HandlerId::Index,
    };
    let mut routes: Vec<Route> = Vec::new();
    routes.push(greet);
    routes.push(index);
    RouteTable { routes }
}

/// The service's two routes are non-overlapping: no method and path
/// satisfy both patterns, so registration order cannot affect the
/// dispatch outcome.
pub proof fn lemma_default_table_non_overlapping(
    t: RouteTable,
    method: Method,
    segs: Seq<Seq<char>>,
)
    requires
        t.is_default_table(),
    ensures
        !(t.routes@[0].pattern.matches(method, segs) && t.routes@[1].pattern.matches(
            method,
            segs,
        )),
{
}

/// In the service's table, a `GET` of `greet` followed by any single
/// non-empty component dispatches to the greeting handler, and the
/// captured parameter is exactly that component.
pub proof fn lemma_greet_route_extraction(t: RouteTable, name: Seq<char>)
    requires
        t.is_default_table(),
        name.len() > 0,
    ensures
        t.spec_match(Method::Get, seq!["greet"@, name]) == Some(
            (HandlerId::Greet, seq![name]),
        ),
{
    let segs = seq!["greet"@, name];
    let pats = t.routes@[0].pattern.segs@;
    assert(pats[0].matches(segs[0]));
    assert(pats[1].matches(segs[1]));
    assert(t.routes@[0].pattern.matches(Method::Get, segs));
    assert(pats.skip(1).skip(1) =~= Seq::<SegPat>::empty());
    assert(segs.skip(1).skip(1) =~= Seq::<Seq<char>>::empty());
    assert(pats.skip(1)[0] == pats[1]);
    assert(segs.skip(1)[0] == name);
    assert(spec_captures(pats.skip(1).skip(1), segs.skip(1).skip(1)) == Seq::<
        Seq<char>,
    >::empty());
    assert(spec_captures(pats.skip(1), segs.skip(1)) == seq![name] + Seq::<Seq<char>>::empty());
    assert(seq![name] + Seq::<Seq<char>>::empty() =~= seq![name]);
    assert(spec_captures(pats, segs) == seq![name]);
}

/// In the service's table, a `GET` of the empty path dispatches to the
/// index handler with no captured parameters.
pub proof fn lemma_index_route_extraction(t: RouteTable)
    requires
        t.is_default_table(),
    ensures
        t.spec_match(Method::Get, Seq::<Seq<char>>::empty()) == Some(
            (HandlerId::Index, Seq::<Seq<char>>::empty()),
        ),
{
    let segs = Seq::<Seq<char>>::empty();
    assert(!t.routes@[0].pattern.matches(Method::Get, segs));
    assert(t.routes@.skip(1)[0] == t.routes@[1]);
    assert(t.routes@[1].pattern.matches(Method::Get, segs));
    assert(spec_captures(t.routes@.skip(1)[0].pattern.segs@, segs) == Seq::<Seq<char>>::empty());
    assert(spec_match_from(t.routes@.skip(1), Method::Get, segs) == Some(
        (HandlerId::Index, Seq::<Seq<char>>::empty()),
    ));
}

} // verus!
