use vstd::prelude::*;

use crate::url::RequestContext;

verus! {

#[verifier::external_type_specification]
#[verifier::external_body]
pub struct ExRegex(regex::Regex);

#[verifier::external_type_specification]
#[verifier::external_body]
pub struct ExRegexError(regex::Error);

/// Whether `pattern` is a regular expression that `regex` accepts with its default limits.
pub uninterp spec fn regex_compiles(pattern: Seq<char>) -> bool;

/// Whether the regex compiled from `pattern` matches somewhere in `text`.
pub uninterp spec fn regex_matches(pattern: Seq<char>, text: Seq<char>) -> bool;

/// Relies on `regex::Regex::new`: it compiles a pattern with the default limits, so whether it
/// succeeds depends on the pattern alone.
#[verifier::external_body]
fn compile(pattern: &str) -> (r: Result<regex::Regex, regex::Error>)
    ensures
        r is Ok <==> regex_compiles(pattern@),
{
    regex::Regex::new(pattern)
}

/// Relies on `regex::Regex::is_match`: whether the route's regex, compiled from its pattern by
/// `RouteMatch::new`, matches anywhere in `text`.
#[verifier::external_body]
fn route_is_match<H>(route: &RouteMatch<H>, text: &str) -> (r: bool)
    ensures
        r == regex_matches(route.pattern@, text@),
{
    route.regex.is_match(text)
}

/// Why a route could not be made.
#[derive(Clone, Copy, Debug, PartialEq, Eq, Structural)]
pub enum RouteError {
    /// The pattern is not a valid regular expression.
    InvalidPattern,
}

/// A pattern for request paths and the handler for the requests it matches.
pub struct RouteMatch<H> {
    /// The text `regex` was compiled from; both are set together, only by `new`.
    pattern: String,
    regex: regex::Regex,
    handle: H,
}

impl<H> RouteMatch<H> {
    pub closed spec fn handle_spec(self) -> H {
        self.handle
    }

    pub closed spec fn pattern_spec(self) -> Seq<char> {
        self.pattern@
    }

    /// Compiles `pattern` and pairs it with `handle`.
    pub fn new(pattern: &str, handle: H) -> (r: Result<RouteMatch<H>, RouteError>)
        ensures
            r is Ok <==> regex_compiles(pattern@),
            r is Ok ==> r->Ok_0.handle_spec() == handle && r->Ok_0.pattern_spec() == pattern@,
            r is Err ==> r->Err_0 == RouteError::InvalidPattern,
    {
        match compile(pattern) {
            Ok(regex) => Ok(RouteMatch { pattern: pattern.to_owned(), regex, handle }),
            Err(_) => Err(RouteError::InvalidPattern),
        }
    }

    pub fn handle(&self) -> (r: &H)
        ensures
            *r == self.handle_spec(),
    {
        &self.handle
    }
}

/// Routes tried in order; the first whose pattern matches a request's path wins.
pub struct RouteMatchGroup<H> {
    arr: Vec<RouteMatch<H>>,
}

impl<H> RouteMatchGroup<H> {
    /// The handlers, in the order their routes are tried.
    pub closed spec fn handles(self) -> Seq<H> {
        self.arr@.map_values(|m: RouteMatch<H>| m.handle)
    }

    /// The patterns, in the order their routes are tried.
    pub closed spec fn patterns(self) -> Seq<Seq<char>> {
        self.arr@.map_values(|m: RouteMatch<H>| m.pattern@)
    }

    /// The route at `i` is the first whose pattern matches `text`.
    pub open spec fn first_match(self, i: int, text: Seq<char>) -> bool {
        &&& 0 <= i < self.patterns().len()
        &&& regex_matches(self.patterns()[i], text)
        &&& forall|j: int| 0 <= j < i ==> !regex_matches(#[trigger] self.patterns()[j], text)
    }

    pub fn new() -> (r: RouteMatchGroup<H>)
        ensures
            r.handles().len() == 0,
            r.patterns().len() == 0,
    {
        let r = RouteMatchGroup { arr: Vec::new() };
        assert(r.handles() =~= Seq::empty());
        assert(r.patterns() =~= Seq::empty());
        r
    }

    /// Adds a route after those already there.
    pub fn push(&mut self, route: RouteMatch<H>)
        ensures
            final(self).handles() == old(self).handles().push(route.handle_spec()),
            final(self).patterns() == old(self).patterns().push(route.pattern_spec()),
    {
        self.arr.push(route);
        assert(self.handles() =~= old(self).handles().push(route.handle_spec()));
        assert(self.patterns() =~= old(self).patterns().push(route.pattern_spec()));
    }

    pub fn len(&self) -> (r: usize)
        ensures
            r == self.handles().len(),
    {
        self.arr.len()
    }

    /// The handler of the first route whose pattern matches the request's path, or `None` when
    /// no route matches.
    pub fn handle_for(&self, req: &mut RequestContext) -> (r: Option<&H>)
        ensures
            final(req)@ == crate::url::parse_of(old(req)@.url),
            self.handles().len() == self.patterns().len(),
            r is Some <==> exists|i: int|
                0 <= i < self.patterns().len() && regex_matches(
                    #[trigger] self.patterns()[i],
                    final(req)@.path,
                ),
            r is Some ==> exists|i: int|
                #[trigger] self.first_match(i, final(req)@.path) && r->Some_0 == self.handles()[i],
    {
        let path = req.path();
        let text = req.text(path);
        let mut i: usize = 0;
        while i < self.arr.len()
            invariant
                i <= self.arr@.len(),
                req@ == crate::url::parse_of(old(req)@.url),
                text@ == req@.path,
                forall|j: int| 0 <= j < i ==> !regex_matches(#[trigger] self.patterns()[j], text@),
            decreases self.arr@.len() - i,
        {
            if route_is_match(&self.arr[i], text) {
                let r = Some(&self.arr[i].handle);
                assert(r->Some_0 == self.handles()[i as int]);
                assert(self.first_match(i as int, text@));
                return r;
            }
            assert(self.patterns()[i as int] == self.arr@[i as int].pattern@);
            i = i + 1;
        }
        None
    }
}

} // verus!
