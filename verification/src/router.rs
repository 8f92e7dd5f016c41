//! Routes: the match of a request against a method and a path pattern, and
//! the router that tries its matchers in the order in which they were added.

use vstd::prelude::*;
use crate::http::{LYServerHTTPRequest, LYServerHTTPResponse, RequestModel, ResponseModel};
use crate::string_map::{put_all, LYServerStringMap, Pairs};
use crate::text::{eq_ignoring_ascii_case, text_eq_ignore_ascii_case};

verus! {

/// A request that matched a method and a path pattern.
#[derive(Debug, PartialEq, Eq)]
pub struct LYServerHTTPRoute {
    /// The method of the request.
    pub method: String,
    /// The pattern that matched.
    pub uri: String,
    /// The path that was asked for.
    pub requested_uri: String,
    /// The values that the pattern's placeholders took.
    pub params: LYServerStringMap,
    /// The request.
    pub request: LYServerHTTPRequest,
}

/// The mathematical value of a route.
pub struct RouteModel {
    pub method: Seq<char>,
    pub uri: Seq<char>,
    pub requested_uri: Seq<char>,
    pub params: Pairs,
    pub request: RequestModel,
}

impl View for LYServerHTTPRoute {
    type V = RouteModel;

    open spec fn view(&self) -> RouteModel {
        RouteModel {
            method: self.method@,
            uri: self.uri@,
            requested_uri: self.requested_uri@,
            params: self.params@,
            request: self.request@,
        }
    }
}

/// What `path_tree` finds when a tree that holds the one pattern is asked
/// for the path: nothing, or the placeholders' names and values, in the
/// order of the pattern.
pub uninterp spec fn path_match(pattern: Seq<char>, path: Seq<char>) -> Option<Pairs>;

/// Pairs of texts as mathematical values.
pub open spec fn pairs_model(pairs: Seq<(String, String)>) -> Pairs {
    Seq::new(pairs.len(), |i: int| (pairs[i].0@, pairs[i].1@))
}

/// Makes a `path_tree::PathTree`, inserts the pattern with `insert`, asks
/// `find` for the path and, on a match, copies what `Path::params` gives.
/// The outcome depends on pattern and path alone.
#[verifier::external_body]
pub(crate) fn find_path(pattern: &str, path: &str) -> (r: Option<Vec<(String, String)>>)
    ensures
        match r {
            Some(params) => path_match(pattern@, path@) == Some(pairs_model(params@)),
            None => path_match(pattern@, path@).is_none(),
        },
{
    let mut tree = path_tree::PathTree::new();
    let _ = tree.insert(pattern, 0);
    tree.find(path).map(
        |(_, found)| found.params().iter().map(|(k, v)| (k.to_string(), v.to_string())).collect(),
    )
}

/// The route of a request whose path matched the pattern with the given
/// placeholder values. Where a name occurs twice, the later value stays.
pub open spec fn route_of(request: RequestModel, pattern: Seq<char>, params: Pairs) -> RouteModel {
    RouteModel {
        method: request.method,
        uri: pattern,
        requested_uri: request.uri,
        params: put_all(Pairs::empty(), params),
        request,
    }
}

/// The route of a request against a method and a pattern: there is one when
/// the methods are equal without regard to ASCII case and the pattern matches
/// the request's path.
pub open spec fn matched_route(request: RequestModel, method: Seq<char>, pattern: Seq<char>) -> Option<
    RouteModel,
> {
    if !eq_ignoring_ascii_case(request.method, method) {
        None
    } else {
        match path_match(pattern, request.uri) {
            Some(params) => Some(route_of(request, pattern, params)),
            None => None,
        }
    }
}

impl LYServerHTTPRoute {
    /// The route of a request whose path matched the pattern with the given
    /// placeholder values.
    pub fn from_match(request: LYServerHTTPRequest, pattern: &str, params: &Vec<(String, String)>) -> (r:
        Self)
        ensures
            r@ == route_of(request@, pattern@, pairs_model(params@)),
    {
        LYServerHTTPRoute {
            method: request.method.clone(),
            uri: pattern.to_owned(),
            requested_uri: request.uri.clone(),
            params: LYServerStringMap::from_pairs(params),
            request,
        }
    }
}

impl LYServerHTTPRequest {
    /// Matches this request against a method and a path pattern.
    pub fn match_request(&self, method: &str, uri: &str) -> (r: Option<LYServerHTTPRoute>)
        ensures
            match r {
                Some(route) => matched_route(self@, method@, uri@) == Some(route@),
                None => matched_route(self@, method@, uri@).is_none(),
            },
    {
        LYServerHTTPRequest::static_match_request(self.clone(), method, uri)
    }

    /// Matches a request against a method and a path pattern.
    pub fn static_match_request(request: Self, method: &str, uri: &str) -> (r: Option<
        LYServerHTTPRoute,
    >)
        ensures
            match r {
                Some(route) => matched_route(request@, method@, uri@) == Some(route@),
                None => matched_route(request@, method@, uri@).is_none(),
            },
    {
        if !text_eq_ignore_ascii_case(request.method.as_str(), method) {
            return None;
        }
        match find_path(uri, request.uri.as_str()) {
            Some(params) => Some(LYServerHTTPRoute::from_match(request, uri, &params)),
            None => None,
        }
    }
}

/// What a handler made of a route: a response, or the message of a failure.
pub type HandlerOutcome = Result<LYServerHTTPResponse, String>;

/// The response to a request whose handler has finished: the handler's
/// response, or, if the handler failed, a 400 that carries its message.
pub open spec fn concluded(request: RequestModel, outcome: HandlerOutcome, response: ResponseModel) -> bool {
    match outcome {
        Ok(made) => response == made@,
        Err(message) => response == ResponseModel::error(request, 400, message@).finished(),
    }
}

/// Matchers and their handlers, tried in the order in which they were added.
pub struct LYServerHTTPRouter<H> {
    matchers: Vec<(String, String, H)>,
}

impl<H> LYServerHTTPRouter<H> {
    /// The methods and patterns of the matchers, in order.
    pub closed spec fn patterns(&self) -> Seq<(Seq<char>, Seq<char>)> {
        Seq::new(self.matchers@.len(), |i: int| (self.matchers@[i].0@, self.matchers@[i].1@))
    }

    /// The handlers of the matchers, in order.
    pub closed spec fn handlers(&self) -> Seq<H> {
        Seq::new(self.matchers@.len(), |i: int| self.matchers@[i].2)
    }

    /// Whether the matcher at a place matches the request.
    pub open spec fn matches_at(&self, i: int, request: RequestModel) -> bool {
        matched_route(request, self.patterns()[i].0, self.patterns()[i].1).is_some()
    }

    /// Whether `i` is the place of the first matcher that matches.
    pub open spec fn is_first_match(&self, i: int, request: RequestModel) -> bool {
        &&& 0 <= i < self.patterns().len()
        &&& self.matches_at(i, request)
        &&& forall|j: int| 0 <= j < i ==> !self.matches_at(j, request)
    }

    /// Whether no matcher matches.
    pub open spec fn no_match(&self, request: RequestModel) -> bool {
        forall|j: int| 0 <= j < self.patterns().len() ==> !self.matches_at(j, request)
    }

    /// A router without matchers.
    pub fn new() -> (r: Self)
        ensures
            r.patterns() == Seq::<(Seq<char>, Seq<char>)>::empty(),
            r.handlers() == Seq::<H>::empty(),
    {
        let r = LYServerHTTPRouter { matchers: Vec::new() };
        assert(r.patterns() =~= Seq::<(Seq<char>, Seq<char>)>::empty());
        assert(r.handlers() =~= Seq::<H>::empty());
        r
    }

    /// Adds a matcher behind those that are there.
    pub fn add_matcher(&mut self, method: &str, path: &str, handler: H)
        ensures
            final(self).patterns() == old(self).patterns().push((method@, path@)),
            final(self).handlers() == old(self).handlers().push(handler),
    {
        self.matchers.push((method.to_owned(), path.to_owned(), handler));
        assert(self.patterns() =~= old(self).patterns().push((method@, path@)));
        assert(self.handlers() =~= old(self).handlers().push(handler));
    }

    /// The number of matchers.
    pub fn len(&self) -> (r: usize)
        ensures
            r == self.patterns().len(),
            r == self.handlers().len(),
    {
        self.matchers.len()
    }

    /// The handler at a place.
    pub fn handler(&self, i: usize) -> (r: &H)
        requires
            i < self.handlers().len(),
        ensures
            *r == self.handlers()[i as int],
    {
        &self.matchers[i].2
    }

    /// Matches a request against a method and a path pattern.
    pub fn match_request(&self, request: LYServerHTTPRequest, method: &str, uri: &str) -> (r: Option<
        LYServerHTTPRoute,
    >)
        ensures
            match r {
                Some(route) => matched_route(request@, method@, uri@) == Some(route@),
                None => matched_route(request@, method@, uri@).is_none(),
            },
    {
        LYServerHTTPRequest::static_match_request(request, method, uri)
    }

    /// Finds the first matcher that matches the request: its place and the
    /// route, or nothing where none matches.
    pub fn select(&self, request: &LYServerHTTPRequest) -> (r: Option<(usize, LYServerHTTPRoute)>)
        ensures
            match r {
                Some((i, route)) => self.is_first_match(i as int, request@) && matched_route(
                    request@,
                    self.patterns()[i as int].0,
                    self.patterns()[i as int].1,
                ) == Some(route@),
                None => self.no_match(request@),
            },
    {
        let n: usize = self.matchers.len();
        let mut i: usize = 0;
        while i < n
            invariant
                n == self.matchers@.len(),
                n == self.patterns().len(),
                i <= n,
                forall|j: int| 0 <= j < i ==> !self.matches_at(j, request@),
            decreases n - i,
        {
            let found = self.match_request(
                request.clone(),
                self.matchers[i].0.as_str(),
                self.matchers[i].1.as_str(),
            );
            match found {
                Some(route) => {
                    return Some((i, route));
                },
                None => {},
            }
            i = i + 1;
        }
        None
    }

    /// The response to a request whose handler has finished.
    pub fn finish(request: &LYServerHTTPRequest, outcome: HandlerOutcome) -> (r: LYServerHTTPResponse)
        ensures
            concluded(request@, outcome, r@),
    {
        match outcome {
            Ok(response) => response,
            Err(message) => request.build_error_response(400, message.as_str()).build(),
        }
    }

    /// Answers a request with the handler of the first matcher that matches;
    /// there is no answer where none matches.
    pub fn respond(&self, request: LYServerHTTPRequest) -> (r: Option<LYServerHTTPResponse>)
        where H: Fn(LYServerHTTPRoute) -> HandlerOutcome
        requires
            forall|i: int, route: LYServerHTTPRoute|
                0 <= i < self.handlers().len() ==> #[trigger] self.handlers()[i].requires((route,)),
        ensures
            self.no_match(request@) <==> r.is_none(),
            r.is_some() ==> exists|i: int, route: LYServerHTTPRoute, outcome: HandlerOutcome|
                {
                    &&& self.is_first_match(i, request@)
                    &&& matched_route(request@, self.patterns()[i].0, self.patterns()[i].1) == Some(
                        route@,
                    )
                    &&& #[trigger] self.handlers()[i].ensures((route,), outcome)
                    &&& concluded(request@, outcome, r.unwrap()@)
                },
    {
        match self.select(&request) {
            Some((i, route)) => {
                let ghost given = route;
                let handler = self.handler(i);
                let outcome = handler(route);
                let ghost kept = outcome;
                let response = Self::finish(&request, outcome);
                proof {
                    assert(self.handlers()[i as int].ensures((given,), kept));
                }
                Some(response)
            },
            None => None,
        }
    }
}

} // verus!
