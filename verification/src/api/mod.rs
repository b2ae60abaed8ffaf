pub mod controllers;
pub mod deserializer;
pub mod middlewares;
pub mod transport;
pub mod utils;

use vstd::hash_map::StringHashMap;
use vstd::prelude::*;

verus! {

/// The key under which a handler for `method` requests on `path` is kept:
/// the method, a dash, then the path.
pub open spec fn full_path(path: Seq<char>, method: Seq<char>) -> Seq<char> {
    method + "-"@ + path
}

/// The segments of a URL path joined with slashes.
pub open spec fn join_segments(segments: Seq<Seq<char>>) -> Seq<char>
    decreases segments.len(),
{
    if segments.len() == 0 {
        Seq::empty()
    } else if segments.len() == 1 {
        segments[0]
    } else {
        join_segments(segments.drop_last()) + "/"@ + segments.last()
    }
}

/// The characters of each segment.
pub open spec fn segment_views(segments: Seq<String>) -> Seq<Seq<char>> {
    segments.map_values(|segment: String| segment@)
}

/// The key looked up for a `method` request whose URL path has `segments`.
pub open spec fn route_key(segments: Seq<String>, method: Seq<char>) -> Seq<char> {
    full_path(join_segments(segment_views(segments)), method)
}

/// Joins the segments of a URL path with slashes.
pub fn join_path(segments: &Vec<String>) -> (path: String)
    ensures
        path@ == join_segments(segment_views(segments@)),
{
    let ghost views = segment_views(segments@);
    let mut path = String::new();
    let mut i: usize = 0;
    while i < segments.len()
        invariant
            i <= segments@.len(),
            views == segment_views(segments@),
            path@ == join_segments(views.take(i as int)),
        decreases segments@.len() - i,
    {
        if i > 0 {
            path.append("/");
        }
        path.append(segments[i].as_str());
        proof {
            assert(views.take(i + 1).drop_last() =~= views.take(i as int));
            if i == 0 {
                assert(path@ =~= views.take(1)[0]);
            }
        }
        i = i + 1;
    }
    assert(views.take(segments@.len() as int) =~= views);
    path
}

/// Keeps, for each method and path, the handler that serves it.
#[verifier::reject_recursive_types(H)]
pub struct Router<H> {
    routes: StringHashMap<H>,
}

impl<H> View for Router<H> {
    type V = Map<Seq<char>, H>;

    /// The handlers by key (see `full_path`).
    closed spec fn view(&self) -> Map<Seq<char>, H> {
        self.routes@
    }
}

impl<H> Router<H> {
    /// A router without routes.
    pub fn new() -> (router: Self)
        ensures
            router@ == Map::<Seq<char>, H>::empty(),
    {
        Router { routes: StringHashMap::new() }
    }

    /// The key under which the handler for `method` requests on `path` is kept.
    pub fn get_full_path(path: &str, method: &str) -> (key: String)
        ensures
            key@ == full_path(path@, method@),
    {
        let mut key = method.to_owned();
        key.append("-");
        key.append(path);
        key
    }

    /// Makes `handler` serve `method` requests on `path`, in place of any
    /// handler that served them before.
    fn add_route(&mut self, path: &str, method: &str, handler: H)
        ensures
            final(self)@ == old(self)@.insert(full_path(path@, method@), handler),
    {
        let key = Self::get_full_path(path, method);
        self.routes.insert(key, handler);
    }

    /// Makes `handler` serve GET requests on `path`.
    pub fn get(&mut self, path: &str, handler: H)
        ensures
            final(self)@ == old(self)@.insert(full_path(path@, "GET"@), handler),
    {
        self.add_route(path, "GET", handler);
    }

    /// Makes `handler` serve POST requests on `path`.
    pub fn post(&mut self, path: &str, handler: H)
        ensures
            final(self)@ == old(self)@.insert(full_path(path@, "POST"@), handler),
    {
        self.add_route(path, "POST", handler);
    }

    /// The handler for a `method` request whose URL path has the segments
    /// `path_segments`; `None` when no route matches, which is answered with
    /// 404 Not Found.
    pub fn handle(&self, path_segments: &Vec<String>, method: &str) -> (handler: Option<&H>)
        ensures
            match handler {
                Some(h) => self@.contains_key(route_key(path_segments@, method@)) && *h == self@[route_key(
                    path_segments@,
                    method@,
                )],
                None => !self@.contains_key(route_key(path_segments@, method@)),
            },
    {
        let path = join_path(path_segments);
        let key = Self::get_full_path(path.as_str(), method);
        self.routes.get(key.as_str())
    }
}

/// `method` holds no dash.
pub open spec fn dash_free(method: Seq<char>) -> bool {
    forall|i: int| 0 <= i < method.len() ==> method[i] != '-'
}

/// Two routes share a key only when they have the same path and the same
/// method, provided the methods hold no dash (as HTTP methods do not).
pub proof fn lemma_full_path_injective(
    path1: Seq<char>,
    method1: Seq<char>,
    path2: Seq<char>,
    method2: Seq<char>,
)
    requires
        dash_free(method1),
        dash_free(method2),
        full_path(path1, method1) == full_path(path2, method2),
    ensures
        path1 == path2,
        method1 == method2,
{
    reveal_strlit("-");
    let key = full_path(path1, method1);
    assert(key == full_path(path2, method2));
    let n1 = method1.len() as int;
    let n2 = method2.len() as int;
    assert(key[n1] == '-');
    assert(full_path(path2, method2)[n2] == '-');
    if n1 < n2 {
        assert(full_path(path2, method2)[n1] == method2[n1]);
    }
    if n2 < n1 {
        assert(key[n2] == method1[n2]);
    }
    assert(n1 == n2);
    assert(method1 =~= key.subrange(0, n1));
    assert(method2 =~= full_path(path2, method2).subrange(0, n2));
    assert(path1 =~= key.subrange(n1 + 1, key.len() as int));
    assert(path2 =~= full_path(path2, method2).subrange(n2 + 1, key.len() as int));
}

/// Once `handler` is registered for `method` requests on `path`, a `method`
/// request whose path segments join to `path` is served by `handler`.
pub proof fn law_registered_route_serves<H>(
    routes: Map<Seq<char>, H>,
    path: Seq<char>,
    method: Seq<char>,
    handler: H,
    request_segments: Seq<String>,
)
    requires
        join_segments(segment_views(request_segments)) == path,
    ensures
        routes.insert(full_path(path, method), handler).contains_key(route_key(request_segments, method)),
        routes.insert(full_path(path, method), handler)[route_key(request_segments, method)] == handler,
{
}

/// Registering a handler for one method and path leaves every request for
/// another method or another path served as before (methods without dashes).
pub proof fn law_registration_leaves_other_routes<H>(
    routes: Map<Seq<char>, H>,
    path: Seq<char>,
    method: Seq<char>,
    handler: H,
    request_segments: Seq<String>,
    request_method: Seq<char>,
)
    requires
        dash_free(method),
        dash_free(request_method),
        join_segments(segment_views(request_segments)) != path || request_method != method,
    ensures
        routes.insert(full_path(path, method), handler).contains_key(route_key(request_segments, request_method))
            == routes.contains_key(route_key(request_segments, request_method)),
        routes.contains_key(route_key(request_segments, request_method)) ==> routes.insert(
            full_path(path, method),
            handler,
        )[route_key(request_segments, request_method)] == routes[route_key(request_segments, request_method)],
{
    let request_path = join_segments(segment_views(request_segments));
    if full_path(path, method) == full_path(request_path, request_method) {
        lemma_full_path_injective(path, method, request_path, request_method);
    }
}

/// Joining no segments gives the empty path.
pub proof fn law_join_no_segments()
    ensures
        join_segments(Seq::<Seq<char>>::empty()) == Seq::<char>::empty(),
{
}

/// Joining one segment gives that segment.
pub proof fn law_join_one_segment(segment: Seq<char>)
    ensures
        join_segments(seq![segment]) == segment,
{
}

/// Appending a segment to a non-empty path appends a slash and the segment:
/// every segment is kept, in order, one slash apart.
pub proof fn law_join_next_segment(segments: Seq<Seq<char>>, segment: Seq<char>)
    requires
        segments.len() > 0,
    ensures
        join_segments(segments.push(segment)) == join_segments(segments) + seq!['/'] + segment,
{
    reveal_strlit("/");
    assert(segments.push(segment).drop_last() =~= segments);
    assert("/"@ =~= seq!['/']);
}

/// A joined path is as long as its segments together, plus one slash
/// between each two of them.
pub proof fn law_join_length(segments: Seq<Seq<char>>)
    requires
        segments.len() > 0,
    ensures
        join_segments(segments).len() == total_length(segments) + segments.len() - 1,
    decreases segments.len(),
{
    reveal_strlit("/");
    assert("/"@.len() == 1);
    if segments.len() == 1 {
        assert(total_length(segments.drop_last()) == 0);
    } else {
        law_join_length(segments.drop_last());
        assert(join_segments(segments) == join_segments(segments.drop_last()) + "/"@ + segments.last());
    }
}

/// The number of characters of all segments together.
pub open spec fn total_length(segments: Seq<Seq<char>>) -> int
    decreases segments.len(),
{
    if segments.len() == 0 {
        0
    } else {
        total_length(segments.drop_last()) + segments.last().len()
    }
}

} // verus!
