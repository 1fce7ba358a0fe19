//! The server's configuration: its port, the folder of static files and the
//! route tables that map paths to handlers.
use vstd::prelude::*;
use crate::http::HttpRequest;
use crate::keyed::{KeyedList, has_key, inserted, keys_unique, lookup};
use crate::text::{has_prefix, starts_with, str_equals};

verus! {

/// Handlers by path.
pub type Routes<H> = KeyedList<H>;

/// A server: where it listens, which folder it serves files from and which
/// handler answers which path. `H` is the type of the handlers.
pub struct Server<H> {
    pub port: String,
    pub public: Option<String>,
    pub get_routes: Routes<H>,
    pub post_routes: Routes<H>,
    pub delete_routes: Routes<H>,
    pub put_routes: Routes<H>,
    pub thread_num: usize,
}

/// The route to a request: the path of a static file (no handler), the
/// request path with its handler, or an empty path and no handler.
pub open spec fn route_of<H>(
    public: Option<String>,
    get_routes: Seq<(Seq<char>, H)>,
    post_routes: Seq<(Seq<char>, H)>,
    route_name: Seq<char>,
    path: Seq<char>,
) -> (Seq<char>, Option<H>) {
    if route_name == "get"@ {
        if public is Some && has_prefix(path.drop_first(), public->0@) {
            (path.drop_first(), None)
        } else if has_key(get_routes, path) {
            (path, lookup(get_routes, path))
        } else {
            (Seq::empty(), None)
        }
    } else if route_name == "post"@ && has_key(post_routes, path) {
        (path, lookup(post_routes, path))
    } else {
        (Seq::empty(), None)
    }
}

/// The first character of `path` is one byte long in UTF-8, so that the
/// path can be cut after it.
pub open spec fn first_char_is_ascii(path: Seq<char>) -> bool {
    path.len() > 0 && (path[0] as u32) < 0x80
}

impl<H: Copy> Server<H> {
    /// A server for `port` with no static folder, no routes and four threads.
    pub fn new(port: &str) -> (r: Self)
        ensures
            r.port@ == port@,
            r.public is None,
            r.get_routes@.len() == 0,
            r.post_routes@.len() == 0,
            r.delete_routes@.len() == 0,
            r.put_routes@.len() == 0,
            r.thread_num == 4,
    {
        Server {
            port: port.to_owned(),
            public: None,
            get_routes: KeyedList::new(),
            post_routes: KeyedList::new(),
            thread_num: 4,
            delete_routes: KeyedList::new(),
            put_routes: KeyedList::new(),
        }
    }

    /// Serves the files under the folder `path` to GET requests.
    pub fn set_static(&mut self, path: &str)
        ensures
            final(self).public matches Some(p) && p@ == path@,
            final(self).port == old(self).port,
            final(self).get_routes@ == old(self).get_routes@,
            final(self).post_routes@ == old(self).post_routes@,
            final(self).delete_routes@ == old(self).delete_routes@,
            final(self).put_routes@ == old(self).put_routes@,
            final(self).thread_num == old(self).thread_num,
    {
        self.public = Some(path.to_owned());
    }

    /// Answers GET requests for `path` with `fun`.
    pub fn get(&mut self, path: &str, fun: H)
        ensures
            final(self).get_routes@ == inserted(old(self).get_routes@, path@, fun),
            final(self).port == old(self).port,
            final(self).public == old(self).public,
            final(self).post_routes@ == old(self).post_routes@,
            final(self).delete_routes@ == old(self).delete_routes@,
            final(self).put_routes@ == old(self).put_routes@,
            final(self).thread_num == old(self).thread_num,
    {
        self.get_routes.insert(path.to_owned(), fun);
    }

    /// Answers POST requests for `path` with `fun`.
    pub fn post(&mut self, path: &str, fun: H)
        ensures
            final(self).post_routes@ == inserted(old(self).post_routes@, path@, fun),
            final(self).port == old(self).port,
            final(self).public == old(self).public,
            final(self).get_routes@ == old(self).get_routes@,
            final(self).delete_routes@ == old(self).delete_routes@,
            final(self).put_routes@ == old(self).put_routes@,
            final(self).thread_num == old(self).thread_num,
    {
        self.post_routes.insert(path.to_owned(), fun);
    }

    /// Records `fun` for PUT requests to `path`.
    pub fn put(&mut self, path: &str, fun: H)
        ensures
            final(self).put_routes@ == inserted(old(self).put_routes@, path@, fun),
            final(self).port == old(self).port,
            final(self).public == old(self).public,
            final(self).get_routes@ == old(self).get_routes@,
            final(self).post_routes@ == old(self).post_routes@,
            final(self).delete_routes@ == old(self).delete_routes@,
            final(self).thread_num == old(self).thread_num,
    {
        self.put_routes.insert(path.to_owned(), fun);
    }

    /// Records `fun` for DELETE requests to `path`.
    pub fn delete(&mut self, path: &str, fun: H)
        ensures
            final(self).delete_routes@ == inserted(old(self).delete_routes@, path@, fun),
            final(self).port == old(self).port,
            final(self).public == old(self).public,
            final(self).get_routes@ == old(self).get_routes@,
            final(self).post_routes@ == old(self).post_routes@,
            final(self).put_routes@ == old(self).put_routes@,
            final(self).thread_num == old(self).thread_num,
    {
        self.delete_routes.insert(path.to_owned(), fun);
    }

    /// Where a request goes. For `"get"`, a path whose remainder after its
    /// first character starts with the static folder names a file (that
    /// remainder, no handler); otherwise the GET table decides. For `"post"`
    /// the POST table decides. No route: an empty path and no handler.
    pub fn get_path_fun(&self, route_name: &str, request: &HttpRequest) -> (r: (String, Option<H>))
        requires
            route_name@ == "get"@ && self.public is Some ==> first_char_is_ascii(request.path@),
        ensures
            (r.0@, r.1) == route_of(
                self.public,
                self.get_routes@,
                self.post_routes@,
                route_name@,
                request.path@,
            ),
    {
        if str_equals(route_name, "get") {
            if let Some(public) = &self.public {
                let n = request.path.as_str().unicode_len();
                let path = request.path.as_str().substring_char(1, n);
                if starts_with(path, public.as_str()) {
                    return (path.to_owned(), None);
                }
            }
            if let Some(fun) = self.get_routes.get(request.path.as_str()) {
                return (request.path.clone(), Some(*fun));
            }
        } else if str_equals(route_name, "post") {
            if let Some(fun) = self.post_routes.get(request.path.as_str()) {
                return (request.path.clone(), Some(*fun));
            }
        }
        (String::new(), None)
    }
}

/// A GET route recorded for a path is found for a request to that path,
/// unless the path falls under the static folder.
pub proof fn law_get_route_found<H>(
    public: Option<String>,
    get_routes: Seq<(Seq<char>, H)>,
    post_routes: Seq<(Seq<char>, H)>,
    path: Seq<char>,
    fun: H,
)
    requires
        keys_unique(get_routes),
        !(public is Some && has_prefix(path.drop_first(), public->0@)),
    ensures
        route_of(public, inserted(get_routes, path, fun), post_routes, "get"@, path) == (
            path,
            Some(fun),
        ),
{
    crate::keyed::law_insert_lookup(get_routes, path, fun, path);
}

/// A POST route recorded for a path is found for a request to that path.
pub proof fn law_post_route_found<H>(
    public: Option<String>,
    get_routes: Seq<(Seq<char>, H)>,
    post_routes: Seq<(Seq<char>, H)>,
    path: Seq<char>,
    fun: H,
)
    requires
        keys_unique(post_routes),
    ensures
        route_of(public, get_routes, inserted(post_routes, path, fun), "post"@, path) == (
            path,
            Some(fun),
        ),
{
    reveal_strlit("get");
    reveal_strlit("post");
    assert("get"@.len() == 3 && "post"@.len() == 4);
    crate::keyed::law_insert_lookup(post_routes, path, fun, path);
}

/// Routes come only from the table of their method: a handler found for
/// `"get"` is the one stored for the path in the GET table, and a handler
/// found for `"post"` the one in the POST table. A GET path that is neither
/// under the static folder nor in the GET table has no route, whatever the
/// POST table holds; so does every path for any other route name.
pub proof fn law_routes_come_from_their_table<H>(
    public: Option<String>,
    get_routes: Seq<(Seq<char>, H)>,
    post_routes: Seq<(Seq<char>, H)>,
    route_name: Seq<char>,
    path: Seq<char>,
)
    ensures
        route_of(public, get_routes, post_routes, "get"@, path).1 matches Some(f) ==> lookup(
            get_routes,
            path,
        ) == Some(f),
        route_of(public, get_routes, post_routes, "post"@, path).1 matches Some(f) ==> lookup(
            post_routes,
            path,
        ) == Some(f),
        !(public is Some && has_prefix(path.drop_first(), public->0@)) && !has_key(
            get_routes,
            path,
        ) ==> route_of(public, get_routes, post_routes, "get"@, path) == (
            Seq::<char>::empty(),
            None::<H>,
        ),
        route_name != "get"@ && route_name != "post"@ ==> route_of(
            public,
            get_routes,
            post_routes,
            route_name,
            path,
        ) == (Seq::<char>::empty(), None::<H>),
        route_of(public, get_routes, post_routes, "post"@, path).0.len() != 0 ==> has_key(
            post_routes,
            path,
        ),
{
    reveal_strlit("get");
    reveal_strlit("post");
    assert("get"@.len() == 3 && "post"@.len() == 4);
}

} // verus!
