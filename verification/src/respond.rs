//! What the server writes back: the response head, the error replies, and
//! the decision that turns a parsed request into a reply or a piece of work.
use vstd::prelude::*;
use crate::http::{
    HttpMethod, HttpRequest, HttpResponse, HttpStatusCode, body_text, default_header_text, header_text,
    lemma_header_text_inserted, status_text,
};
use crate::keyed::{has_key, inserted, keys_unique, lookup};
use crate::server::{Server, first_char_is_ascii, route_of};
use crate::text::{decimal, has_prefix, usize_to_string};
use vstd::utf8::encode_utf8;

verus! {

/// The header lines of a head, one `\r\nname:value` per header, in order.
pub open spec fn header_lines(h: Seq<(Seq<char>, Seq<char>)>) -> Seq<char>
    decreases h.len(),
{
    if h.len() == 0 {
        Seq::empty()
    } else {
        header_lines(h.drop_last()) + "\r\n"@ + h.last().0 + ":"@ + h.last().1
    }
}

/// A response head: status line, header lines, blank line.
pub open spec fn head_text(status: HttpStatusCode, h: Seq<(Seq<char>, Seq<char>)>) -> Seq<char> {
    "HTTP/1.1 "@ + status_text(status) + header_lines(h) + "\r\n\r\n"@
}

/// The head of `response`, ready to be written.
pub fn get_header(response: &HttpResponse) -> (r: String)
    ensures
        r@ == head_text(response.status, header_text(response.header@)),
{
    let mut out = String::from_str("HTTP/1.1 ");
    let status = response.status.to_string();
    out.append(status.as_str());
    let entries = response.header.as_vec();
    let n = entries.len();
    let ghost h = header_text(response.header@);
    assert(h.take(0) =~= Seq::<(Seq<char>, Seq<char>)>::empty());
    for i in 0..n
        invariant
            n == entries@.len(),
            h == header_text(response.header@),
            entries@.map_values(|e: (String, String)| (e.0@, e.1)) == response.header@,
            out@ == "HTTP/1.1 "@ + status_text(response.status) + header_lines(h.take(i as int)),
    {
        proof {
            assert(h.take(i + 1).drop_last() =~= h.take(i as int));
            assert(h[i as int] == (entries@[i as int].0@, entries@[i as int].1@));
        }
        out.append("\r\n");
        out.append(entries[i].0.as_str());
        out.append(":");
        out.append(entries[i].1.as_str());
        assert(out@ =~= "HTTP/1.1 "@ + status_text(response.status) + header_lines(
            h.take(i + 1),
        ));
    }
    assert(h.take(n as int) =~= h);
    out.append("\r\n\r\n");
    out
}

/// The length in bytes of the UTF-8 writing of `s`, as `str::len` gives it
/// in a `usize` (a string in memory always has a length that fits).
pub open spec fn byte_len(s: Seq<char>) -> nat {
    (encode_utf8(s).len() as usize) as nat
}

/// What is written back for one request: the head, then the body if any.
pub struct Reply {
    pub head: String,
    pub body: Option<String>,
}

/// The head of a reply that carries `msg` as its body under `status`: the
/// default headers and a `Content-Length` of the message's byte length.
pub open spec fn message_head(status: HttpStatusCode, msg: Seq<char>) -> Seq<char> {
    head_text(status, default_header_text().push(("Content-Length"@, decimal(byte_len(msg)))))
}

/// `rep` answers with `status` and the text `msg`.
pub open spec fn is_message_reply(rep: Reply, status: HttpStatusCode, msg: Seq<char>) -> bool {
    &&& rep.head@ == message_head(status, msg)
    &&& rep.body matches Some(b) && b@ == msg
}

/// The head of a reply without body: the default headers under `204 No Content`.
pub open spec fn no_content_head() -> Seq<char> {
    head_text(HttpStatusCode::NoContent, default_header_text())
}

proof fn lemma_content_length_is_new(v: Seq<char>)
    ensures
        !has_key(default_header_text(), "Content-Length"@),
        inserted(default_header_text(), "Content-Length"@, v) == default_header_text().push(
            ("Content-Length"@, v),
        ),
{
    reveal_strlit("Content-Length");
    reveal_strlit("Content-Type");
    reveal_strlit("Connection");
    reveal_strlit("X-Powered-By");
    assert("Content-Length"@.len() == 14);
    assert("Content-Type"@.len() == 12 && "Connection"@.len() == 10 && "X-Powered-By"@.len()
        == 12);
    let d = default_header_text();
    assert(d[0].0 == "Content-Type"@ && d[1].0 == "Connection"@ && d[2].0 == "X-Powered-By"@);
}

fn message_reply(status: HttpStatusCode, msg: &str) -> (r: Reply)
    ensures
        is_message_reply(r, status, msg@),
{
    let mut response = HttpResponse::new();
    response.status = status;
    let len_text = usize_to_string(msg.len());
    let ghost h0 = response.header@;
    let ghost v = len_text;
    let _ = response.header.len();
    response.set_header(String::from_str("Content-Length"), len_text);
    proof {
        lemma_header_text_inserted(h0, "Content-Length"@, v);
        lemma_content_length_is_new(v@);
    }
    let head = get_header(&response);
    Reply { head, body: Some(msg.to_owned()) }
}

/// A `500 Internal Server Error` reply with `err` as its body.
pub fn server_error(err: &str) -> (r: Reply)
    ensures
        is_message_reply(r, HttpStatusCode::InternalServerError, err@),
{
    message_reply(HttpStatusCode::InternalServerError, err)
}

/// A `404 Not Found` reply with `err` as its body.
pub fn not_found(err: &str) -> (r: Reply)
    ensures
        is_message_reply(r, HttpStatusCode::NotFound, err@),
{
    message_reply(HttpStatusCode::NotFound, err)
}

/// The reply to OPTIONS (and HEAD): a head alone, `204 No Content`.
pub fn handle_option_request() -> (r: Reply)
    ensures
        r.head@ == no_content_head(),
        r.body is None,
{
    let mut response = HttpResponse::new();
    response.status = HttpStatusCode::NoContent;
    let head = get_header(&response);
    Reply { head, body: None }
}

/// The reply after a GET handler has filled `response`: its head as the
/// handler left it (no `Content-Length` is added to it), then its body, empty
/// when the handler set none.
pub fn finish_get(response: HttpResponse) -> (r: Reply)
    ensures
        r.head@ == head_text(response.status, header_text(response.header@)),
        r.body matches Some(b) && b@ == body_text(response.body),
{
    let head = get_header(&response);
    let content = match &response.body {
        Some(body) => body.clone(),
        None => String::new(),
    };
    Reply { head, body: Some(content) }
}

/// The reply after a POST handler has filled `response`: `Content-Length`
/// set to the byte length of the body, the head, then the body (empty when
/// the handler set none).
pub fn finish_post(response: HttpResponse) -> (r: Reply)
    ensures
        r.head@ == head_text(
            response.status,
            inserted(
                header_text(response.header@),
                "Content-Length"@,
                decimal(byte_len(body_text(response.body))),
            ),
        ),
        r.body matches Some(b) && b@ == body_text(response.body),
{
    let mut response = response;
    let content = match &response.body {
        Some(body) => body.clone(),
        None => String::new(),
    };
    let len_text = usize_to_string(content.as_str().len());
    let ghost h0 = response.header@;
    let ghost v = len_text;
    let _ = response.header.len();
    response.set_header(String::from_str("Content-Length"), len_text);
    proof {
        lemma_header_text_inserted(h0, "Content-Length"@, v);
    }
    let head = get_header(&response);
    Reply { head, body: Some(content) }
}

/// What to do with one request.
pub enum Action<H> {
    /// Write this reply.
    Reply(Reply),
    /// Call the handler on the request and a new response, then write
    /// `finish_get` of that response.
    Get(H, HttpRequest),
    /// Call the handler on the request and a new response, then write
    /// `finish_post` of that response.
    Post(H, HttpRequest),
    /// Serve the file at this path.
    Static(String, HttpRequest),
}

/// `r` is what a GET request `req` comes to.
pub open spec fn get_outcome<H>(server: Server<H>, req: HttpRequest, r: Action<H>) -> bool {
    let route = route_of(server.public, server.get_routes@, server.post_routes@, "get"@, req.path@);
    match route.1 {
        Some(f) => r == Action::Get(f, req),
        None => if route.0.len() == 0 {
            r matches Action::Reply(rep) && is_message_reply(
                rep,
                HttpStatusCode::NotFound,
                "File Not Found!"@,
            )
        } else {
            r matches Action::Static(p, q) && p@ == route.0 && q == req
        },
    }
}

/// `r` is what a POST request `req` comes to.
pub open spec fn post_outcome<H>(server: Server<H>, req: HttpRequest, r: Action<H>) -> bool {
    let route = route_of(server.public, server.get_routes@, server.post_routes@, "post"@, req.path@);
    match route.1 {
        Some(f) => r == Action::Post(f, req),
        None => if route.0.len() == 0 {
            r matches Action::Reply(rep) && is_message_reply(
                rep,
                HttpStatusCode::NotFound,
                "Route Not Found!"@,
            )
        } else {
            r matches Action::Reply(rep) && is_message_reply(
                rep,
                HttpStatusCode::InternalServerError,
                "Error on finding routes!"@,
            )
        },
    }
}

/// `r` is what the outcome `parsed` of reading a request comes to.
pub open spec fn planned<H>(server: Server<H>, parsed: Result<HttpRequest, String>, r: Action<H>) -> bool {
    match parsed {
        Err(e) => r matches Action::Reply(rep) && is_message_reply(
            rep,
            HttpStatusCode::InternalServerError,
            e@,
        ),
        Ok(req) => match req.method {
            HttpMethod::GET => get_outcome(server, req, r),
            HttpMethod::POST => post_outcome(server, req, r),
            HttpMethod::OPTIONS | HttpMethod::HEAD => r matches Action::Reply(rep)
                && rep.head@ == no_content_head() && rep.body is None,
            HttpMethod::DELETE => r matches Action::Reply(rep) && is_message_reply(
                rep,
                HttpStatusCode::NotFound,
                "Delete method not found!"@,
            ),
            HttpMethod::PUT => r matches Action::Reply(rep) && is_message_reply(
                rep,
                HttpStatusCode::NotFound,
                "PUt method not found"@,
            ),
            HttpMethod::PATCH => r matches Action::Reply(rep) && is_message_reply(
                rep,
                HttpStatusCode::NotFound,
                "Patch method not found!"@,
            ),
            HttpMethod::OTHER(m) => r matches Action::Reply(rep) && is_message_reply(
                rep,
                HttpStatusCode::NotFound,
                m@ + " method not found!"@,
            ),
        },
    }
}

/// Where the slicing of a GET path is safe: whenever the server has a static
/// folder, a GET path starts with a one-byte character.
pub open spec fn plannable<H>(server: Server<H>, parsed: Result<HttpRequest, String>) -> bool {
    match parsed {
        Ok(req) => req.method is GET && server.public is Some ==> first_char_is_ascii(req.path@),
        Err(_) => true,
    }
}

fn handle_get_request<H: Copy>(server: &Server<H>, request: HttpRequest) -> (r: Action<H>)
    requires
        server.public is Some ==> first_char_is_ascii(request.path@),
    ensures
        get_outcome(*server, request, r),
{
    let (route, fun) = server.get_path_fun("get", &request);
    match fun {
        Some(f) => Action::Get(f, request),
        None => if route.as_str().is_empty() {
            Action::Reply(not_found("File Not Found!"))
        } else {
            Action::Static(route, request)
        },
    }
}

fn handle_post_request<H: Copy>(server: &Server<H>, request: HttpRequest) -> (r: Action<H>)
    ensures
        post_outcome(*server, request, r),
{
    proof {
        reveal_strlit("get");
        reveal_strlit("post");
        assert("get"@.len() == 3 && "post"@.len() == 4);
    }
    let (route, fun) = server.get_path_fun("post", &request);
    match fun {
        Some(f) => Action::Post(f, request),
        None => if route.as_str().is_empty() {
            Action::Reply(not_found("Route Not Found!"))
        } else {
            Action::Reply(server_error("Error on finding routes!"))
        },
    }
}

/// Decides what to do with the outcome of reading one request: a reading
/// error is answered `500` with its message; GET and POST go to their
/// routes; OPTIONS and HEAD get `204 No Content`; every other method gets
/// `404` with a message that names it.
pub fn plan<H: Copy>(server: &Server<H>, parsed: Result<HttpRequest, String>) -> (r: Action<H>)
    requires
        plannable(*server, parsed),
    ensures
        planned(*server, parsed, r),
{
    match parsed {
        Err(err) => Action::Reply(server_error(err.as_str())),
        Ok(request) => match &request.method {
            HttpMethod::OPTIONS => Action::Reply(handle_option_request()),
            HttpMethod::GET => handle_get_request(server, request),
            HttpMethod::POST => handle_post_request(server, request),
            HttpMethod::DELETE => Action::Reply(not_found("Delete method not found!")),
            HttpMethod::PUT => Action::Reply(not_found("PUt method not found")),
            HttpMethod::HEAD => Action::Reply(handle_option_request()),
            HttpMethod::PATCH => Action::Reply(not_found("Patch method not found!")),
            HttpMethod::OTHER(val) => {
                let mut msg = val.clone();
                msg.append(" method not found!");
                Action::Reply(not_found(msg.as_str()))
            },
        },
    }
}

/// Handlers run only for the method whose table they are in, on the request
/// as it was read; files are served only to GET requests.
pub proof fn law_handlers_match_method<H>(
    server: Server<H>,
    parsed: Result<HttpRequest, String>,
    r: Action<H>,
)
    requires
        planned(server, parsed, r),
    ensures
        r matches Action::Get(_, q) ==> parsed == Ok::<HttpRequest, String>(q) && q.method is GET,
        r matches Action::Post(_, q) ==> parsed == Ok::<HttpRequest, String>(q) && q.method is POST,
        r matches Action::Static(_, q) ==> parsed == Ok::<HttpRequest, String>(q) && q.method is GET,
{
}

/// A GET request to a path that has a GET handler, and that is not under the
/// static folder, runs that handler.
pub proof fn law_registered_get_handler_runs<H>(
    server: Server<H>,
    req: HttpRequest,
    fun: H,
    r: Action<H>,
)
    requires
        keys_unique(server.get_routes@),
        lookup(server.get_routes@, req.path@) == Some(fun),
        req.method is GET,
        !(server.public is Some && has_prefix(req.path@.drop_first(), server.public->0@)),
        planned(server, Ok(req), r),
    ensures
        r == Action::Get(fun, req),
{
    reveal_strlit("get");
}

/// A POST request to a path that has a POST handler runs that handler.
pub proof fn law_registered_post_handler_runs<H>(
    server: Server<H>,
    req: HttpRequest,
    fun: H,
    r: Action<H>,
)
    requires
        keys_unique(server.post_routes@),
        lookup(server.post_routes@, req.path@) == Some(fun),
        req.method is POST,
        planned(server, Ok(req), r),
    ensures
        r == Action::Post(fun, req),
{
    reveal_strlit("get");
    reveal_strlit("post");
    assert("get"@.len() == 3 && "post"@.len() == 4);
}

/// Every head opens with the status line of its status.
pub proof fn law_head_starts_with_status(status: HttpStatusCode, h: Seq<(Seq<char>, Seq<char>)>)
    ensures
        has_prefix(head_text(status, h), "HTTP/1.1 "@ + status_text(status)),
{
    let p = "HTTP/1.1 "@ + status_text(status);
    assert(head_text(status, h).take(p.len() as int) =~= p);
}

/// A GET request that no route takes (no GET handler for its path, and the
/// path not under the static folder) is answered `404 Not Found` with the
/// body `File Not Found!`, whatever the POST table holds.
pub proof fn law_unrouted_get_is_not_found<H>(server: Server<H>, req: HttpRequest, r: Action<H>)
    requires
        req.method is GET,
        !has_key(server.get_routes@, req.path@),
        !(server.public is Some && has_prefix(req.path@.drop_first(), server.public->0@)),
        planned(server, Ok(req), r),
    ensures
        r matches Action::Reply(rep) && rep.head@ == head_text(
            HttpStatusCode::NotFound,
            default_header_text().push(
                ("Content-Length"@, decimal(byte_len("File Not Found!"@))),
            ),
        ) && (rep.body matches Some(b) && b@ == "File Not Found!"@),
        r matches Action::Reply(rep) && has_prefix(rep.head@, "HTTP/1.1 404 Not Found"@),
{
    reveal_strlit("get");
    crate::server::law_routes_come_from_their_table(
        server.public,
        server.get_routes@,
        server.post_routes@,
        "get"@,
        req.path@,
    );
    reveal_strlit("HTTP/1.1 ");
    reveal_strlit("404 Not Found");
    reveal_strlit("HTTP/1.1 404 Not Found");
    assert("HTTP/1.1 "@ + "404 Not Found"@ =~= "HTTP/1.1 404 Not Found"@);
    match r {
        Action::Reply(rep) => {
            law_head_starts_with_status(
                HttpStatusCode::NotFound,
                default_header_text().push(
                    ("Content-Length"@, decimal(byte_len("File Not Found!"@))),
                ),
            );
        },
        _ => {},
    }
}

} // verus!
