//! Requests, responses, methods and status codes.
use vstd::prelude::*;
use crate::keyed::{KeyedList, has_key, inserted, key_index, keys_unique};
use crate::text::{decimal, str_equals};

verus! {

/// Headers of a request or a response, by name.
pub type HeaderMap = KeyedList<String>;

/// The text of every header: name and value.
pub open spec fn header_text(h: Seq<(Seq<char>, String)>) -> Seq<(Seq<char>, Seq<char>)> {
    h.map_values(|e: (Seq<char>, String)| (e.0, e.1@))
}

/// Storing a header changes its text as storing the text would.
pub proof fn lemma_header_text_inserted(h: Seq<(Seq<char>, String)>, k: Seq<char>, v: String)
    requires
        keys_unique(h),
    ensures
        keys_unique(header_text(h)),
        has_key(header_text(h), k) == has_key(h, k),
        header_text(inserted(h, k, v)) == inserted(header_text(h), k, v@),
{
    let t = header_text(h);
    assert(forall|i: int| 0 <= i < h.len() ==> #[trigger] t[i].0 == h[i].0);
    if has_key(h, k) {
        let i = key_index(h, k);
        assert(t[i].0 == k);
        let j = key_index(t, k);
        assert(h[j].0 == k);
        assert(header_text(inserted(h, k, v)) =~= inserted(header_text(h), k, v@));
    } else {
        if has_key(t, k) {
            let j = key_index(t, k);
            assert(h[j].0 == k);
        }
        assert(header_text(inserted(h, k, v)) =~= inserted(header_text(h), k, v@));
    }
}

pub enum HttpMethod {
    GET,
    POST,
    PUT,
    PATCH,
    DELETE,
    OPTIONS,
    HEAD,
    OTHER(String),
}

/// The name under which a method is written on the wire.
pub open spec fn method_name(m: HttpMethod) -> Seq<char> {
    match m {
        HttpMethod::GET => "GET"@,
        HttpMethod::POST => "POST"@,
        HttpMethod::PUT => "PUT"@,
        HttpMethod::PATCH => "PATCH"@,
        HttpMethod::DELETE => "DELETE"@,
        HttpMethod::OPTIONS => "OPTIONS"@,
        HttpMethod::HEAD => "HEAD"@,
        HttpMethod::OTHER(s) => s@,
    }
}

/// One of the seven method names that have a variant of their own.
pub open spec fn is_known_method(s: Seq<char>) -> bool {
    ||| s == "GET"@
    ||| s == "POST"@
    ||| s == "PUT"@
    ||| s == "PATCH"@
    ||| s == "DELETE"@
    ||| s == "OPTIONS"@
    ||| s == "HEAD"@
}

/// `m` is the method that the name `s` stands for.
pub open spec fn method_parses_to(s: Seq<char>, m: HttpMethod) -> bool {
    &&& s == "GET"@ ==> m is GET
    &&& s == "POST"@ ==> m is POST
    &&& s == "PUT"@ ==> m is PUT
    &&& s == "PATCH"@ ==> m is PATCH
    &&& s == "DELETE"@ ==> m is DELETE
    &&& s == "OPTIONS"@ ==> m is OPTIONS
    &&& s == "HEAD"@ ==> m is HEAD
    &&& !is_known_method(s) ==> (m matches HttpMethod::OTHER(o) && o@ == s)
}

/// A method that `from_str` can give: `OTHER` only for an unknown name.
pub open spec fn is_canonical_method(m: HttpMethod) -> bool {
    m matches HttpMethod::OTHER(o) ==> !is_known_method(o@)
}

impl HttpMethod {
    /// The method named `method` (case-sensitive); any other name is `OTHER`.
    pub fn from_str(method: &str) -> (r: Self)
        ensures
            method_parses_to(method@, r),
            method_name(r) == method@,
    {
        proof {
            lemma_method_names_distinct();
        }
        if str_equals(method, "GET") {
            HttpMethod::GET
        } else if str_equals(method, "POST") {
            HttpMethod::POST
        } else if str_equals(method, "PUT") {
            HttpMethod::PUT
        } else if str_equals(method, "PATCH") {
            HttpMethod::PATCH
        } else if str_equals(method, "DELETE") {
            HttpMethod::DELETE
        } else if str_equals(method, "OPTIONS") {
            HttpMethod::OPTIONS
        } else if str_equals(method, "HEAD") {
            HttpMethod::HEAD
        } else {
            HttpMethod::OTHER(method.to_owned())
        }
    }

    /// The name of the method, as it is displayed.
    pub fn to_string(&self) -> (r: String)
        ensures
            r@ == method_name(*self),
    {
        match self {
            HttpMethod::GET => String::from_str("GET"),
            HttpMethod::POST => String::from_str("POST"),
            HttpMethod::PUT => String::from_str("PUT"),
            HttpMethod::PATCH => String::from_str("PATCH"),
            HttpMethod::DELETE => String::from_str("DELETE"),
            HttpMethod::OPTIONS => String::from_str("OPTIONS"),
            HttpMethod::HEAD => String::from_str("HEAD"),
            HttpMethod::OTHER(s) => s.clone(),
        }
    }
}

proof fn lemma_method_names_distinct()
    ensures
        "GET"@ != "POST"@,
        "GET"@ != "PUT"@,
        "GET"@ != "PATCH"@,
        "GET"@ != "DELETE"@,
        "GET"@ != "OPTIONS"@,
        "GET"@ != "HEAD"@,
        "POST"@ != "PUT"@,
        "POST"@ != "PATCH"@,
        "POST"@ != "DELETE"@,
        "POST"@ != "OPTIONS"@,
        "POST"@ != "HEAD"@,
        "PUT"@ != "PATCH"@,
        "PUT"@ != "DELETE"@,
        "PUT"@ != "OPTIONS"@,
        "PUT"@ != "HEAD"@,
        "PATCH"@ != "DELETE"@,
        "PATCH"@ != "OPTIONS"@,
        "PATCH"@ != "HEAD"@,
        "DELETE"@ != "OPTIONS"@,
        "DELETE"@ != "HEAD"@,
        "OPTIONS"@ != "HEAD"@,
{
    reveal_strlit("GET");
    reveal_strlit("POST");
    reveal_strlit("PUT");
    reveal_strlit("PATCH");
    reveal_strlit("DELETE");
    reveal_strlit("OPTIONS");
    reveal_strlit("HEAD");
    assert("GET"@.len() == 3 && "PUT"@.len() == 3 && "POST"@.len() == 4 && "HEAD"@.len() == 4);
    assert("PATCH"@.len() == 5 && "DELETE"@.len() == 6 && "OPTIONS"@.len() == 7);
    assert("GET"@[0] != "PUT"@[0]);
    assert("POST"@[0] != "HEAD"@[0]);
}

/// The name of a parsed method is the text it was parsed from.
pub proof fn law_method_name_of_parsed(s: Seq<char>, m: HttpMethod)
    requires
        method_parses_to(s, m),
    ensures
        method_name(m) == s,
{
}

/// Parsing the name of a canonical method gives that method back.
pub proof fn law_method_parse_of_name(m: HttpMethod)
    requires
        is_canonical_method(m),
    ensures
        method_parses_to(method_name(m), m),
{
    reveal_strlit("GET");
    reveal_strlit("POST");
    reveal_strlit("PUT");
    reveal_strlit("PATCH");
    reveal_strlit("DELETE");
    reveal_strlit("OPTIONS");
    reveal_strlit("HEAD");
    lemma_method_names_distinct();
    match m {
        HttpMethod::OTHER(o) => {},
        _ => {
            assert(is_known_method(method_name(m)));
        },
    }
}

pub struct HttpRequest {
    pub method: HttpMethod,
    pub version: String,
    pub path: String,
    pub header: HeaderMap,
    pub body: Option<String>,
}

/// The body of a request as text; a request without a body reads as empty.
pub open spec fn body_text(body: Option<String>) -> Seq<char> {
    match body {
        Some(b) => b@,
        None => Seq::empty(),
    }
}

impl HttpRequest {
    /// The body as text, empty when there is none.
    pub fn body_as_str(&self) -> (r: &str)
        ensures
            r@ == body_text(self.body),
    {
        match &self.body {
            Some(b) => b.as_str(),
            None => {
                proof {
                    reveal_strlit("");
                }
                ""
            },
        }
    }
}

#[derive(Clone, Copy, PartialEq, Eq, Structural, Debug)]
pub enum HttpStatusCode {
    Success,
    Created,
    NoContent,
    PartialContent,
    BadRequest,
    Unauthorized,
    Forbidden,
    NotFound,
    MethodNotAllowed,
    NotAcctable,
    Conflict,
    InternalServerError,
    NotImplemented,
    BadGatway,
    ServiceUnavailable,
}

/// The numeric code of a status.
pub open spec fn status_code(s: HttpStatusCode) -> nat {
    match s {
        HttpStatusCode::Success => 200,
        HttpStatusCode::Created => 201,
        HttpStatusCode::NoContent => 204,
        HttpStatusCode::PartialContent => 206,
        HttpStatusCode::BadRequest => 400,
        HttpStatusCode::Unauthorized => 401,
        HttpStatusCode::Forbidden => 403,
        HttpStatusCode::NotFound => 404,
        HttpStatusCode::MethodNotAllowed => 405,
        HttpStatusCode::NotAcctable => 406,
        HttpStatusCode::Conflict => 409,
        HttpStatusCode::InternalServerError => 500,
        HttpStatusCode::NotImplemented => 501,
        HttpStatusCode::BadGatway => 502,
        HttpStatusCode::ServiceUnavailable => 503,
    }
}

/// The reason phrase of a status.
pub open spec fn status_reason(s: HttpStatusCode) -> Seq<char> {
    match s {
        HttpStatusCode::Success => "Ok"@,
        HttpStatusCode::Created => "Created"@,
        HttpStatusCode::NoContent => "No Content"@,
        HttpStatusCode::PartialContent => "Partial Content"@,
        HttpStatusCode::BadRequest => "Bad Request"@,
        HttpStatusCode::Unauthorized => "Unauthorized"@,
        HttpStatusCode::Forbidden => "Forbidden"@,
        HttpStatusCode::NotFound => "Not Found"@,
        HttpStatusCode::MethodNotAllowed => "Method Not Allowed"@,
        HttpStatusCode::NotAcctable => "Not Acceptable"@,
        HttpStatusCode::Conflict => "Conflict"@,
        HttpStatusCode::InternalServerError => "Internal Server Error"@,
        HttpStatusCode::NotImplemented => "Not Implemented"@,
        HttpStatusCode::BadGatway => "Bad Gateway"@,
        HttpStatusCode::ServiceUnavailable => "Service Unavailable"@,
    }
}

/// How a status is displayed on a status line.
pub open spec fn status_text(s: HttpStatusCode) -> Seq<char> {
    match s {
        HttpStatusCode::Success => "200 Ok"@,
        HttpStatusCode::Created => "201 Created"@,
        HttpStatusCode::NoContent => "204 No Content"@,
        HttpStatusCode::PartialContent => "206 Partial Content"@,
        HttpStatusCode::BadRequest => "400 Bad Request"@,
        HttpStatusCode::Unauthorized => "401 Unauthorized"@,
        HttpStatusCode::Forbidden => "403 Forbidden"@,
        HttpStatusCode::NotFound => "404 Not Found"@,
        HttpStatusCode::MethodNotAllowed => "405 Method Not Allowed"@,
        HttpStatusCode::NotAcctable => "406 Not Acceptable"@,
        HttpStatusCode::Conflict => "409 Conflict"@,
        HttpStatusCode::InternalServerError => "500 Internal Server Error"@,
        HttpStatusCode::NotImplemented => "501 Not Implemented"@,
        HttpStatusCode::BadGatway => "502 Bad Gateway"@,
        HttpStatusCode::ServiceUnavailable => "503 Service Unavailable"@,
    }
}

impl HttpStatusCode {
    /// The numeric code.
    pub fn code(&self) -> (r: u16)
        ensures
            r == status_code(*self),
    {
        match self {
            HttpStatusCode::Success => 200,
            HttpStatusCode::Created => 201,
            HttpStatusCode::NoContent => 204,
            HttpStatusCode::PartialContent => 206,
            HttpStatusCode::BadRequest => 400,
            HttpStatusCode::Unauthorized => 401,
            HttpStatusCode::Forbidden => 403,
            HttpStatusCode::NotFound => 404,
            HttpStatusCode::MethodNotAllowed => 405,
            HttpStatusCode::NotAcctable => 406,
            HttpStatusCode::Conflict => 409,
            HttpStatusCode::InternalServerError => 500,
            HttpStatusCode::NotImplemented => 501,
            HttpStatusCode::BadGatway => 502,
            HttpStatusCode::ServiceUnavailable => 503,
        }
    }

    /// The status as it is displayed: code and reason phrase.
    pub fn to_string(&self) -> (r: String)
        ensures
            r@ == status_text(*self),
    {
        match self {
            HttpStatusCode::Success => String::from_str("200 Ok"),
            HttpStatusCode::Created => String::from_str("201 Created"),
            HttpStatusCode::NoContent => String::from_str("204 No Content"),
            HttpStatusCode::PartialContent => String::from_str("206 Partial Content"),
            HttpStatusCode::BadRequest => String::from_str("400 Bad Request"),
            HttpStatusCode::Unauthorized => String::from_str("401 Unauthorized"),
            HttpStatusCode::Forbidden => String::from_str("403 Forbidden"),
            HttpStatusCode::NotFound => String::from_str("404 Not Found"),
            HttpStatusCode::MethodNotAllowed => String::from_str("405 Method Not Allowed"),
            HttpStatusCode::NotAcctable => String::from_str("406 Not Acceptable"),
            HttpStatusCode::Conflict => String::from_str("409 Conflict"),
            HttpStatusCode::InternalServerError => String::from_str("500 Internal Server Error"),
            HttpStatusCode::NotImplemented => String::from_str("501 Not Implemented"),
            HttpStatusCode::BadGatway => String::from_str("502 Bad Gateway"),
            HttpStatusCode::ServiceUnavailable => String::from_str("503 Service Unavailable"),
        }
    }
}

/// The displayed status is its numeric code, a space and its reason phrase.
pub proof fn law_status_text(s: HttpStatusCode)
    ensures
        status_text(s) == decimal(status_code(s)) + seq![' '] + status_reason(s),
{
    reveal_with_fuel(decimal, 4);
    match s {
        HttpStatusCode::Success => {
            reveal_strlit("200 Ok");
            reveal_strlit("Ok");
        },
        HttpStatusCode::Created => {
            reveal_strlit("201 Created");
            reveal_strlit("Created");
        },
        HttpStatusCode::NoContent => {
            reveal_strlit("204 No Content");
            reveal_strlit("No Content");
        },
        HttpStatusCode::PartialContent => {
            reveal_strlit("206 Partial Content");
            reveal_strlit("Partial Content");
        },
        HttpStatusCode::BadRequest => {
            reveal_strlit("400 Bad Request");
            reveal_strlit("Bad Request");
        },
        HttpStatusCode::Unauthorized => {
            reveal_strlit("401 Unauthorized");
            reveal_strlit("Unauthorized");
        },
        HttpStatusCode::Forbidden => {
            reveal_strlit("403 Forbidden");
            reveal_strlit("Forbidden");
        },
        HttpStatusCode::NotFound => {
            reveal_strlit("404 Not Found");
            reveal_strlit("Not Found");
        },
        HttpStatusCode::MethodNotAllowed => {
            reveal_strlit("405 Method Not Allowed");
            reveal_strlit("Method Not Allowed");
        },
        HttpStatusCode::NotAcctable => {
            reveal_strlit("406 Not Acceptable");
            reveal_strlit("Not Acceptable");
        },
        HttpStatusCode::Conflict => {
            reveal_strlit("409 Conflict");
            reveal_strlit("Conflict");
        },
        HttpStatusCode::InternalServerError => {
            reveal_strlit("500 Internal Server Error");
            reveal_strlit("Internal Server Error");
        },
        HttpStatusCode::NotImplemented => {
            reveal_strlit("501 Not Implemented");
            reveal_strlit("Not Implemented");
        },
        HttpStatusCode::BadGatway => {
            reveal_strlit("502 Bad Gateway");
            reveal_strlit("Bad Gateway");
        },
        HttpStatusCode::ServiceUnavailable => {
            reveal_strlit("503 Service Unavailable");
            reveal_strlit("Service Unavailable");
        },
    }
    assert(status_text(s) =~= decimal(status_code(s)) + seq![' '] + status_reason(s));
}

/// Every status has the code the HTTP standard gives it, and no two
/// statuses share a code.
pub proof fn law_status_codes(s1: HttpStatusCode, s2: HttpStatusCode)
    ensures
        status_code(HttpStatusCode::Success) == 200,
        status_code(HttpStatusCode::Created) == 201,
        status_code(HttpStatusCode::NoContent) == 204,
        status_code(HttpStatusCode::PartialContent) == 206,
        status_code(HttpStatusCode::BadRequest) == 400,
        status_code(HttpStatusCode::Unauthorized) == 401,
        status_code(HttpStatusCode::Forbidden) == 403,
        status_code(HttpStatusCode::NotFound) == 404,
        status_code(HttpStatusCode::MethodNotAllowed) == 405,
        status_code(HttpStatusCode::NotAcctable) == 406,
        status_code(HttpStatusCode::Conflict) == 409,
        status_code(HttpStatusCode::InternalServerError) == 500,
        status_code(HttpStatusCode::NotImplemented) == 501,
        status_code(HttpStatusCode::BadGatway) == 502,
        status_code(HttpStatusCode::ServiceUnavailable) == 503,
        s1 != s2 ==> status_code(s1) != status_code(s2),
{
}

pub struct HttpResponse {
    pub status: HttpStatusCode,
    pub header: HeaderMap,
    pub body: Option<String>,
}

/// The headers every new response starts with.
pub open spec fn default_header_text() -> Seq<(Seq<char>, Seq<char>)> {
    seq![
        ("Content-Type"@, "text/html"@),
        ("Connection"@, "keep-alive"@),
        ("X-Powered-By"@, "rust_server"@),
    ]
}

impl HttpResponse {
    /// A `200 Ok` response without body, with the default headers.
    pub fn new() -> (r: Self)
        ensures
            r.status == HttpStatusCode::Success,
            header_text(r.header@) == default_header_text(),
            r.body is None,
    {
        let mut header: HeaderMap = KeyedList::new();
        proof {
            reveal_strlit("Content-Type");
            reveal_strlit("Connection");
            reveal_strlit("X-Powered-By");
            reveal_strlit("text/html");
            reveal_strlit("keep-alive");
            reveal_strlit("rust_server");
        }
        let ghost h0 = header@;
        header.insert(String::from_str("Content-Type"), String::from_str("text/html"));
        let ghost h1 = header@;
        assert(!has_key(h0, "Content-Type"@));
        assert(h1.len() == 1 && h1[0].0 == "Content-Type"@ && h1[0].1@ == "text/html"@);
        header.insert(String::from_str("Connection"), String::from_str("keep-alive"));
        let ghost h2 = header@;
        assert(!has_key(h1, "Connection"@));
        assert(h2.len() == 2 && h2[0] == h1[0] && h2[1].0 == "Connection"@ && h2[1].1@
            == "keep-alive"@);
        header.insert(String::from_str("X-Powered-By"), String::from_str("rust_server"));
        assert("X-Powered-By"@.len() == 12 && "Content-Type"@.len() == 12 && "Connection"@.len()
            == 10);
        assert("X-Powered-By"@[0] != "Content-Type"@[0]);
        assert(!has_key(h2, "X-Powered-By"@));
        let r = HttpResponse { status: HttpStatusCode::Success, header: header, body: None };
        assert(header_text(r.header@) =~= default_header_text());
        r
    }

    /// Sets the body.
    pub fn send(&mut self, body: String)
        ensures
            final(self).body == Some(body),
            final(self).status == old(self).status,
            final(self).header@ == old(self).header@,
    {
        self.body = Some(body);
    }

    /// Sets header `key` to `value`, replacing an earlier value.
    pub fn set_header(&mut self, key: String, value: String)
        ensures
            final(self).header@ == inserted(old(self).header@, key@, value),
            final(self).status == old(self).status,
            final(self).body == old(self).body,
    {
        self.header.insert(key, value);
    }
}

} // verus!
