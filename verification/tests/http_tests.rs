use rust_server::http::{HeaderMap, HttpMethod, HttpRequest, HttpResponse, HttpStatusCode};
use rust_server::keyed::KeyedList;

fn pairs(h: &HeaderMap) -> Vec<(String, String)> {
    h.as_vec().clone()
}

#[test]
fn method_from_str_known_and_other() {
    assert!(matches!(HttpMethod::from_str("GET"), HttpMethod::GET));
    assert!(matches!(HttpMethod::from_str("POST"), HttpMethod::POST));
    assert!(matches!(HttpMethod::from_str("PUT"), HttpMethod::PUT));
    assert!(matches!(HttpMethod::from_str("PATCH"), HttpMethod::PATCH));
    assert!(matches!(HttpMethod::from_str("DELETE"), HttpMethod::DELETE));
    assert!(matches!(HttpMethod::from_str("OPTIONS"), HttpMethod::OPTIONS));
    assert!(matches!(HttpMethod::from_str("HEAD"), HttpMethod::HEAD));
    match HttpMethod::from_str("get") {
        HttpMethod::OTHER(s) => assert_eq!(s, "get"),
        _ => panic!("lower case is not GET"),
    }
}

#[test]
fn law_method_name_roundtrip_on_values() {
    for name in ["GET", "POST", "PUT", "PATCH", "DELETE", "OPTIONS", "HEAD", "BREW", ""] {
        assert_eq!(HttpMethod::from_str(name).to_string(), name);
    }
}

#[test]
fn status_codes_and_text() {
    assert_eq!(HttpStatusCode::Success.to_string(), "200 Ok");
    assert_eq!(HttpStatusCode::NotAcctable.to_string(), "406 Not Acceptable");
    assert_eq!(HttpStatusCode::BadGatway.to_string(), "502 Bad Gateway");
    assert_eq!(HttpStatusCode::PartialContent.code(), 206);
    let all = [
        HttpStatusCode::Success,
        HttpStatusCode::Created,
        HttpStatusCode::NoContent,
        HttpStatusCode::PartialContent,
        HttpStatusCode::BadRequest,
        HttpStatusCode::Unauthorized,
        HttpStatusCode::Forbidden,
        HttpStatusCode::NotFound,
        HttpStatusCode::MethodNotAllowed,
        HttpStatusCode::NotAcctable,
        HttpStatusCode::Conflict,
        HttpStatusCode::InternalServerError,
        HttpStatusCode::NotImplemented,
        HttpStatusCode::BadGatway,
        HttpStatusCode::ServiceUnavailable,
    ];
    for s in all {
        let text = s.to_string();
        assert!(text.starts_with(&format!("{} ", s.code())));
    }
}

#[test]
fn new_response_has_default_headers() {
    let r = HttpResponse::new();
    assert_eq!(r.status, HttpStatusCode::Success);
    assert!(r.body.is_none());
    assert_eq!(
        pairs(&r.header),
        vec![
            ("Content-Type".to_string(), "text/html".to_string()),
            ("Connection".to_string(), "keep-alive".to_string()),
            ("X-Powered-By".to_string(), "rust_server".to_string()),
        ]
    );
}

#[test]
fn set_header_replaces_in_place_or_appends() {
    let mut r = HttpResponse::new();
    r.set_header("Content-Type".to_string(), "text/plain".to_string());
    r.set_header("A".to_string(), "1".to_string());
    r.set_header("A".to_string(), "2".to_string());
    assert_eq!(r.header.get("Content-Type").unwrap(), "text/plain");
    assert_eq!(r.header.get("A").unwrap(), "2");
    assert_eq!(r.header.len(), 4);
    assert_eq!(pairs(&r.header)[0].0, "Content-Type");
    assert!(r.header.get("a").is_none());
    r.send("hello".to_string());
    assert_eq!(r.body.as_deref(), Some("hello"));
}

#[test]
fn law_insert_lookup_on_values() {
    let mut h: KeyedList<u32> = KeyedList::new();
    h.insert("x".to_string(), 1);
    h.insert("y".to_string(), 2);
    h.insert("x".to_string(), 3);
    assert_eq!(h.get("x"), Some(&3));
    assert_eq!(h.get("y"), Some(&2));
    assert_eq!(h.get("z"), None);
    assert_eq!(h.len(), 2);
}

#[test]
fn body_as_str_defaults_to_empty() {
    let mut req = HttpRequest {
        method: HttpMethod::GET,
        version: "HTTP/1.1".to_string(),
        path: "/".to_string(),
        header: KeyedList::new(),
        body: None,
    };
    assert_eq!(req.body_as_str(), "");
    req.body = Some("{}".to_string());
    assert_eq!(req.body_as_str(), "{}");
}
