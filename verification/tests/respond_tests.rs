use rust_server::http::{HttpMethod, HttpRequest, HttpResponse, HttpStatusCode};
use rust_server::keyed::KeyedList;
use rust_server::respond::{
    finish_get, finish_post, get_header, handle_option_request, not_found, plan, server_error,
    Action, Reply,
};
use rust_server::server::Server;

type RouteFn = fn(HttpRequest, &mut HttpResponse);

const DEFAULT: &str = "\r\nContent-Type:text/html\r\nConnection:keep-alive\r\nX-Powered-By:rust_server";

fn h(_r: HttpRequest, resp: &mut HttpResponse) {
    resp.send("é!".to_string());
}

fn request(method: HttpMethod, path: &str) -> HttpRequest {
    HttpRequest {
        method,
        version: "HTTP/1.1".to_string(),
        path: path.to_string(),
        header: KeyedList::new(),
        body: None,
    }
}

fn server() -> Server<RouteFn> {
    let mut s: Server<RouteFn> = Server::new("7878");
    s.set_static("public");
    s.get("/name", h);
    s.post("/send", h);
    s
}

fn reply(a: Action<RouteFn>) -> Reply {
    match a {
        Action::Reply(r) => r,
        _ => panic!("expected a reply"),
    }
}

#[test]
fn head_of_new_response() {
    let r = HttpResponse::new();
    assert_eq!(get_header(&r), format!("HTTP/1.1 200 Ok{}\r\n\r\n", DEFAULT));
}

#[test]
fn error_replies_carry_byte_length() {
    let r = server_error("boom");
    assert_eq!(
        r.head,
        format!("HTTP/1.1 500 Internal Server Error{}\r\nContent-Length:4\r\n\r\n", DEFAULT)
    );
    assert_eq!(r.body.as_deref(), Some("boom"));
    let r = not_found("né");
    assert_eq!(r.head, format!("HTTP/1.1 404 Not Found{}\r\nContent-Length:3\r\n\r\n", DEFAULT));
    assert_eq!(r.body.as_deref(), Some("né"));
}

#[test]
fn options_reply_is_head_only() {
    let r = handle_option_request();
    assert_eq!(r.head, format!("HTTP/1.1 204 No Content{}\r\n\r\n", DEFAULT));
    assert!(r.body.is_none());
}

#[test]
fn get_reply_head_has_no_length() {
    let mut resp = HttpResponse::new();
    h(request(HttpMethod::GET, "/name"), &mut resp);
    let r = finish_get(resp);
    assert_eq!(r.head, format!("HTTP/1.1 200 Ok{}\r\n\r\n", DEFAULT));
    assert_eq!(r.body.as_deref(), Some("é!"));
    let r = finish_get(HttpResponse::new());
    assert_eq!(r.body.as_deref(), Some(""));
}

#[test]
fn post_reply_head_has_length() {
    let mut resp = HttpResponse::new();
    h(request(HttpMethod::POST, "/send"), &mut resp);
    let r = finish_post(resp);
    assert_eq!(r.head, format!("HTTP/1.1 200 Ok{}\r\nContent-Length:3\r\n\r\n", DEFAULT));
    assert_eq!(r.body.as_deref(), Some("é!"));
}

#[test]
fn plan_by_method() {
    let s = server();
    assert_eq!(reply(plan(&s, Err("bad".to_string()))).body.as_deref(), Some("bad"));
    let r = reply(plan(&s, Ok(request(HttpMethod::OPTIONS, "/"))));
    assert!(r.head.starts_with("HTTP/1.1 204 No Content") && r.body.is_none());
    let r = reply(plan(&s, Ok(request(HttpMethod::HEAD, "/"))));
    assert!(r.head.starts_with("HTTP/1.1 204 No Content") && r.body.is_none());
    let r = reply(plan(&s, Ok(request(HttpMethod::DELETE, "/"))));
    assert_eq!(r.body.as_deref(), Some("Delete method not found!"));
    assert!(r.head.starts_with("HTTP/1.1 404 Not Found"));
    let r = reply(plan(&s, Ok(request(HttpMethod::PUT, "/"))));
    assert_eq!(r.body.as_deref(), Some("PUt method not found"));
    let r = reply(plan(&s, Ok(request(HttpMethod::PATCH, "/"))));
    assert_eq!(r.body.as_deref(), Some("Patch method not found!"));
    let r = reply(plan(&s, Ok(request(HttpMethod::OTHER("BREW".to_string()), "/"))));
    assert_eq!(r.body.as_deref(), Some("BREW method not found!"));
}

#[test]
fn plan_get_and_post_routes() {
    let s = server();
    match plan(&s, Ok(request(HttpMethod::GET, "/name"))) {
        Action::Get(f, req) => {
            let mut resp = HttpResponse::new();
            f(req, &mut resp);
            assert_eq!(resp.body.as_deref(), Some("é!"));
        }
        _ => panic!("expected the GET handler"),
    }
    match plan(&s, Ok(request(HttpMethod::GET, "/public/index.html"))) {
        Action::Static(p, _) => assert_eq!(p, "public/index.html"),
        _ => panic!("expected a static file"),
    }
    let r = reply(plan(&s, Ok(request(HttpMethod::GET, "/nothing"))));
    assert_eq!(r.body.as_deref(), Some("File Not Found!"));
    assert!(matches!(plan(&s, Ok(request(HttpMethod::POST, "/send"))), Action::Post(_, _)));
    let r = reply(plan(&s, Ok(request(HttpMethod::POST, "/name"))));
    assert_eq!(r.body.as_deref(), Some("Route Not Found!"));
    assert!(r.head.contains("Content-Length:16"));
    assert_eq!(HttpStatusCode::NotFound.code(), 404);
}
