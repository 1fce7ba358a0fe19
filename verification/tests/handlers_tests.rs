use rust_server::handlers::{delete_data, get_name, hold_server, put_data, send_json};
use rust_server::http::{HttpMethod, HttpRequest, HttpResponse};
use rust_server::keyed::KeyedList;

fn request(method: HttpMethod, path: &str, body: Option<&str>) -> HttpRequest {
    HttpRequest {
        method,
        version: "HTTP/1.1".to_string(),
        path: path.to_string(),
        header: KeyedList::new(),
        body: body.map(|b| b.to_string()),
    }
}

#[test]
fn get_name_answers_method_and_version() {
    let mut r = HttpResponse::new();
    get_name(request(HttpMethod::GET, "/name", None), &mut r);
    assert_eq!(r.body.as_deref(), Some("GET HTTP/1.1 World"));
}

#[test]
fn put_data_answers_fixed_text() {
    let mut r = HttpResponse::new();
    put_data(request(HttpMethod::PUT, "/put_data", Some("x")), &mut r);
    assert_eq!(r.body.as_deref(), Some("This is put method"));
}

#[test]
fn delete_data_echoes_body() {
    let mut r = HttpResponse::new();
    delete_data(request(HttpMethod::DELETE, "/delete_data", Some("id=3")), &mut r);
    assert_eq!(r.body.as_deref(), Some("delete method with data: id=3"));
    let mut r = HttpResponse::new();
    delete_data(request(HttpMethod::DELETE, "/delete_data", None), &mut r);
    assert_eq!(r.body.as_deref(), Some("delete method with data: body not found!"));
    let mut r = HttpResponse::new();
    delete_data(request(HttpMethod::DELETE, "/delete_data", Some("")), &mut r);
    assert_eq!(r.body.as_deref(), Some("delete method with data: body not found!"));
}

#[test]
fn send_json_echoes_body() {
    let mut r = HttpResponse::new();
    send_json(request(HttpMethod::POST, "/send", Some("{\"a\":1}")), &mut r);
    assert_eq!(r.body.as_deref(), Some("{\"a\":1}"));
    let mut r = HttpResponse::new();
    send_json(request(HttpMethod::POST, "/send", None), &mut r);
    assert_eq!(r.body.as_deref(), Some(""));
}

#[test]
fn hold_server_sets_cors_headers() {
    let mut r = HttpResponse::new();
    hold_server(request(HttpMethod::GET, "/sleep", None), &mut r);
    assert_eq!(r.body.as_deref(), Some("GET /sleep waiting for 20 sec"));
    assert_eq!(r.header.get("Access-Control-Allow-Origin").unwrap(), "*");
    assert_eq!(r.header.get("Content-Security-Policy").unwrap(), "connect-src 'self' *");
    assert_eq!(r.header.len(), 5);
}
