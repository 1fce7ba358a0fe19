use rust_server::http::{HttpMethod, HttpRequest, HttpResponse};
use rust_server::keyed::KeyedList;
use rust_server::server::Server;

type RouteFn = fn(HttpRequest, &mut HttpResponse);

fn a(_r: HttpRequest, resp: &mut HttpResponse) {
    resp.send("a".to_string());
}
fn b(_r: HttpRequest, resp: &mut HttpResponse) {
    resp.send("b".to_string());
}

fn request(method: HttpMethod, path: &str) -> HttpRequest {
    HttpRequest {
        method,
        version: "HTTP/1.1".to_string(),
        path: path.to_string(),
        header: KeyedList::new(),
        body: None,
    }
}

fn run(f: RouteFn) -> String {
    let mut r = HttpResponse::new();
    f(request(HttpMethod::GET, "/"), &mut r);
    r.body.unwrap()
}

#[test]
fn new_server_is_empty() {
    let s: Server<RouteFn> = Server::new("7878");
    assert_eq!(s.port, "7878");
    assert!(s.public.is_none());
    assert_eq!(s.get_routes.len(), 0);
    assert_eq!(s.post_routes.len(), 0);
    assert_eq!(s.put_routes.len(), 0);
    assert_eq!(s.delete_routes.len(), 0);
    assert_eq!(s.thread_num, 4);
}

#[test]
fn routes_are_recorded_per_method() {
    let mut s: Server<RouteFn> = Server::new("7878");
    s.set_static("public");
    s.get("/name", a);
    s.post("/send", b);
    s.put("/put_data", a);
    s.delete("/delete_data", b);
    assert_eq!(s.public.as_deref(), Some("public"));
    assert_eq!(s.get_routes.len(), 1);
    assert_eq!(s.put_routes.len(), 1);
    assert_eq!(s.delete_routes.len(), 1);
    assert_eq!(run(*s.put_routes.get("/put_data").unwrap()), "a");
    assert_eq!(run(*s.delete_routes.get("/delete_data").unwrap()), "b");
}

#[test]
fn get_path_fun_static_then_routes() {
    let mut s: Server<RouteFn> = Server::new("7878");
    s.get("/name", a);
    s.post("/send", b);
    let (route, fun) = s.get_path_fun("get", &request(HttpMethod::GET, "/name"));
    assert_eq!(route, "/name");
    assert_eq!(run(fun.unwrap()), "a");
    let (route, fun) = s.get_path_fun("get", &request(HttpMethod::GET, "/public/x.css"));
    assert_eq!(route, "");
    assert!(fun.is_none());
    s.set_static("public");
    let (route, fun) = s.get_path_fun("get", &request(HttpMethod::GET, "/public/x.css"));
    assert_eq!(route, "public/x.css");
    assert!(fun.is_none());
    let (route, fun) = s.get_path_fun("post", &request(HttpMethod::POST, "/send"));
    assert_eq!(route, "/send");
    assert_eq!(run(fun.unwrap()), "b");
    let (route, fun) = s.get_path_fun("post", &request(HttpMethod::POST, "/name"));
    assert_eq!(route, "");
    assert!(fun.is_none());
    let (route, fun) = s.get_path_fun("put", &request(HttpMethod::PUT, "/name"));
    assert_eq!(route, "");
    assert!(fun.is_none());
}

#[test]
fn law_route_found_on_values() {
    let mut s: Server<RouteFn> = Server::new("1");
    s.get("/x", a);
    s.get("/x", b);
    let (route, fun) = s.get_path_fun("get", &request(HttpMethod::GET, "/x"));
    assert_eq!(route, "/x");
    assert_eq!(run(fun.unwrap()), "b");
    assert_eq!(s.get_routes.len(), 1);
}
