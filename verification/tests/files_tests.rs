use rust_server::files::{
    get_file_content, get_range, plan_chunk, range_start_overflows, static_response,
    whole_file_head,
};
use rust_server::http::{HttpMethod, HttpRequest, HttpResponse};
use rust_server::keyed::KeyedList;

fn with_range(value: &str) -> HttpRequest {
    let mut header = KeyedList::new();
    header.insert("Range".to_string(), value.to_string());
    HttpRequest {
        method: HttpMethod::GET,
        version: "HTTP/1.1".to_string(),
        path: "/public/v.mp4".to_string(),
        header,
        body: None,
    }
}

#[test]
fn content_types_by_extension() {
    assert_eq!(get_file_content("public/index.html"), "text/html");
    assert_eq!(get_file_content("public/style.css"), "text/css");
    assert_eq!(get_file_content("a.js"), "application/javascript");
    assert_eq!(get_file_content("a.json"), "application/json");
    assert_eq!(get_file_content("v.mp4"), "video/mp4");
    assert_eq!(get_file_content("i.png"), "image/png");
    assert_eq!(get_file_content("i.jpg"), "image/jpeg");
    assert_eq!(get_file_content("i.jpeg"), "image/jpeg");
    assert_eq!(get_file_content("i.gif"), "image/gif");
    assert_eq!(get_file_content("i.svg"), "image/svg+xml");
    assert_eq!(get_file_content("favicon.ico"), "image/x-icon");
    assert_eq!(get_file_content("notes.txt"), "text/plain");
    assert_eq!(get_file_content("a.tar.gz"), "application/octet-stream");
    assert_eq!(get_file_content("I.JPG"), "application/octet-stream");
    assert_eq!(get_file_content("public/.html"), "application/octet-stream");
    assert_eq!(get_file_content("public"), "application/octet-stream");
    assert_eq!(get_file_content("dir.html/"), "text/html");
    assert_eq!(get_file_content("x.html/.."), "application/octet-stream");
    assert_eq!(get_file_content("x.css/."), "text/css");
    assert_eq!(get_file_content(""), "application/octet-stream");
}

#[test]
fn content_type_agrees_with_path_extension() {
    for p in ["a.b.html", ".x.css", "..", "a/..b.txt", "/", "./a.json", "a..png", "b."] {
        let ext = std::path::Path::new(p).extension().and_then(|e| e.to_str());
        let expected = match ext {
            Some("html") => "text/html",
            Some("css") => "text/css",
            Some("json") => "application/json",
            Some("png") => "image/png",
            Some("txt") => "text/plain",
            _ => "application/octet-stream",
        };
        assert_eq!(get_file_content(p), expected, "path {p}");
    }
}

#[test]
fn ranges() {
    assert_eq!(get_range(&with_range("bytes=0-99")), Some((0, 99)));
    assert_eq!(get_range(&with_range("bytes=100-")), Some((100, 100 + 1048576)));
    assert_eq!(get_range(&with_range("bytes=-5")), Some((0, 5)));
    assert_eq!(get_range(&with_range("bytes=x-y")), Some((0, 1048576)));
    assert_eq!(get_range(&with_range("items=0-1")), None);
    assert_eq!(get_range(&with_range("bytes=5")), None);
    assert!(!range_start_overflows(&with_range("bytes=5-")));
    assert!(range_start_overflows(&with_range("bytes=18446744073709551615-1")));
}

#[test]
fn whole_file_head_sets_length() {
    let r = static_response("public/index.html");
    let head = whole_file_head(r, 12);
    assert_eq!(
        head,
        "HTTP/1.1 200 Ok\r\nContent-Type:text/html\r\nConnection:keep-alive\r\nX-Powered-By:rust_server\r\nContent-Length:12\r\n\r\n"
    );
}

#[test]
fn chunk_window_is_clamped_to_file() {
    let p = plan_chunk(static_response("v.mp4"), 10, 99, 50);
    assert_eq!(p.offset, 10);
    assert_eq!(p.len, 40);
    assert_eq!(
        p.head,
        "HTTP/1.1 206 Partial Content\r\nContent-Type:video/mp4\r\nConnection:keep-alive\r\nX-Powered-By:rust_server\r\nContent-Range:bytes 10-49/50\r\nContent-Length:40\r\n\r\n"
    );
    let p = plan_chunk(HttpResponse::new(), 0, 9, 50);
    assert_eq!((p.offset, p.len), (0, 10));
    assert!(p.head.contains("Content-Range:bytes 0-9/50"));
}
