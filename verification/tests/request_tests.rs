use rust_server::http::HeaderMap;
use rust_server::keyed::KeyedList;
use rust_server::request::{
    add_header_line, content_length, get_status_data, headers_of_lines, parse_header_line,
};

#[test]
fn status_line_fields() {
    let (m, p, v) = get_status_data("GET /name HTTP/1.1\r\n".to_string()).unwrap();
    assert_eq!(m, "GET");
    assert_eq!(p, "/name");
    assert_eq!(v, "HTTP/1.1\r\n");
    let (m, p, v) = get_status_data("POST /send HTTP/1.1 extra".to_string()).unwrap();
    assert_eq!((m.as_str(), p.as_str(), v.as_str()), ("POST", "/send", "HTTP/1.1"));
}

#[test]
fn status_line_missing_fields() {
    assert_eq!(get_status_data("GET /".to_string()), Err("Http Version Not Found!".to_string()));
    assert_eq!(get_status_data("GET".to_string()), Err("Http Version Not Found!".to_string()));
    assert_eq!(get_status_data("".to_string()), Err("Http Version Not Found!".to_string()));
    let (m, p, v) = get_status_data("  ".to_string()).unwrap();
    assert_eq!((m.as_str(), p.as_str(), v.as_str()), ("", "", ""));
}

#[test]
fn header_line_name_and_value() {
    assert_eq!(
        parse_header_line("Host: localhost:7878\r\n"),
        ("Host".to_string(), "localhost".to_string())
    );
    assert_eq!(parse_header_line("NoColon"), ("NoColon".to_string(), "".to_string()));
    assert_eq!(
        parse_header_line(" Content-Length :  12 \r\n"),
        ("Content-Length".to_string(), "12".to_string())
    );
}

#[test]
fn head_lines_until_blank() {
    let mut h: HeaderMap = KeyedList::new();
    assert!(add_header_line(&mut h, "Content-Length: 5\r\n"));
    assert!(add_header_line(&mut h, "X: a\r\n"));
    assert!(add_header_line(&mut h, "X: b\r\n"));
    assert!(!add_header_line(&mut h, "\r\n"));
    assert!(!add_header_line(&mut h, ""));
    assert_eq!(h.len(), 2);
    assert_eq!(h.get("X").unwrap(), "b");
    assert_eq!(content_length(&h), 5);
}

#[test]
fn content_length_defaults_to_zero() {
    let mut h: HeaderMap = KeyedList::new();
    assert_eq!(content_length(&h), 0);
    h.insert("Content-Length".to_string(), "abc".to_string());
    assert_eq!(content_length(&h), 0);
    h.insert("Content-Length".to_string(), "-3".to_string());
    assert_eq!(content_length(&h), 0);
    h.insert("content-length".to_string(), "7".to_string());
    assert_eq!(content_length(&h), 0);
}

#[test]
fn law_content_length_roundtrip_on_values() {
    for n in [0usize, 1, 42, 1048576] {
        let mut h: HeaderMap = KeyedList::new();
        let line = format!("Content-Length:{}", n);
        assert_eq!(parse_header_line(&line), ("Content-Length".to_string(), n.to_string()));
        assert!(add_header_line(&mut h, &line));
        assert_eq!(content_length(&h), n);
    }
}

#[test]
fn law_header_lines_fold_on_values() {
    let lines: Vec<String> = [
        "Host: localhost:7878\r\n",
        "X: a\r\n",
        "NoColon\r\n",
        "X : b:c\r\n",
        "x: lower\r\n",
        "  \r\n",
        "After: blank\r\n",
    ]
    .iter()
    .map(|l| l.to_string())
    .collect();
    let h = headers_of_lines(&lines);
    assert_eq!(
        h.as_vec().clone(),
        vec![
            ("Host".to_string(), "localhost".to_string()),
            ("X".to_string(), "b".to_string()),
            ("NoColon".to_string(), "".to_string()),
            ("x".to_string(), "lower".to_string()),
        ]
    );
    let mut step: HeaderMap = KeyedList::new();
    for l in &lines {
        if !add_header_line(&mut step, l) {
            break;
        }
    }
    assert_eq!(step.as_vec().clone(), h.as_vec().clone());
    assert_eq!(headers_of_lines(&Vec::new()).len(), 0);
}
