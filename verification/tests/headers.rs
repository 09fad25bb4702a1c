use cc_switch::headers::{
    append_header_lines, append_headers, is_event_stream_response, names_header, HeaderLine,
};
use cc_switch::media::is_event_stream;
use cc_switch::request::{
    append_content_length_line, append_decimal, append_host_line, append_request_headers,
    UrlAuthority,
};
use http::{HeaderMap, HeaderValue};

fn map(pairs: &[(&'static str, &[u8])]) -> HeaderMap {
    let mut headers = HeaderMap::new();
    for (name, value) in pairs {
        headers.append(*name, HeaderValue::from_bytes(value).unwrap());
    }
    headers
}

fn text(bytes: Vec<u8>) -> String {
    String::from_utf8(bytes).unwrap()
}

fn request_headers(url: &str, headers: &HeaderMap, body_len: usize) -> String {
    let mut output = Vec::new();
    append_request_headers(&mut output, url, headers, body_len);
    text(output)
}

#[test]
fn header_lines_are_written_in_order() {
    let lines = vec![
        HeaderLine { name: "a".to_string(), value: b"1".to_vec() },
        HeaderLine { name: "b".to_string(), value: vec![] },
    ];
    let mut output = b">".to_vec();
    append_header_lines(&mut output, &lines);
    assert_eq!(text(output), ">a: 1\r\nb: \r\n");
}

#[test]
fn every_header_of_a_map_is_written() {
    let headers = map(&[("X-One", b"1"), ("accept", b"a"), ("accept", b"b")]);
    let mut output = Vec::new();
    append_headers(&mut output, &headers);
    assert_eq!(text(output), "x-one: 1\r\naccept: a\r\naccept: b\r\n");
}

#[test]
fn header_values_are_written_as_raw_bytes() {
    let headers = map(&[("x-raw", &[0xff, 0x41])]);
    let mut output = Vec::new();
    append_headers(&mut output, &headers);
    assert_eq!(output, b"x-raw: \xffA\r\n".to_vec());
}

#[test]
fn headers_are_found_by_name() {
    let headers = map(&[("Host", b"h"), ("x-a", b"1")]);
    assert!(names_header(&headers, "host"));
    assert!(names_header(&headers, "x-a"));
    assert!(!names_header(&headers, "content-length"));
    assert!(!names_header(&HeaderMap::new(), "host"));
}

#[test]
fn event_stream_in_any_case_and_with_parameters() {
    assert!(is_event_stream(b"text/event-stream"));
    assert!(is_event_stream(b" \tText/Event-STREAM ; charset=utf-8"));
    assert!(is_event_stream(b"text/event-stream;a;b"));
}

#[test]
fn other_content_types_are_no_event_stream() {
    assert!(!is_event_stream(b""));
    assert!(!is_event_stream(b";text/event-stream"));
    assert!(!is_event_stream(b"application/json"));
    assert!(!is_event_stream(b"text/event-streams"));
    assert!(!is_event_stream(b"text/event stream"));
    assert!(!is_event_stream(b"text/event-stream; note=\xe9"));
    assert!(!is_event_stream(b"text/event-stream\x0b"));
}

#[test]
fn first_content_type_decides() {
    assert!(is_event_stream_response(&map(&[
        ("content-type", b"text/event-stream"),
        ("content-type", b"application/json"),
    ])));
    assert!(!is_event_stream_response(&map(&[
        ("content-type", b"application/json"),
        ("content-type", b"text/event-stream"),
    ])));
    assert!(!is_event_stream_response(&map(&[("accept", b"text/event-stream")])));
}

#[test]
fn missing_host_and_length_are_filled_in() {
    assert_eq!(
        request_headers("https://API.example.com:8443/v1?q=1", &HeaderMap::new(), 12),
        "host: api.example.com:8443\r\ncontent-length: 12\r\n"
    );
}

#[test]
fn default_port_is_not_named() {
    assert_eq!(
        request_headers("https://example.com:443/", &HeaderMap::new(), 0),
        "host: example.com\r\ncontent-length: 0\r\n"
    );
}

#[test]
fn given_host_and_length_stand() {
    let headers = map(&[("host", b"given"), ("content-length", b"5")]);
    assert_eq!(
        request_headers("https://example.com/", &headers, 12),
        "host: given\r\ncontent-length: 5\r\n"
    );
}

#[test]
fn url_without_a_host_names_none() {
    assert_eq!(request_headers("not a url", &HeaderMap::new(), 1), "content-length: 1\r\n");
    assert_eq!(request_headers("data:text/plain,x", &HeaderMap::new(), 1), "content-length: 1\r\n");
}

#[test]
fn host_line_from_an_authority() {
    let mut output = Vec::new();
    append_host_line(
        &mut output,
        &Some(UrlAuthority { host: Some("h".to_string()), port: Some(80) }),
    );
    append_host_line(&mut output, &Some(UrlAuthority { host: Some("i".to_string()), port: None }));
    append_host_line(&mut output, &Some(UrlAuthority { host: None, port: Some(1) }));
    append_host_line(&mut output, &None);
    assert_eq!(text(output), "host: h:80\r\nhost: i\r\n");
}

#[test]
fn numbers_are_written_in_decimal() {
    let mut output = Vec::new();
    append_decimal(&mut output, 4096);
    append_content_length_line(&mut output, 7);
    assert_eq!(text(output), "4096content-length: 7\r\n");
}
