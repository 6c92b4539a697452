use comfyui_openai_api::headers::{
    authorization, authorization_headers, image_request_headers, response_headers,
    video_request_headers, Header, HeaderSet,
};

fn header(name: &str, value: &str) -> Header {
    Header { name: name.to_string(), value: value.as_bytes().to_vec() }
}

fn shown(set: &HeaderSet) -> Vec<String> {
    let mut lines: Vec<String> = set
        .headers()
        .iter()
        .map(|h| format!("{}: {}", h.name, String::from_utf8_lossy(&h.value)))
        .collect();
    lines.sort();
    lines
}

fn client_headers() -> Vec<Header> {
    vec![
        header("host", "localhost:8080"),
        header("content-type", "text/plain"),
        header("content-length", "17"),
        header("authorization", "Bearer sk-any-token"),
        header("x-tag", "one"),
        header("x-tag", "two"),
    ]
}

#[test]
fn a_set_has_one_value_for_each_name() {
    let set = HeaderSet::new()
        .with("a", b"1".to_vec())
        .with("b", b"2".to_vec())
        .with("a", b"3".to_vec());
    assert_eq!(shown(&set), vec!["a: 3", "b: 2"]);
    assert!(HeaderSet::new().headers().is_empty());
}

#[test]
fn the_first_authorization_counts() {
    let headers = vec![header("x", "0"), header("authorization", "a"), header("authorization", "b")];
    assert_eq!(authorization(&headers), Some(&b"a".to_vec()));
    assert_eq!(authorization(&vec![header("x", "0")]), None);
    assert_eq!(shown(&authorization_headers(&Some(b"a".to_vec()))), vec!["authorization: a"]);
    assert!(authorization_headers(&None).headers().is_empty());
}

#[test]
fn an_image_request_has_the_media_type_and_the_authorization() {
    assert_eq!(
        shown(&image_request_headers(&client_headers(), true)),
        vec!["authorization: Bearer sk-any-token", "content-type: application/json"]
    );
    assert_eq!(
        shown(&image_request_headers(&client_headers(), false)),
        vec!["authorization: Bearer sk-any-token"]
    );
    assert_eq!(
        shown(&image_request_headers(&Vec::new(), true)),
        vec!["content-type: application/json"]
    );
    assert!(image_request_headers(&vec![header("x", "y")], false).headers().is_empty());
}

#[test]
fn a_video_request_has_the_headers_of_the_client() {
    assert_eq!(
        shown(&video_request_headers(&client_headers())),
        vec![
            "authorization: Bearer sk-any-token",
            "content-type: application/json",
            "x-tag: two",
        ]
    );
    assert_eq!(
        shown(&video_request_headers(&Vec::new())),
        vec!["content-type: application/json"]
    );
}

#[test]
fn host_and_length_are_withheld_in_any_case() {
    let headers = vec![header("HOST", "h"), header("Content-Length", "1"), header("hosts", "2")];
    assert_eq!(
        shown(&video_request_headers(&headers)),
        vec!["content-type: application/json", "hosts: 2"]
    );
}

#[test]
fn the_answer_states_the_length_of_its_body() {
    let headers = vec![
        header("content-type", "application/json"),
        header("content-length", "99"),
        header("server", "a"),
        header("server", "b"),
    ];
    for (length, line) in [
        (0, "content-length: 0"),
        (9, "content-length: 9"),
        (10, "content-length: 10"),
        (4096, "content-length: 4096"),
        (1000000, "content-length: 1000000"),
    ] {
        assert_eq!(
            shown(&response_headers(&headers, length)),
            vec![line, "content-type: application/json", "server: b"]
        );
    }
    let longest = format!("content-length: {}", usize::MAX);
    assert_eq!(shown(&response_headers(&headers, usize::MAX))[0], longest);
}

#[test]
fn the_answer_states_no_length_where_the_backend_stated_none() {
    assert_eq!(
        shown(&response_headers(&vec![header("server", "a")], 5)),
        vec!["server: a"]
    );
}
