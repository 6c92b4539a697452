use comfyui_openai_api::codec::parse_text;
use comfyui_openai_api::error::ProxyError;
use comfyui_openai_api::generation::{
    generations_response, image_request, payload_limit, query_string, target_base,
    video_generations_response, video_request,
};
use comfyui_openai_api::headers::{Header, HeaderSet};
use comfyui_openai_api::workflows::Workflows;

fn header(name: &str, value: &str) -> Header {
    Header { name: name.to_string(), value: value.as_bytes().to_vec() }
}

fn shown(set: &HeaderSet) -> Vec<String> {
    let mut lines: Vec<String> = set
        .headers()
        .iter()
        .map(|h| format!("{}: {}", h.name, String::from_utf8_lossy(&h.value)))
        .collect();
    lines.sort();
    lines
}

fn params(pairs: &[(&str, &str)]) -> Vec<(String, String)> {
    pairs.iter().map(|(k, v)| (k.to_string(), v.to_string())).collect()
}

fn workflows() -> Workflows {
    Workflows::new()
        .with("m", parse_text(r#"{"1":{"class_type":"KSampler","inputs":{}}}"#).unwrap())
        .with("u", parse_text(r#"{"1":{"class_type":"CR Text","_meta":{}}}"#).unwrap())
}

#[test]
fn the_base_is_host_and_port() {
    assert_eq!(target_base("localhost", "8188"), "localhost:8188");
}

#[test]
fn limits_are_given_in_mebibytes() {
    assert_eq!(payload_limit(10), 10485760);
    assert_eq!(payload_limit(0), 0);
}

#[test]
fn parameters_stand_in_the_query_as_they_are() {
    assert_eq!(query_string(&params(&[])), "");
    assert_eq!(query_string(&params(&[("a", "1")])), "?a=1");
    assert_eq!(query_string(&params(&[("a", "1"), ("b c", "ü&"), ("", "")])), "?a=1&b c=ü&&=");
}

#[test]
fn an_image_request_goes_to_the_prompt_address() {
    let headers = vec![header("authorization", "a"), header("x", "y")];
    let request = image_request("h:1", &params(&[("k", "v")]), &headers, b"{}".to_vec());
    assert_eq!(request.url, "http://h:1/prompt?k=v");
    assert!(request.query.is_empty());
    assert_eq!(shown(&request.headers), vec!["authorization: a", "content-type: application/json"]);
    assert_eq!(request.body, b"{}".to_vec());
    let empty = image_request("h:1", &params(&[]), &Vec::new(), Vec::new());
    assert_eq!(empty.url, "http://h:1/prompt");
    assert!(empty.headers.headers().is_empty());
}

#[test]
fn a_video_request_leaves_its_parameters_to_be_encoded() {
    let headers = vec![header("host", "h"), header("x", "y")];
    let request = video_request("h:1", params(&[("k", "v")]), &headers, Vec::new());
    assert_eq!(request.url, "http://h:1/prompt");
    assert_eq!(request.query, params(&[("k", "v")]));
    assert_eq!(shown(&request.headers), vec!["content-type: application/json", "x: y"]);
    assert!(request.body.is_empty());
}

#[test]
fn a_generation_request_is_turned_into_a_prompt() {
    let body = br#"{"model":"m","seed":3}"#.to_vec();
    let expected =
        br#"{"client_id":"c","prompt":{"1":{"class_type":"KSampler","inputs":{"seed":3}}}}"#.to_vec();
    let image = generations_response("h:1", &params(&[]), &Vec::new(), body.clone(), &workflows(), "c")
        .unwrap();
    assert_eq!(image.body, expected);
    assert_eq!(image.url, "http://h:1/prompt");
    let video = video_generations_response("h:1", params(&[("a", "b")]), &Vec::new(), body, &workflows(), "c")
        .unwrap();
    assert_eq!(video.body, expected);
    assert_eq!(video.query, params(&[("a", "b")]));
}

#[test]
fn a_generation_request_that_fails_makes_no_request() {
    let body = br#"{"model":"x"}"#.to_vec();
    let error = ProxyError::Json("Workflow 'x' not found".to_string());
    assert_eq!(
        generations_response("h:1", &params(&[]), &Vec::new(), body.clone(), &workflows(), "c")
            .unwrap_err(),
        error
    );
    assert_eq!(
        video_generations_response("h:1", params(&[]), &Vec::new(), body, &workflows(), "c")
            .unwrap_err(),
        error
    );
}

#[test]
fn an_untitled_prompt_node_makes_a_request_all_the_same() {
    let body = br#"{"model":"u","prompt":"p"}"#.to_vec();
    let expected = br#"{"client_id":"c","prompt":{"1":{"_meta":{},"class_type":"CR Text"}}}"#.to_vec();
    let image = generations_response("h:1", &params(&[]), &Vec::new(), body.clone(), &workflows(), "c");
    assert_eq!(image.unwrap().body, expected);
    let video = video_generations_response("h:1", params(&[]), &Vec::new(), body, &workflows(), "c");
    assert_eq!(video.unwrap().body, expected);
}

#[test]
fn an_empty_generation_request_stays_empty() {
    let request = generations_response("h:1", &params(&[]), &Vec::new(), Vec::new(), &workflows(), "c")
        .unwrap();
    assert!(request.body.is_empty());
    assert!(request.headers.headers().is_empty());
    let video = video_generations_response("h:1", params(&[]), &Vec::new(), Vec::new(), &workflows(), "c")
        .unwrap();
    assert_eq!(shown(&video.headers), vec!["content-type: application/json"]);
}
