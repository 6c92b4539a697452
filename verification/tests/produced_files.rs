use comfyui_openai_api::assets::{
    address_of_query, answer, encode_asset, entry_with_text, list_files, mime_type, view_url,
    ImageFile, MediaKind,
};
use comfyui_openai_api::codec::{parse_text, render};
use comfyui_openai_api::encoding::is_encodable;
use comfyui_openai_api::error::ProxyError;
use comfyui_openai_api::json::Json;

fn json(text: &str) -> Json {
    parse_text(text).unwrap()
}

fn shown(value: &Json) -> String {
    String::from_utf8(render(value).unwrap()).unwrap()
}

fn file(filename: &str, subfolder: &str) -> ImageFile {
    ImageFile {
        filename: filename.to_string(),
        subfolder: subfolder.to_string(),
        type_field: "output".to_string(),
    }
}

const HISTORY: &str = r#"{"id-1": {"outputs": {
    "9": {"images": [
        {"filename": "b.png", "subfolder": "sub", "type": "output"},
        {"filename": "preview.png", "subfolder": "", "type": "temp"},
        {"filename": "c.png", "type": "output"},
        {"filename": 7, "type": "output"},
        {"filename": "untyped.png"}
    ]},
    "10": {
        "images": [{"filename": "a.png", "subfolder": "", "type": "output"}],
        "videos": [{"filename": "v.mp4", "subfolder": "clips"}],
        "gifs": [{"filename": "g.gif", "type": "output"}, {"filename": "t.gif", "type": "temp"}]
    },
    "8": {"text": ["x"]}
}}}"#;

#[test]
fn an_image_job_lists_its_output_images() {
    assert_eq!(
        list_files(&json(HISTORY), "id-1", MediaKind::Image),
        Ok(vec![file("a.png", ""), file("b.png", "sub"), file("c.png", "")])
    );
}

#[test]
fn a_video_job_lists_animations_and_videos_before_images() {
    assert_eq!(
        list_files(&json(HISTORY), "id-1", MediaKind::Video),
        Ok(vec![
            file("g.gif", ""),
            file("v.mp4", "clips"),
            file("a.png", ""),
            file("b.png", "sub"),
            file("c.png", ""),
            file("untyped.png", ""),
        ])
    );
}

#[test]
fn an_image_job_must_have_a_history() {
    for history in [HISTORY, "{}", "[]", r#"{"id-2": null}"#, r#"{"id-2": []}"#] {
        assert_eq!(
            list_files(&json(history), "id-2", MediaKind::Image),
            Err(ProxyError::Upstream("No prompt_id history found.".to_string()))
        );
        assert_eq!(list_files(&json(history), "id-2", MediaKind::Video), Ok(Vec::new()));
    }
}

#[test]
fn a_history_without_outputs_lists_nothing() {
    for history in [r#"{"id": {}}"#, r#"{"id": {"outputs": []}}"#, r#"{"id": {"outputs": {"1": 5}}}"#] {
        assert_eq!(list_files(&json(history), "id", MediaKind::Image), Ok(Vec::new()));
        assert_eq!(list_files(&json(history), "id", MediaKind::Video), Ok(Vec::new()));
    }
}

#[test]
fn the_address_of_a_file_is_encoded() {
    assert_eq!(
        view_url("localhost:8188", MediaKind::Image, &file("a b&c=d.png", "über/x")),
        Ok("http://localhost:8188/view?filename=a+b%26c%3Dd.png&subfolder=%C3%BCber%2Fx&type=output"
            .to_string())
    );
    assert_eq!(
        view_url("h:1", MediaKind::Video, &file("v_0.mp4", "")),
        Ok("http://h:1/view?filename=v_0.mp4&subfolder=&type=output".to_string())
    );
}

#[test]
fn a_query_that_cannot_be_encoded_is_an_error() {
    assert_eq!(
        address_of_query("h:1", MediaKind::Image, Err("reason".to_string())),
        Err(ProxyError::Json("Failed to serialize image data query: reason".to_string()))
    );
    assert_eq!(
        address_of_query("h:1", MediaKind::Video, Err("reason".to_string())),
        Err(ProxyError::Json("Failed to serialize video data query: reason".to_string()))
    );
    assert_eq!(
        address_of_query("h:1", MediaKind::Video, Ok("q=1".to_string())),
        Ok("http://h:1/view?q=1".to_string())
    );
}

#[test]
fn contents_are_base64() {
    for (content, text) in [
        (&b""[..], ""),
        (&b"f"[..], "Zg=="),
        (&b"fo"[..], "Zm8="),
        (&b"foo"[..], "Zm9v"),
        (&b"hello"[..], "aGVsbG8="),
        (&[0xfb, 0xff, 0xfe][..], "+//+"),
    ] {
        assert_eq!(
            shown(&encode_asset("a.png", MediaKind::Image, &content.to_vec())),
            format!(r#"{{"b64_json":"{}"}}"#, text)
        );
    }
}

#[test]
fn a_video_entry_says_what_it_is() {
    assert_eq!(
        shown(&encode_asset("clip.mp4", MediaKind::Video, &b"foo".to_vec())),
        r#"{"b64_json":"Zm9v","mime_type":"video/mp4"}"#
    );
    assert_eq!(
        shown(&entry_with_text("clip.bin", MediaKind::Video, "text".to_string())),
        r#"{"b64_json":"text","mime_type":"application/octet-stream"}"#
    );
}

#[test]
fn media_types_go_by_the_ending() {
    assert_eq!(mime_type("a.mp4"), "video/mp4");
    assert_eq!(mime_type("a.webm"), "video/webm");
    assert_eq!(mime_type("a.gif"), "image/gif");
    assert_eq!(mime_type(".gif"), "image/gif");
    for name in ["a.png", "a.MP4", "mp4", "a.mp4.part", "", "é.gi"] {
        assert_eq!(mime_type(name), "application/octet-stream");
    }
}

#[test]
fn the_answer_holds_the_entries_and_the_time() {
    let entries = vec![json(r#"{"b64_json":"x"}"#), json(r#"{"b64_json":"y"}"#)];
    assert_eq!(
        shown(&answer(entries, 1700000000)),
        r#"{"created":1700000000,"data":[{"b64_json":"x"},{"b64_json":"y"}]}"#
    );
    assert_eq!(shown(&answer(Vec::new(), -1)), r#"{"created":-1,"data":[]}"#);
}

#[test]
fn lengths_are_encodable_up_to_three_quarters_of_the_address_space() {
    assert!(is_encodable(0));
    assert!(is_encodable(isize::MAX as usize / 4 * 3));
    assert!(!is_encodable(isize::MAX as usize / 4 * 3 + 1));
    assert!(!is_encodable(usize::MAX));
}

#[test]
fn different_contents_have_different_texts() {
    let mut texts: Vec<String> = Vec::new();
    for content in [&b""[..], b"\0", b"\0\0", b"\0\0\0", b"\x01", b"a", b"aa", b"ab", b"b"] {
        let text = shown(&encode_asset("a.png", MediaKind::Image, &content.to_vec()));
        assert!(!texts.contains(&text));
        texts.push(text);
    }
}
