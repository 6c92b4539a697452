use comfyui_openai_api::codec::{parse_text, render};
use comfyui_openai_api::json::Json;
use comfyui_openai_api::nodes::{inject_node, parse_size, SEED_BOUND};

fn json(text: &str) -> Json {
    parse_text(text).unwrap()
}

fn injected(node: &str, request: &str, drawn: u64) -> String {
    let result = inject_node(&json(node), &json(request), drawn);
    String::from_utf8(render(&result).unwrap()).unwrap()
}

#[test]
fn sizes_are_width_by_height() {
    assert_eq!(parse_size("1024x768"), (1024, 768));
    assert_eq!(parse_size("1280x720"), (1280, 720));
    assert_eq!(parse_size("0x9223372036854775807"), (0, i64::MAX));
}

#[test]
fn sizes_that_are_no_numbers_fall_back() {
    assert_eq!(parse_size("auto"), (512, 1024));
    assert_eq!(parse_size(""), (512, 1024));
    assert_eq!(parse_size("640"), (640, 1024));
    assert_eq!(parse_size("640x"), (640, 512));
    assert_eq!(parse_size("x480"), (512, 480));
    assert_eq!(parse_size("640X480"), (512, 1024));
    assert_eq!(parse_size("640 x 480"), (512, 512));
    assert_eq!(parse_size("9223372036854775808x1"), (512, 1));
}

#[test]
fn sizes_may_have_signs_and_more_pieces() {
    assert_eq!(parse_size("+64x-64"), (64, -64));
    assert_eq!(parse_size("1x2x3"), (1, 2));
    assert_eq!(parse_size("-9223372036854775808x+"), (i64::MIN, 512));
    assert_eq!(parse_size("007x0"), (7, 0));
    assert_eq!(parse_size("٣x4"), (512, 4));
}

#[test]
fn seed_nodes_take_the_requested_seed() {
    for class in ["KSampler", "easy seed"] {
        let node = format!(r#"{{"class_type":"{}","inputs":{{"seed":1,"steps":20}}}}"#, class);
        assert_eq!(
            injected(&node, r#"{"seed":-5}"#, 77),
            format!(r#"{{"class_type":"{}","inputs":{{"seed":-5,"steps":20}}}}"#, class)
        );
    }
}

#[test]
fn seed_nodes_take_the_drawn_seed_without_a_requested_one() {
    let node = r#"{"class_type":"KSampler","inputs":{}}"#;
    for request in ["{}", r#"{"seed":"5"}"#, r#"{"seed":5.5}"#, r#"{"seed":null}"#, "[]"] {
        assert_eq!(
            injected(node, request, SEED_BOUND - 1),
            r#"{"class_type":"KSampler","inputs":{"seed":999999999}}"#
        );
    }
}

#[test]
fn size_nodes_take_size_and_number() {
    for class in [
        "EmptyLatentImage",
        "EmptySD3LatentImage",
        "EmptyFlux2LatentImage",
        "EmptyHunyuanLatentVideo",
        "VHS_VideoCombine",
    ] {
        let node = format!(r#"{{"class_type":"{}","inputs":{{"other":1,"width":8}}}}"#, class);
        assert_eq!(
            injected(&node, r#"{"size":"320x200","n":3}"#, 0),
            format!(
                r#"{{"class_type":"{}","inputs":{{"batch_size":3,"height":200,"other":1,"width":320}}}}"#,
                class
            )
        );
    }
}

#[test]
fn what_the_request_lacks_stays_as_the_workflow_has_it() {
    let node = r#"{"class_type":"EmptyLatentImage","inputs":{"batch_size":9,"height":8,"width":7}}"#;
    assert_eq!(injected(node, "{}", 0), node);
    assert_eq!(
        injected(node, r#"{"n":2}"#, 0),
        r#"{"class_type":"EmptyLatentImage","inputs":{"batch_size":2,"height":8,"width":7}}"#
    );
    assert_eq!(
        injected(node, r#"{"size":"1x2","n":2.0}"#, 0),
        r#"{"class_type":"EmptyLatentImage","inputs":{"batch_size":9,"height":2,"width":1}}"#
    );
}

#[test]
fn prompt_nodes_take_the_prompt_by_their_title() {
    for title in ["Positive Prompt", "CLIP文本编码", "🔤 CR Text", "提示词行"] {
        for (class, key) in [("CLIPTextEncode", "text"), ("CR Text", "text"), ("easy promptLine", "prompt")] {
            let node = format!(
                r#"{{"_meta":{{"title":"{}"}},"class_type":"{}","inputs":{{}}}}"#,
                title, class
            );
            assert_eq!(
                injected(&node, r#"{"prompt":"a cat","negative_prompt":"dogs"}"#, 0),
                format!(
                    r#"{{"_meta":{{"title":"{}"}},"class_type":"{}","inputs":{{"{}":"a cat"}}}}"#,
                    title, class, key
                )
            );
        }
    }
}

#[test]
fn negative_prompt_nodes_take_the_negative_prompt_as_text() {
    for title in ["Negative Prompt", "条件零化"] {
        for class in ["CLIPTextEncode", "CR Text", "easy promptLine"] {
            let node = format!(
                r#"{{"_meta":{{"title":"{}"}},"class_type":"{}","inputs":{{"text":"blurry"}}}}"#,
                title, class
            );
            assert_eq!(
                injected(&node, r#"{"negative_prompt":"dogs"}"#, 0),
                node.replace("blurry", "dogs")
            );
            assert_eq!(injected(&node, r#"{"prompt":"a cat"}"#, 0), node);
        }
    }
}

#[test]
fn other_nodes_stay_as_they_are() {
    let request = r#"{"seed":1,"size":"1x1","n":1,"prompt":"p","negative_prompt":"q"}"#;
    for node in [
        r#"{"class_type":"SaveImage","inputs":{"seed":0}}"#,
        r#"{"class_type":"KSamplerAdvanced","inputs":{}}"#,
        r#"{"class_type":"ksampler","inputs":{}}"#,
        r#"{"class_type":7,"inputs":{}}"#,
        r#"{"inputs":{"text":""}}"#,
        r#"{"_meta":{"title":"Some Text"},"class_type":"CLIPTextEncode","inputs":{}}"#,
        r#"{"_meta":{"title":"positive prompt"},"class_type":"CLIPTextEncode","inputs":{}}"#,
        r#"{"_meta":{"title":5},"class_type":"CLIPTextEncode","inputs":{}}"#,
        r#"{"_meta":"x","class_type":"CLIPTextEncode","inputs":{}}"#,
        r#"{"class_type":"CLIPTextEncode","inputs":{}}"#,
        "\"text\"",
        "[1,2]",
        "null",
    ] {
        assert_eq!(injected(node, request, 5), node);
    }
}

#[test]
fn a_node_without_inputs_gets_null_ones() {
    assert_eq!(
        injected(r#"{"class_type":"KSampler"}"#, r#"{"seed":1}"#, 0),
        r#"{"class_type":"KSampler","inputs":null}"#
    );
}

#[test]
fn inputs_that_are_no_object_stay() {
    for inputs in ["null", "[1]", "\"x\"", "4"] {
        let node = format!(r#"{{"class_type":"EmptyLatentImage","inputs":{}}}"#, inputs);
        assert_eq!(injected(&node, r#"{"size":"1x1"}"#, 0), node);
    }
}

#[test]
fn the_mark_may_stand_anywhere_in_a_title() {
    let node = |title: &str, text: &str| {
        format!(
            r#"{{"_meta":{{"title":"{}"}},"class_type":"CLIPTextEncode","inputs":{{"text":"{}"}}}}"#,
            title, text
        )
    };
    let request = r#"{"prompt":"a cat","negative_prompt":"dogs"}"#;
    for title in [
        "Main Positive Prompt",
        "Positive Prompt 2",
        "(CLIP文本编码)",
        "🔤 CR Text",
        "提示词行 1",
        "Negative Prompt, Positive Prompt",
    ] {
        assert_eq!(injected(&node(title, "x"), request, 0), node(title, "a cat"));
    }
    for title in ["My Negative Prompt", "条件零化 1"] {
        assert_eq!(injected(&node(title, "x"), request, 0), node(title, "dogs"));
    }
    for title in ["", "Positive", "PositivePrompt", "CLIP文本", "条件", "CR Text", "My 🔤 CR Text"] {
        assert_eq!(injected(&node(title, "x"), request, 0), node(title, "x"));
    }
}

#[test]
fn negative_marks_stand_alone_in_the_titles_of_other_classes() {
    for class in ["CR Text", "easy promptLine"] {
        let node = |title: &str, text: &str| {
            format!(
                r#"{{"_meta":{{"title":"{}"}},"class_type":"{}","inputs":{{"text":"{}"}}}}"#,
                title, class, text
            )
        };
        let request = r#"{"prompt":"a cat","negative_prompt":"dogs"}"#;
        for title in ["Negative Prompt", "条件零化"] {
            assert_eq!(injected(&node(title, "x"), request, 0), node(title, "dogs"));
        }
        for title in ["My Negative Prompt", "条件零化 1", "My 🔤 CR Text"] {
            assert_eq!(injected(&node(title, "x"), request, 0), node(title, "x"));
        }
    }
}

#[test]
fn injecting_again_changes_nothing() {
    let request = r#"{"prompt":"p","negative_prompt":"q","seed":3,"size":"1x2","n":4}"#;
    for node in [
        r#"{"class_type":"KSampler","inputs":{"z":1}}"#,
        r#"{"class_type":"KSampler"}"#,
        r#"{"class_type":"EmptyLatentImage","inputs":{}}"#,
        r#"{"_meta":{"title":"Positive Prompt"},"class_type":"easy promptLine","inputs":{}}"#,
        r#"{"_meta":{"title":"Negative Prompt"},"class_type":"CR Text","inputs":{"text":"a"}}"#,
    ] {
        let once = injected(node, request, 0);
        assert_ne!(once, node);
        assert_eq!(injected(&once, request, 0), once);
    }
}
