use comfyui_openai_api::codec::{parse_bytes, parse_text, render};
use comfyui_openai_api::error::ProxyError;
use comfyui_openai_api::json::Json;
use comfyui_openai_api::nodes::SEED_BOUND;
use comfyui_openai_api::payload::{
    build_payload, count_nodes, create_json_payload, render_payload, take_rendering,
};
use comfyui_openai_api::workflows::{Folder, FolderEntry, FolderFile, Workflows, WorkflowsLoader};

const WORKFLOW: &str = r#"{
    "3": {"class_type": "KSampler", "inputs": {"seed": 1, "model": ["4", 0]}},
    "5": {"class_type": "EmptyLatentImage", "inputs": {"width": 512, "height": 512, "batch_size": 1}},
    "6": {"class_type": "CLIPTextEncode", "_meta": {"title": "Positive Prompt"}, "inputs": {"text": ""}},
    "7": {"class_type": "CLIPTextEncode", "_meta": {"title": "Negative Prompt"}, "inputs": {"text": "blurry"}},
    "9": {"class_type": "SaveImage", "inputs": {"images": ["8", 0]}}
}"#;

fn json(text: &str) -> Json {
    parse_text(text).unwrap()
}

fn workflows() -> Workflows {
    Workflows::new()
        .with("flux-dev", json(WORKFLOW))
        .with("list", json("[1,2]"))
        .with("untitled", json(r#"{"1":{"class_type":"CR Text","_meta":{},"inputs":{}}}"#))
        .with(
            "late-untitled",
            json(
                r#"{"1":{"class_type":"CR Text","_meta":{"title":"Positive Prompt"},"inputs":{}},
                    "2":{"class_type":"CR Text","_meta":{},"inputs":{}}}"#,
            ),
        )
        .with(
            "two-seeds",
            json(
                r#"{"1":{"class_type":"KSampler","inputs":{}},
                    "2":{"class_type":"easy seed","inputs":{}}}"#,
            ),
        )
}

fn created(body: &str) -> Result<Vec<u8>, ProxyError> {
    create_json_payload(body.as_bytes().to_vec(), &workflows(), "client-1")
}

fn text_of(payload: Result<Vec<u8>, ProxyError>) -> String {
    String::from_utf8(payload.unwrap()).unwrap()
}

#[test]
fn an_empty_body_stays_empty() {
    assert_eq!(created(""), Ok(Vec::new()));
}

#[test]
fn the_parameters_of_a_request_reach_their_nodes() {
    let payload = text_of(created(
        r#"{"model":"flux-dev","prompt":"a cat","negative_prompt":"dogs","seed":42,"size":"1024x768","n":2}"#,
    ));
    assert_eq!(
        payload,
        concat_text(&[
            r#"{"client_id":"client-1","prompt":{"#,
            r#""3":{"class_type":"KSampler","inputs":{"model":["4",0],"seed":42}},"#,
            r#""5":{"class_type":"EmptyLatentImage","inputs":{"batch_size":2,"height":768,"width":1024}},"#,
            r#""6":{"_meta":{"title":"Positive Prompt"},"class_type":"CLIPTextEncode","inputs":{"text":"a cat"}},"#,
            r#""7":{"_meta":{"title":"Negative Prompt"},"class_type":"CLIPTextEncode","inputs":{"text":"dogs"}},"#,
            r#""9":{"class_type":"SaveImage","inputs":{"images":["8",0]}}"#,
            r#"}}"#,
        ])
    );
}

fn concat_text(pieces: &[&str]) -> String {
    pieces.concat()
}

#[test]
fn a_requested_seed_makes_the_payload_certain() {
    let body = r#"{"model":"two-seeds","seed":7}"#;
    let first = text_of(created(body));
    assert_eq!(
        first,
        r#"{"client_id":"client-1","prompt":{"1":{"class_type":"KSampler","inputs":{"seed":7}},"2":{"class_type":"easy seed","inputs":{"seed":7}}}}"#
    );
    for _ in 0..20 {
        assert_eq!(text_of(created(body)), first);
    }
}

#[test]
fn random_seeds_stay_below_the_bound_and_vary() {
    let mut seen: Vec<i64> = Vec::new();
    for _ in 0..50 {
        let payload = parse_bytes(text_of(created(r#"{"model":"two-seeds"}"#)).as_bytes()).unwrap();
        for node in ["1", "2"] {
            let prompt = payload.get("prompt").unwrap();
            let seed = prompt.get(node).unwrap().get("inputs").unwrap().integer_at("seed").unwrap();
            assert!(0 <= seed && seed < SEED_BOUND as i64);
            seen.push(seed);
        }
    }
    assert!(seen.iter().any(|seed| *seed != seen[0]));
}

#[test]
fn each_node_takes_its_own_drawn_seed() {
    let request = json(r#"{"model":"two-seeds"}"#);
    let workflows = workflows();
    assert_eq!(count_nodes(&request, &workflows), 2);
    let payload = build_payload(&request, &workflows, "c", &vec![11, 22]).unwrap();
    assert_eq!(
        String::from_utf8(render(&payload).unwrap()).unwrap(),
        r#"{"client_id":"c","prompt":{"1":{"class_type":"KSampler","inputs":{"seed":11}},"2":{"class_type":"easy seed","inputs":{"seed":22}}}}"#
    );
    assert_eq!(
        render_payload(&request, &workflows, "c", &vec![11, 22]).unwrap(),
        render(&payload).unwrap()
    );
}

#[test]
fn the_workflow_itself_is_not_changed() {
    let workflows = workflows();
    let body = r#"{"model":"flux-dev","prompt":"a cat","seed":42}"#;
    let _ = create_json_payload(body.as_bytes().to_vec(), &workflows, "client-1");
    assert_eq!(workflows.get("flux-dev"), Some(&json(WORKFLOW)));
}

#[test]
fn what_is_no_json_makes_no_payload() {
    assert_eq!(
        created("{"),
        Err(ProxyError::Json(
            "Failed to parse JSON: EOF while parsing an object at line 1 column 1".to_string()
        ))
    );
}

#[test]
fn a_request_without_a_model_is_refused() {
    for body in ["{}", r#"{"model":5}"#, r#"{"model":null,"prompt":"p"}"#] {
        assert_eq!(
            created(body),
            Err(ProxyError::Json("Failed to get model name from JSON".to_string()))
        );
    }
}

#[test]
fn an_unknown_model_is_refused_by_its_name() {
    assert_eq!(
        created(r#"{"model":"flux","prompt":"p"}"#),
        Err(ProxyError::Json("Workflow 'flux' not found".to_string()))
    );
    assert_eq!(
        created(r#"{"model":"Flux-Dev","prompt":"p"}"#),
        Err(ProxyError::Json("Workflow 'Flux-Dev' not found".to_string()))
    );
}

#[test]
fn a_missing_prompt_is_refused() {
    for body in [r#"{"model":"flux-dev"}"#, r#"{"model":"flux-dev","prompt":["p"]}"#] {
        assert_eq!(
            created(body),
            Err(ProxyError::Json("Failed to get prompt from JSON".to_string()))
        );
    }
}

#[test]
fn a_workflow_without_prompt_nodes_needs_no_prompt() {
    assert!(created(r#"{"model":"two-seeds"}"#).is_ok());
}

#[test]
fn a_request_that_is_no_object_has_an_empty_prompt() {
    for body in ["[]", "1", "\"model\"", "null"] {
        assert_eq!(text_of(created(body)), r#"{"client_id":"","prompt":""}"#);
    }
}

#[test]
fn a_workflow_that_is_no_object_is_sent_as_it_is() {
    assert_eq!(
        text_of(created(r#"{"model":"list","prompt":"p"}"#)),
        r#"{"client_id":"client-1","prompt":[1,2]}"#
    );
}

#[test]
fn an_untitled_prompt_node_stays_as_it_is() {
    assert_eq!(
        text_of(created(r#"{"model":"untitled","prompt":"p"}"#)),
        r#"{"client_id":"client-1","prompt":{"1":{"_meta":{},"class_type":"CR Text","inputs":{}}}}"#
    );
    assert_eq!(
        text_of(created(r#"{"model":"late-untitled","prompt":"p"}"#)),
        concat_text(&[
            r#"{"client_id":"client-1","prompt":{"#,
            r#""1":{"_meta":{"title":"Positive Prompt"},"class_type":"CR Text","inputs":{"text":"p"}},"#,
            r#""2":{"_meta":{},"class_type":"CR Text","inputs":{}}}}"#,
        ])
    );
    assert_eq!(
        created(r#"{"model":"late-untitled"}"#),
        Err(ProxyError::Json("Failed to get prompt from JSON".to_string()))
    );
    assert!(created(r#"{"model":"untitled"}"#).is_ok());
}

#[test]
fn a_prompt_node_is_known_by_a_part_of_its_title() {
    let workflows = Workflows::new().with(
        "m",
        json(
            r#"{"1":{"class_type":"CLIPTextEncode","inputs":{"text":"x"},
                "_meta":{"title":"Main Positive Prompt"}}}"#,
        ),
    );
    let body = br#"{"model":"m","prompt":"cat"}"#.to_vec();
    let sent = parse_bytes(&create_json_payload(body, &workflows, "c").unwrap()).unwrap();
    let node = sent.get("prompt").unwrap().get("1").unwrap();
    assert_eq!(node.get("inputs").unwrap().text_at("text"), Some("cat"));
    let without = br#"{"model":"m"}"#.to_vec();
    assert_eq!(
        create_json_payload(without, &workflows, "c"),
        Err(ProxyError::Json("Failed to get prompt from JSON".to_string()))
    );
}

#[test]
fn a_rendering_that_fails_makes_no_payload() {
    assert_eq!(
        take_rendering(Err("reason".to_string())),
        Err(ProxyError::Json("Failed to serialize JSON: reason".to_string()))
    );
    assert_eq!(take_rendering(Ok(b"{}".to_vec())), Ok(b"{}".to_vec()));
}

#[test]
fn a_request_runs_the_file_that_it_names() {
    let folder = Folder::Listing(vec![FolderEntry::File(FolderFile {
        extension: Some("json".to_string()),
        stem: Some("hunyuan-video".to_string()),
        shown_path: "./workflows/hunyuan-video.json".to_string(),
        quoted_path: "\"./workflows/hunyuan-video.json\"".to_string(),
        content: Ok(r#"{"5":{"class_type":"EmptyHunyuanLatentVideo","inputs":{}}}"#.to_string()),
    })]);
    let workflows = WorkflowsLoader::load_from_folder("./workflows", folder).unwrap();
    let body = br#"{"model":"hunyuan-video","prompt":"snow","size":"1280x720","n":1}"#.to_vec();
    assert_eq!(
        text_of(create_json_payload(body, &workflows, "c")),
        r#"{"client_id":"c","prompt":{"5":{"class_type":"EmptyHunyuanLatentVideo","inputs":{"batch_size":1,"height":720,"width":1280}}}}"#
    );
    let body = br#"{"model":"flux-dev"}"#.to_vec();
    assert_eq!(
        create_json_payload(body, &workflows, "c"),
        Err(ProxyError::Json("Workflow 'flux-dev' not found".to_string()))
    );
}
