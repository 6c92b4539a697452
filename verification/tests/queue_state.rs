use comfyui_openai_api::codec::parse_text;
use comfyui_openai_api::error::ProxyError;
use comfyui_openai_api::queue::{check_queue, has_left};

const QUEUES: &str = r#"{
    "queue_running": [[0, "running-1", {}], [1, "running-2"]],
    "queue_pending": [[2, "pending-1", {}], [3], "pending-2", [4, 5]]
}"#;

fn finished(prompt_id: &str) -> Result<bool, ProxyError> {
    check_queue(Some(prompt_id), 200, &QUEUES.as_bytes().to_vec())
}

#[test]
fn a_job_in_a_queue_is_not_finished() {
    for job in ["running-1", "running-2", "pending-1"] {
        assert_eq!(finished(job), Ok(false));
    }
}

#[test]
fn a_job_in_no_queue_is_finished() {
    for job in ["other", "running", "pending-2", "", "5"] {
        assert_eq!(finished(job), Ok(true));
    }
}

#[test]
fn queues_that_are_missing_are_empty() {
    for queues in ["{}", "[]", r#"{"queue_running": {}, "queue_pending": null}"#] {
        assert_eq!(check_queue(Some("a"), 200, &queues.as_bytes().to_vec()), Ok(true));
    }
}

#[test]
fn without_an_identifier_there_is_nothing_to_look_for() {
    assert_eq!(
        check_queue(None, 500, &b"{}".to_vec()),
        Err(ProxyError::Upstream("No prompt_id received.".to_string()))
    );
}

#[test]
fn a_queue_that_is_no_json_is_an_error() {
    assert_eq!(
        check_queue(Some("a"), 299, &Vec::new()),
        Err(ProxyError::Json(
            "Failed to parse queue JSON: EOF while parsing a value at line 1 column 0".to_string()
        ))
    );
}

#[test]
fn parsed_queues_are_looked_through() {
    let queues = parse_text(QUEUES).unwrap();
    assert!(!has_left(&queues, "pending-1"));
    assert!(has_left(&queues, "done"));
}

#[test]
fn a_refused_lookup_is_an_error() {
    for status in [500, 404, 300, 199, 0] {
        for body in [r#"{"error":"x"}"#, QUEUES] {
            assert_eq!(
                check_queue(Some("a"), status, &body.as_bytes().to_vec()),
                Err(ProxyError::Upstream(format!("Failed to look up queue: status {}", status)))
            );
        }
    }
    assert_eq!(
        check_queue(Some("a"), 500, &Vec::new()),
        Err(ProxyError::Json(
            "Failed to parse queue JSON: EOF while parsing a value at line 1 column 0".to_string()
        ))
    );
}
