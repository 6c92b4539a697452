use comfyui_openai_api::codec::parse_text;
use comfyui_openai_api::error::ProxyError;
use comfyui_openai_api::headers::{Header, HeaderSet};
use comfyui_openai_api::job::{Job, JobAction, JobEvent, JobPhase};
use comfyui_openai_api::json::Json;

fn header(name: &str, value: &str) -> Header {
    Header { name: name.to_string(), value: value.as_bytes().to_vec() }
}

fn lines(set: &HeaderSet) -> Vec<String> {
    let mut lines: Vec<String> = set
        .headers()
        .iter()
        .map(|h| format!("{}: {}", h.name, String::from_utf8_lossy(&h.value)))
        .collect();
    lines.sort();
    lines
}

fn shown(action: &JobAction) -> String {
    match action {
        JobAction::AwaitCompletion { prompt_id, timeout_secs } => {
            format!("await {} for {}s", prompt_id, timeout_secs)
        }
        JobAction::Fetch { url, headers, limit_secs } => {
            format!("fetch {} {:?} within {:?}", url, lines(headers), limit_secs)
        }
        JobAction::Pause { millis } => format!("pause {}ms", millis),
        JobAction::ReadClock => "clock".to_string(),
        JobAction::Respond { status, headers, body } => {
            format!("respond {} {:?} {}", status, lines(headers), String::from_utf8_lossy(body))
        }
        JobAction::Fail { error } => format!("fail {:?}", error),
    }
}

fn client_headers() -> Vec<Header> {
    vec![header("x", "y"), header("authorization", "Bearer t")]
}

fn reply_headers() -> Vec<Header> {
    vec![header("content-length", "1"), header("server", "s"), header("authorization", "wrong")]
}

fn image_job(use_ws: bool, has_manager: bool) -> Job {
    Job::handle_regular_response(
        "h:1".to_string(),
        &client_headers(),
        201,
        reply_headers(),
        use_ws,
        has_manager,
    )
}

fn video_job(use_ws: bool, has_manager: bool) -> Job {
    Job::handle_video_response(
        "h:1".to_string(),
        &client_headers(),
        201,
        reply_headers(),
        use_ws,
        has_manager,
    )
}

fn stepped(job: Job, event: JobEvent, expected: &str) -> Job {
    let (job, action) = job.step(event);
    assert_eq!(shown(&action), expected);
    job
}

fn reply(body: &str) -> JobEvent {
    JobEvent::Reply { body: body.as_bytes().to_vec() }
}

fn queue(body: &str) -> JobEvent {
    JobEvent::Queue { status: 200, body: body.as_bytes().to_vec() }
}

fn history(body: &str) -> JobEvent {
    JobEvent::History { status: 200, body: body.as_bytes().to_vec() }
}

fn asset(content: &str) -> JobEvent {
    JobEvent::Asset { status: 200, content: content.as_bytes().to_vec() }
}

const HISTORY_FETCH: &str =
    r#"fetch http://h:1/history/id-1 ["authorization: Bearer t"] within Some(5)"#;

const TWO_IMAGES: &str = r#"{"id-1":{"outputs":{"9":{"images":[
    {"filename":"a.png","subfolder":"","type":"output"},
    {"filename":"b.png","subfolder":"s","type":"output"}]}}}}"#;

#[test]
fn an_image_job_runs_from_reply_to_answer() {
    let job = image_job(true, true);
    assert_eq!(job.phase(), JobPhase::Reply);
    let job = stepped(job, reply(r#"{"prompt_id":"id-1"}"#), "await id-1 for 600s");
    assert_eq!(job.phase(), JobPhase::Completion);
    let job = stepped(job, JobEvent::CompletionOver, HISTORY_FETCH);
    assert_eq!(job.phase(), JobPhase::History);
    let job = stepped(
        job,
        history(TWO_IMAGES),
        r#"fetch http://h:1/view?filename=a.png&subfolder=&type=output ["authorization: Bearer t"] within Some(5)"#,
    );
    assert_eq!(job.phase(), JobPhase::Asset);
    let job = stepped(
        job,
        asset("foo"),
        r#"fetch http://h:1/view?filename=b.png&subfolder=s&type=output ["authorization: Bearer t"] within Some(5)"#,
    );
    let job = stepped(job, asset("hello"), "clock");
    assert_eq!(job.phase(), JobPhase::Clock);
    let body = r#"{"created":1700000000,"data":[{"b64_json":"Zm9v"},{"b64_json":"aGVsbG8="}]}"#;
    let job = stepped(
        job,
        JobEvent::Clock { secs: 1700000000 },
        &format!(
            r#"respond 201 ["authorization: wrong", "content-length: {}", "server: s"] {}"#,
            body.len(),
            body
        ),
    );
    assert_eq!(job.phase(), JobPhase::Over);
}

#[test]
fn a_video_job_runs_from_reply_to_answer() {
    let job = stepped(
        video_job(false, false),
        reply(r#"{"prompt_id":"id-1"}"#),
        r#"fetch http://h:1/queue ["authorization: Bearer t"] within Some(5)"#,
    );
    let job = stepped(job, queue(r#"{"queue_running":[[0,"id-1"]]}"#), "pause 2000ms");
    assert_eq!(job.phase(), JobPhase::Pause);
    let job = stepped(
        job,
        JobEvent::Paused,
        r#"fetch http://h:1/queue ["authorization: Bearer t"] within Some(5)"#,
    );
    assert_eq!(job.phase(), JobPhase::Queue);
    let job = stepped(
        job,
        queue(r#"{"queue_running":[[0,"id-2"]],"queue_pending":[]}"#),
        r#"fetch http://h:1/history/id-1 ["authorization: Bearer t"] within None"#,
    );
    let job = stepped(
        job,
        history(r#"{"id-1":{"outputs":{"9":{"gifs":[{"filename":"v.webm"}]}}}}"#),
        r#"fetch http://h:1/view?filename=v.webm&subfolder=&type=output ["authorization: Bearer t"] within None"#,
    );
    let job = stepped(job, asset("f"), "clock");
    let body = r#"{"created":5,"data":[{"b64_json":"Zg==","mime_type":"video/webm"}]}"#;
    stepped(
        job,
        JobEvent::Clock { secs: 5 },
        &format!(
            r#"respond 201 ["authorization: wrong", "content-length: {}", "server: s"] {}"#,
            body.len(),
            body
        ),
    );
}

#[test]
fn a_job_without_files_is_answered_with_none() {
    let job = stepped(image_job(true, false), reply(r#"{"prompt_id":"id-1"}"#), HISTORY_FETCH);
    let job = stepped(job, history(r#"{"id-1":{}}"#), "clock");
    stepped(
        job,
        JobEvent::Clock { secs: 0 },
        r#"respond 201 ["authorization: wrong", "content-length: 23", "server: s"] {"created":0,"data":[]}"#,
    );
}

#[test]
fn a_client_without_authorization_sends_none() {
    let job = Job::handle_regular_response(
        "h:1".to_string(),
        &Vec::new(),
        200,
        vec![header("authorization", "wrong")],
        false,
        true,
    );
    stepped(job, reply(r#"{"prompt_id":"id-1"}"#), "fetch http://h:1/queue [] within Some(5)");
}

#[test]
fn a_reply_without_an_identifier_fails() {
    for body in ["{}", r#"{"prompt_id":5}"#, "[]", r#"{"error":"x"}"#] {
        for job in [image_job(true, true), video_job(false, false)] {
            let job = stepped(job, reply(body), r#"fail Upstream("No prompt_id received.")"#);
            assert_eq!(job.phase(), JobPhase::Over);
        }
    }
}

#[test]
fn a_reply_that_is_no_json_fails() {
    stepped(
        image_job(true, true),
        reply(""),
        r#"fail Json("Failed to parse JSON: EOF while parsing a value at line 1 column 0")"#,
    );
}

#[test]
fn bodies_that_cannot_be_read_fail_by_what_was_read() {
    let unreadable = || JobEvent::Unreadable { reason: "cut off".to_string() };
    stepped(
        image_job(true, true),
        unreadable(),
        r#"fail Upstream("Failed to read response body: cut off")"#,
    );
    let (job, _) = image_job(false, true).step(reply(r#"{"prompt_id":"id-1"}"#));
    stepped(job, unreadable(), r#"fail Upstream("Failed to read queue response body: cut off")"#);
    let (job, _) = image_job(true, false).step(reply(r#"{"prompt_id":"id-1"}"#));
    stepped(job, unreadable(), r#"fail Upstream("Failed to read history response body: cut off")"#);
}

#[test]
fn a_queue_that_is_no_json_ends_the_job() {
    let (job, _) = image_job(false, true).step(reply(r#"{"prompt_id":"id-1"}"#));
    stepped(
        job,
        queue("{"),
        r#"fail Json("Failed to parse queue JSON: EOF while parsing an object at line 1 column 1")"#,
    );
}

#[test]
fn a_history_that_is_no_json_ends_the_job() {
    let (job, _) = image_job(true, false).step(reply(r#"{"prompt_id":"id-1"}"#));
    stepped(
        job,
        history("{"),
        r#"fail Json("Failed to parse history JSON: EOF while parsing an object at line 1 column 1")"#,
    );
}

#[test]
fn an_image_job_that_is_not_in_the_history_fails() {
    let (job, _) = image_job(true, false).step(reply(r#"{"prompt_id":"id-1"}"#));
    stepped(job, history("{}"), r#"fail Upstream("No prompt_id history found.")"#);
    let (job, _) = video_job(true, false).step(reply(r#"{"prompt_id":"id-1"}"#));
    stepped(job, history("{}"), "clock");
}

#[test]
fn what_cannot_be_fetched_ends_the_job_for_that_reason() {
    let failed = || JobEvent::Failed { error: ProxyError::Upstream("down".to_string()) };
    let (job, _) = image_job(false, false).step(reply(r#"{"prompt_id":"id-1"}"#));
    stepped(job, failed(), r#"fail Upstream("down")"#);
    let (job, _) = image_job(true, false).step(reply(r#"{"prompt_id":"id-1"}"#));
    let (job, _) = job.step(history(TWO_IMAGES));
    stepped(job, failed(), r#"fail Upstream("down")"#);
}

#[test]
fn without_a_time_of_day_the_job_fails() {
    let (job, _) = image_job(true, false).step(reply(r#"{"prompt_id":"id-1"}"#));
    let (job, _) = job.step(history(r#"{"id-1":{}}"#));
    stepped(job, JobEvent::ClockFailed, r#"fail Internal("Failed to get current time")"#);
}

#[test]
fn outcomes_can_be_taken_one_by_one() {
    let parsed = |text: &str| -> Result<Json, String> { parse_text(text) };
    let (job, action) = image_job(false, false).take_reply(parsed(r#"{"prompt_id":"id-1"}"#));
    assert_eq!(
        shown(&action),
        r#"fetch http://h:1/queue ["authorization: Bearer t"] within Some(5)"#
    );
    let (job, action) = job.take_queue(Ok(true));
    assert_eq!(shown(&action), HISTORY_FETCH);
    let (job, action) = job.take_history(200, parsed(r#"{"id-1":{"outputs":{"1":{"images":[{"filename":"a","type":"output"}]}}}}"#));
    assert_eq!(
        shown(&action),
        r#"fetch http://h:1/view?filename=a&subfolder=&type=output ["authorization: Bearer t"] within Some(5)"#
    );
    let (job, action) = job.take_asset(&b"foo".to_vec());
    assert_eq!(shown(&action), "clock");
    let (_, action) = job.take_answer(Ok(b"body".to_vec()));
    assert_eq!(
        shown(&action),
        r#"respond 201 ["authorization: wrong", "content-length: 4", "server: s"] body"#
    );
    let (_, action) = image_job(true, true).take_reply(Err("bad".to_string()));
    assert_eq!(shown(&action), r#"fail Json("Failed to parse JSON: bad")"#);
    let (_, action) = image_job(true, true).take_answer(Err("bad".to_string()));
    assert_eq!(shown(&action), r#"fail Json("Failed to serialize JSON: bad")"#);
}

#[test]
fn a_refused_fetch_ends_the_job() {
    let body = || br#"{"error":"x"}"#.to_vec();
    let (job, _) = image_job(false, false).step(reply(r#"{"prompt_id":"id-1"}"#));
    let job = stepped(
        job,
        JobEvent::Queue { status: 500, body: body() },
        r#"fail Upstream("Failed to look up queue: status 500")"#,
    );
    assert_eq!(job.phase(), JobPhase::Over);
    for (body, expected) in [
        (TWO_IMAGES, r#"fail Upstream("Failed to look up history: status 404")"#),
        (r#"{"id-1":{}}"#, r#"fail Upstream("Failed to look up history: status 404")"#),
        ("{}", r#"fail Upstream("No prompt_id history found.")"#),
        (
            "",
            r#"fail Json("Failed to parse history JSON: EOF while parsing a value at line 1 column 0")"#,
        ),
    ] {
        let (job, _) = image_job(true, false).step(reply(r#"{"prompt_id":"id-1"}"#));
        let event = JobEvent::History { status: 404, body: body.as_bytes().to_vec() };
        stepped(job, event, expected);
    }
    let (job, _) = image_job(true, false).step(reply(r#"{"prompt_id":"id-1"}"#));
    let (job, _) = job.step(history(TWO_IMAGES));
    stepped(
        job,
        JobEvent::Asset { status: 404, content: b"not found".to_vec() },
        r#"fail Upstream("Failed to retrieve image: status 404")"#,
    );
    let (job, _) = video_job(true, false).step(reply(r#"{"prompt_id":"id-1"}"#));
    let (job, _) = job.step(history(TWO_IMAGES));
    stepped(
        job,
        JobEvent::Asset { status: 300, content: Vec::new() },
        r#"fail Upstream("Failed to retrieve video: status 300")"#,
    );
}

#[test]
fn the_history_of_a_video_job_counts_whatever_its_status() {
    for status in [200, 404, 500] {
        let (job, _) = video_job(true, false).step(reply(r#"{"prompt_id":"id-1"}"#));
        stepped(job, JobEvent::History { status, body: b"{}".to_vec() }, "clock");
        let (job, _) = video_job(true, false).step(reply(r#"{"prompt_id":"id-1"}"#));
        stepped(
            job,
            JobEvent::History { status, body: TWO_IMAGES.as_bytes().to_vec() },
            r#"fetch http://h:1/view?filename=a.png&subfolder=&type=output ["authorization: Bearer t"] within None"#,
        );
    }
}
