//! What becomes of a job with everything that can happen to it.
use crate::assets::{entry_of, listed_files, view_pairs, FileView, MediaKind};
use crate::codec::{parsed_bytes, rendered};
use crate::encoding::form_encoded;
use crate::error::{ErrorView, ProxyError};
use crate::headers::{answer_headers, first_value, HeaderSet};
use crate::job::{awaited, new_job, JobAction, JobActionView, JobEvent, JobPhase, JobView};
use crate::json::JsonTree;
use crate::laws::headers::carry_the_authorization_alone;
use crate::laws::queue::stands_at;
use crate::queue::finished_view;
use crate::text::decimal;
use vstd::prelude::*;

verus! {

/// The action fetches what is at that address, with the client's authorization alone, within that
/// many seconds if that is limited.
pub open spec fn fetches(
    action: JobActionView,
    url: Seq<char>,
    authorization: Option<Seq<u8>>,
    limit: Option<u64>,
) -> bool {
    action matches JobActionView::Fetch { url: address, headers, limit_secs } && address == url
        && carry_the_authorization_alone(headers, authorization) && limit_secs == limit
}

/// How long the backend may take for the history and the files: five seconds for images, and as
/// long as it takes for videos.
pub open spec fn limit_of(kind: MediaKind) -> Option<u64> {
    match kind {
        MediaKind::Image => Some(5),
        MediaKind::Video => None,
    }
}

/// The job looks at the queue next.
pub open spec fn looks_at_the_queue(job: JobView, next: JobView, action: JobActionView) -> bool {
    &&& next.phase == JobPhase::Queue
    &&& fetches(action, "http://"@ + job.base + "/queue"@, job.authorization, Some(5))
}

/// The job looks at its history next.
pub open spec fn looks_at_its_history(
    job: JobView,
    prompt_id: Seq<char>,
    next: JobView,
    action: JobActionView,
) -> bool {
    &&& next.phase == JobPhase::History
    &&& fetches(
        action,
        "http://"@ + job.base + "/history/"@ + prompt_id,
        job.authorization,
        limit_of(job.kind),
    )
}

/// The job fetches the first file that it has no entry for next, or the time where there is none.
pub open spec fn looks_for_the_next_file(
    job: JobView,
    next: JobView,
    action: JobActionView,
) -> bool {
    if next.data.len() < next.files.len() {
        &&& next.phase == JobPhase::Asset
        &&& fetches(
            action,
            "http://"@ + job.base + "/view?"@ + form_encoded(
                view_pairs(next.files[next.data.len() as int]),
            ),
            job.authorization,
            limit_of(job.kind),
        )
    } else {
        &&& next.phase == JobPhase::Clock
        &&& action == JobActionView::ReadClock
    }
}

/// The job is over, and the client is told this error.
pub open spec fn ends_with(next: JobView, action: JobActionView, error: ErrorView) -> bool {
    next.phase == JobPhase::Over && action == (JobActionView::Fail { error })
}

/// A submission that was accepted is followed by its identifier, whatever else the reply holds:
/// by the WebSocket for ten minutes where there is to be one and there is, by its history where
/// there is none, and by the queue where there is not to be one.
pub proof fn an_accepted_submission_is_followed(
    job: JobView,
    body: Vec<u8>,
    reply: JsonTree,
    prompt_id: Seq<char>,
)
    requires
        parsed_bytes(body@) == Ok::<JsonTree, Seq<char>>(reply),
        reply.text_at("prompt_id"@) == Some(prompt_id),
    ensures
        ({
            let (next, action) = job.after(JobEvent::Reply { body });
            &&& next.prompt_id == Some(prompt_id)
            &&& job.use_ws && job.has_manager ==> next.phase == JobPhase::Completion && action == (
            JobActionView::AwaitCompletion { prompt_id, timeout_secs: 600 })
            &&& job.use_ws && !job.has_manager ==> looks_at_its_history(
                job,
                prompt_id,
                next,
                action,
            )
            &&& !job.use_ws ==> looks_at_the_queue(job, next, action)
        }),
{
}

/// A submission whose reply is no JSON, or has no identifier, ends the job.
pub proof fn a_refused_submission_ends_the_job(job: JobView, body: Vec<u8>)
    ensures
        ({
            let (next, action) = job.after(JobEvent::Reply { body });
            &&& parsed_bytes(body@) matches Err(message) ==> ends_with(
                next,
                action,
                ErrorView::Json("Failed to parse JSON: "@ + message),
            )
            &&& parsed_bytes(body@) matches Ok(reply) ==> reply.text_at("prompt_id"@) is None
                ==> ends_with(next, action, ErrorView::Upstream("No prompt_id received."@))
        }),
{
}

/// Once the wait for its completion is over, a job looks at its history.
pub proof fn a_completed_job_looks_at_its_history(job: JobView, prompt_id: Seq<char>)
    requires
        job.prompt_id == Some(prompt_id),
    ensures
        ({
            let (next, action) = job.after(JobEvent::CompletionOver);
            looks_at_its_history(job, prompt_id, next, action)
        }),
{
}

/// A job that stands anywhere in a queue waits for two seconds, and then looks at the queue again.
pub proof fn a_job_in_a_queue_waits(
    job: JobView,
    prompt_id: Seq<char>,
    status: u16,
    body: Vec<u8>,
    queues: JsonTree,
    queue: Seq<char>,
    place: int,
)
    requires
        job.prompt_id == Some(prompt_id),
        200 <= status < 300,
        parsed_bytes(body@) == Ok::<JsonTree, Seq<char>>(queues),
        queue == "queue_running"@ || queue == "queue_pending"@,
        stands_at(queues, queue, place, prompt_id),
    ensures
        ({
            let (paused, pause) = job.after(JobEvent::Queue { status, body });
            let (next, action) = paused.after(JobEvent::Paused);
            &&& paused.phase == JobPhase::Pause
            &&& pause == (JobActionView::Pause { millis: 2000 })
            &&& looks_at_the_queue(job, next, action)
        }),
{
    crate::laws::queue::a_job_in_a_queue_is_not_finished(queues, queue, place, prompt_id, status);
}

/// A job that stands nowhere in the queues looks at its history.
pub proof fn a_job_in_no_queue_looks_at_its_history(
    job: JobView,
    prompt_id: Seq<char>,
    status: u16,
    body: Vec<u8>,
    queues: JsonTree,
)
    requires
        job.prompt_id == Some(prompt_id),
        200 <= status < 300,
        parsed_bytes(body@) == Ok::<JsonTree, Seq<char>>(queues),
        forall|place: int| !#[trigger] stands_at(queues, "queue_running"@, place, prompt_id),
        forall|place: int| !#[trigger] stands_at(queues, "queue_pending"@, place, prompt_id),
    ensures
        ({
            let (next, action) = job.after(JobEvent::Queue { status, body });
            looks_at_its_history(job, prompt_id, next, action)
        }),
{
    crate::laws::queue::a_job_in_no_queue_is_finished(queues, prompt_id, status);
}

/// A queue that is no JSON, or that was not found, ends the job.
pub proof fn a_queue_that_tells_nothing_ends_the_job(
    job: JobView,
    prompt_id: Seq<char>,
    status: u16,
    body: Vec<u8>,
)
    requires
        job.prompt_id == Some(prompt_id),
    ensures
        ({
            let (next, action) = job.after(JobEvent::Queue { status, body });
            &&& parsed_bytes(body@) matches Err(message) ==> ends_with(
                next,
                action,
                ErrorView::Json("Failed to parse queue JSON: "@ + message),
            )
            &&& parsed_bytes(body@) is Ok && !(200 <= status < 300) ==> ends_with(
                next,
                action,
                ErrorView::Upstream(
                    "Failed to look up queue"@ + ": status "@ + decimal(status as nat),
                ),
            )
        }),
{
}

/// A job whose history lists its files fetches them from the first one on, without an entry for
/// any of them yet. Of an image job the lookup must have succeeded.
pub proof fn listed_files_are_fetched(
    job: JobView,
    prompt_id: Seq<char>,
    status: u16,
    body: Vec<u8>,
    history: JsonTree,
    files: Seq<FileView>,
)
    requires
        job.prompt_id == Some(prompt_id),
        parsed_bytes(body@) == Ok::<JsonTree, Seq<char>>(history),
        listed_files(history, prompt_id, job.kind) == Ok::<Seq<FileView>, ErrorView>(files),
    ensures
        ({
            let (next, action) = job.after(JobEvent::History { status, body });
            let counts = job.kind == MediaKind::Video || 200 <= status < 300;
            &&& counts ==> next.files == files && next.data.len() == 0 && looks_for_the_next_file(
                job,
                next,
                action,
            )
            &&& !counts ==> ends_with(
                next,
                action,
                ErrorView::Upstream(
                    "Failed to look up history"@ + ": status "@ + decimal(status as nat),
                ),
            )
        }),
{
}

/// A history that is no JSON, or that lists no files for a reason, ends the job for that reason.
pub proof fn a_history_that_lists_nothing_ends_the_job(
    job: JobView,
    prompt_id: Seq<char>,
    status: u16,
    body: Vec<u8>,
)
    requires
        job.prompt_id == Some(prompt_id),
    ensures
        ({
            let (next, action) = job.after(JobEvent::History { status, body });
            &&& parsed_bytes(body@) matches Err(message) ==> ends_with(
                next,
                action,
                ErrorView::Json("Failed to parse history JSON: "@ + message),
            )
            &&& parsed_bytes(body@) matches Ok(history) ==> (listed_files(
                history,
                prompt_id,
                job.kind,
            ) matches Err(error) ==> ends_with(next, action, error))
        }),
{
}

/// A file that was fetched gets its entry behind those of the files before it, and the next file
/// is fetched; one that was refused ends the job.
pub proof fn a_fetched_file_gets_its_entry(job: JobView, status: u16, content: Vec<u8>)
    requires
        job.data.len() < job.files.len(),
    ensures
        ({
            let (next, action) = job.after(JobEvent::Asset { status, content });
            let what = match job.kind {
                MediaKind::Image => "image"@,
                MediaKind::Video => "video"@,
            };
            &&& 200 <= status < 300 ==> next.files == job.files && next.data == job.data.push(
                entry_of(job.files[job.data.len() as int].filename, job.kind, content@),
            ) && looks_for_the_next_file(job, next, action)
            &&& !(200 <= status < 300) ==> ends_with(
                next,
                action,
                ErrorView::Upstream(
                    "Failed to retrieve "@ + what + ": status "@ + decimal(status as nat),
                ),
            )
        }),
{
}

/// The time completes the answer: the entries that the job has and that time, written out as JSON,
/// under the status and the headers of the submission.
pub proof fn the_time_completes_the_answer(job: JobView, secs: u64)
    ensures
        ({
            let (next, action) = job.after(JobEvent::Clock { secs });
            let body = rendered(
                JsonTree::Object(
                    seq![
                        ("created"@, JsonTree::Integer(secs as i64)),
                        ("data"@, JsonTree::Array(job.data)),
                    ],
                ),
            );
            &&& next.phase == JobPhase::Over
            &&& action == (JobActionView::Respond {
                status: job.reply_status,
                headers: answer_headers(job.reply_headers, body.len()),
                body,
            })
        }),
{
}

/// What cannot be read, fetched or told ends the job with what went wrong.
pub proof fn what_goes_wrong_ends_the_job(job: JobView, reason: String, error: ProxyError)
    ensures
        ({
            let (next, action) = job.after(JobEvent::Unreadable { reason });
            &&& job.phase == JobPhase::Reply ==> ends_with(
                next,
                action,
                ErrorView::Upstream("Failed to read response body: "@ + reason@),
            )
            &&& job.phase == JobPhase::Queue ==> ends_with(
                next,
                action,
                ErrorView::Upstream("Failed to read queue response body: "@ + reason@),
            )
            &&& job.phase == JobPhase::History ==> ends_with(
                next,
                action,
                ErrorView::Upstream("Failed to read history response body: "@ + reason@),
            )
        }),
        ({
            let (next, action) = job.after(JobEvent::ClockFailed);
            ends_with(next, action, ErrorView::Internal("Failed to get current time"@))
        }),
        ({
            let (next, action) = job.after(JobEvent::Failed { error });
            ends_with(next, action, error@)
        }),
{
}

/// Whatever happens, a job keeps what it was started with, and only the reply to its submission
/// says what its identifier is.
pub proof fn a_job_keeps_what_it_was_started_with(job: JobView, event: JobEvent)
    ensures
        ({
            let next = job.after(event).0;
            &&& next.kind == job.kind
            &&& next.base == job.base
            &&& next.authorization == job.authorization
            &&& next.reply_status == job.reply_status
            &&& next.reply_headers == job.reply_headers
            &&& next.use_ws == job.use_ws
            &&& next.has_manager == job.has_manager
            &&& !(event is Reply) ==> next.prompt_id == job.prompt_id
            &&& !(event is History) ==> next.files == job.files
            &&& !(event is History || event is Asset || event is Clock) ==> next.data == job.data
        }),
{
}

/// A job starts by waiting for the reply to its submission, with the first authorization of the
/// client and without anything of its own.
pub proof fn a_job_starts_with_nothing_of_its_own(
    kind: MediaKind,
    base: Seq<char>,
    headers: Seq<(Seq<char>, Seq<u8>)>,
    status: u16,
    reply_headers: Seq<(Seq<char>, Seq<u8>)>,
    use_ws: bool,
    has_manager: bool,
)
    ensures
        ({
            let job = new_job(kind, base, headers, status, reply_headers, use_ws, has_manager);
            &&& job.kind == kind
            &&& job.base == base
            &&& job.authorization == first_value(headers, "authorization"@)
            &&& job.reply_status == status
            &&& job.reply_headers == reply_headers
            &&& job.use_ws == use_ws
            &&& job.has_manager == has_manager
            &&& job.phase == JobPhase::Reply
            &&& job.prompt_id is None
            &&& job.files.len() == 0
            &&& job.data.len() == 0
        }),
{
}

/// Every action asks for something that can then happen.
pub proof fn what_was_asked_for_can_happen(job: JobView, event: JobEvent, answer: JobEvent)
    requires
        job.data.len() < job.files.len() || !(event is Asset),
        match job.after(event).1 {
            JobActionView::AwaitCompletion { .. } => answer is CompletionOver,
            JobActionView::Fetch { .. } => answer is Failed,
            JobActionView::Pause { .. } => answer is Paused,
            JobActionView::ReadClock => answer is Clock || answer is ClockFailed,
            _ => false,
        },
    ensures
        awaited(job.after(event).0.phase, answer),
{
}

/// Actions and outcomes are seen as what they hold.
pub proof fn actions_are_seen_as_they_are(
    text: String,
    headers: HeaderSet,
    body: Vec<u8>,
    error: ProxyError,
    number: u64,
    limit: Option<u64>,
    status: u16,
    finished: bool,
)
    ensures
        (JobAction::AwaitCompletion { prompt_id: text, timeout_secs: number })@ == (
        JobActionView::AwaitCompletion { prompt_id: text@, timeout_secs: number }),
        (JobAction::Fetch { url: text, headers, limit_secs: limit })@ == (JobActionView::Fetch {
            url: text@,
            headers: headers@,
            limit_secs: limit,
        }),
        (JobAction::Pause { millis: number })@ == (JobActionView::Pause { millis: number }),
        JobAction::ReadClock@ == JobActionView::ReadClock,
        (JobAction::Respond { status, headers, body })@ == (JobActionView::Respond {
            status,
            headers: headers@,
            body: body@,
        }),
        (JobAction::Fail { error })@ == (JobActionView::Fail { error: error@ }),
        finished_view(Ok(finished)) == Ok::<bool, ErrorView>(finished),
        finished_view(Err(error)) == Err::<bool, ErrorView>(error@),
{
}

} // verus!
