//! The backend's queue: whether a job is still in it.
use crate::codec::{parse_bytes, parsed_bytes};
use crate::error::{is_success, refusal, refused, succeeded, ErrorView, ProxyError};
use crate::json::{trees, Json, JsonTree};
use crate::text::same;
use vstd::prelude::*;

verus! {

/// One of the elements of a queue is the job's: its second item is the job's identifier.
pub open spec fn queued(queue: JsonTree, prompt_id: Seq<char>) -> bool {
    queue matches JsonTree::Array(elements) && exists|i: int|
        0 <= i < elements.len() && (#[trigger] elements[i]).item(1) == JsonTree::Text(prompt_id)
}

/// The job is neither running nor pending.
pub open spec fn left_queue(queues: JsonTree, prompt_id: Seq<char>) -> bool {
    !queued(queues.at("queue_running"@), prompt_id) && !queued(
        queues.at("queue_pending"@),
        prompt_id,
    )
}

/// Whether a job has left the queue, or why that cannot be told, from the status and the parsed
/// body of the backend's answer.
pub open spec fn queue_outcome(
    prompt_id: Option<Seq<char>>,
    status: u16,
    parsed: Result<JsonTree, Seq<char>>,
) -> Result<bool, ErrorView> {
    match (prompt_id, parsed) {
        (None, _) => Err(ErrorView::Upstream("No prompt_id received."@)),
        (Some(_), Err(message)) => Err(
            ErrorView::Json("Failed to parse queue JSON: "@ + message),
        ),
        (Some(prompt_id), Ok(queues)) => if is_success(status) {
            Ok(left_queue(queues, prompt_id))
        } else {
            Err(refusal("Failed to look up queue"@, status))
        },
    }
}

fn queue_has(queues: &Json, key: &str, prompt_id: &str) -> (found: bool)
    ensures
        found == queued(queues.tree().at(key@), prompt_id@),
{
    let elements = match queues.get(key) {
        Some(value) => value.as_array(),
        None => None,
    };
    let elements = match elements {
        Some(elements) => elements,
        None => return false,
    };
    let ghost all = trees(elements@);
    let mut i: usize = 0;
    while i < elements.len()
        invariant
            i <= elements.len(),
            all == trees(elements@),
            queues.tree().at(key@) == JsonTree::Array(all),
            forall|k: int|
                0 <= k < i ==> (#[trigger] all[k]).item(1) != JsonTree::Text(prompt_id@),
        decreases elements.len() - i,
    {
        let element = &elements[i];
        assert(all[i as int] == element.tree());
        let second = match element.as_array() {
            Some(items) => if items.len() > 1 {
                items[1].as_str()
            } else {
                None
            },
            None => None,
        };
        if let Some(text) = second {
            if same(text, prompt_id) {
                return true;
            }
        }
        i = i + 1;
    }
    false
}

/// Whether a job has left the queues that were parsed.
pub fn has_left(queues: &Json, prompt_id: &str) -> (left: bool)
    ensures
        left == left_queue(queues.tree(), prompt_id@),
{
    !queue_has(queues, "queue_running", prompt_id) && !queue_has(
        queues,
        "queue_pending",
        prompt_id,
    )
}

/// Whether a job is finished, or why that cannot be told, as a mathematical object.
pub open spec fn finished_view(finished: Result<bool, ProxyError>) -> Result<bool, ErrorView> {
    match finished {
        Ok(finished) => Ok(finished),
        Err(error) => Err(error@),
    }
}

/// Whether a job has left the backend's queue and so is finished, from the status and the body of
/// the backend's answer. An answer that is no success says nothing of the job.
pub fn check_queue(prompt_id: Option<&str>, status: u16, body: &Vec<u8>) -> (finished: Result<
    bool,
    ProxyError,
>)
    ensures
        finished_view(finished) == queue_outcome(
            match prompt_id {
                Some(prompt_id) => Some(prompt_id@),
                None => None,
            },
            status,
            parsed_bytes(body@),
        ),
{
    let prompt_id = match prompt_id {
        Some(prompt_id) => prompt_id,
        None => return Err(ProxyError::Upstream("No prompt_id received.".to_owned())),
    };
    match parse_bytes(body.as_slice()) {
        Ok(queues) => if succeeded(status) {
            Ok(has_left(&queues, prompt_id))
        } else {
            Err(refused("Failed to look up queue", status))
        },
        Err(message) => {
            let text = "Failed to parse queue JSON: ".to_owned().concat(message.as_str());
            Err(ProxyError::Json(text))
        },
    }
}

/// A lookup that the backend refused never counts a job as finished.
pub proof fn refused_lookup_finishes_nothing(
    prompt_id: Option<Seq<char>>,
    status: u16,
    parsed: Result<JsonTree, Seq<char>>,
)
    requires
        !is_success(status),
    ensures
        queue_outcome(prompt_id, status, parsed) is Err,
{
}

} // verus!
