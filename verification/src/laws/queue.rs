//! When a job counts as finished by the queue.
use crate::error::ErrorView;
use crate::json::JsonTree;
use crate::queue::queue_outcome;
use crate::text::decimal;
use vstd::prelude::*;

verus! {

/// The job stands in that queue, at that place.
pub open spec fn stands_at(
    queues: JsonTree,
    queue: Seq<char>,
    place: int,
    prompt_id: Seq<char>,
) -> bool {
    queues.at(queue) matches JsonTree::Array(elements) && 0 <= place < elements.len() && (
    elements[place] matches JsonTree::Array(items) && items.len() > 1 && items[1]
        == JsonTree::Text(prompt_id))
}

/// A job that stands anywhere in one of the two queues is not finished.
pub proof fn a_job_in_a_queue_is_not_finished(
    queues: JsonTree,
    queue: Seq<char>,
    place: int,
    prompt_id: Seq<char>,
    status: u16,
)
    requires
        queue == "queue_running"@ || queue == "queue_pending"@,
        stands_at(queues, queue, place, prompt_id),
    ensures
        queue_outcome(Some(prompt_id), status, Ok(queues)) != Ok::<bool, ErrorView>(true),
        200 <= status < 300 ==> queue_outcome(Some(prompt_id), status, Ok(queues)) == Ok::<
            bool,
            ErrorView,
        >(false),
{
    let elements = queues.at(queue)->Array_0;
    assert(elements[place].item(1) == JsonTree::Text(prompt_id));
}

/// A job that stands nowhere in the two queues is finished, where the lookup succeeded.
pub proof fn a_job_in_no_queue_is_finished(queues: JsonTree, prompt_id: Seq<char>, status: u16)
    requires
        200 <= status < 300,
        forall|place: int| !#[trigger] stands_at(queues, "queue_running"@, place, prompt_id),
        forall|place: int| !#[trigger] stands_at(queues, "queue_pending"@, place, prompt_id),
    ensures
        queue_outcome(Some(prompt_id), status, Ok(queues)) == Ok::<bool, ErrorView>(true),
{
    if let JsonTree::Array(elements) = queues.at("queue_running"@) {
        assert forall|i: int| 0 <= i < elements.len() implies (#[trigger] elements[i]).item(1)
            != JsonTree::Text(prompt_id) by {
            assert(!stands_at(queues, "queue_running"@, i, prompt_id));
        }
    }
    if let JsonTree::Array(elements) = queues.at("queue_pending"@) {
        assert forall|i: int| 0 <= i < elements.len() implies (#[trigger] elements[i]).item(1)
            != JsonTree::Text(prompt_id) by {
            assert(!stands_at(queues, "queue_pending"@, i, prompt_id));
        }
    }
}

/// Where nothing can be told of a job, the reason is what is missing: its identifier, a queue
/// that is JSON, or a lookup that succeeded, in this order.
pub proof fn a_lookup_that_tells_nothing_has_a_reason(
    prompt_id: Seq<char>,
    status: u16,
    parsed: Result<JsonTree, Seq<char>>,
    queues: JsonTree,
    message: Seq<char>,
)
    ensures
        queue_outcome(None, status, parsed) == Err::<bool, ErrorView>(
            ErrorView::Upstream("No prompt_id received."@),
        ),
        queue_outcome(Some(prompt_id), status, Err(message)) == Err::<bool, ErrorView>(
            ErrorView::Json("Failed to parse queue JSON: "@ + message),
        ),
        !(200 <= status < 300) ==> queue_outcome(Some(prompt_id), status, Ok(queues)) == Err::<
            bool,
            ErrorView,
        >(ErrorView::Upstream("Failed to look up queue"@ + ": status "@ + decimal(status as nat))),
{
}

} // verus!
