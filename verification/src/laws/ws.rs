//! What the WebSocket reports, how it is restored, and when a wait is over.
use crate::codec::{parsed_bytes, parsed_text};
use crate::jobs::{buffer_holds_the_most_recent, recent};
use crate::json::JsonTree;
use crate::ws::{
    action_at, attempts_after, completed_job_is_known, completed_prompt, fits, is_finished,
    manager_after, manager_after_wait, prompt_in_text, wait_action, wait_after, wait_step,
    ListenerAction, ListenerActionView, ListenerEvent, ManagerView, WaitAction, WaitActionView,
    WaitEvent, WaitView,
};
use vstd::prelude::*;

verus! {

/// The message says that the backend executes nothing of its job any more.
pub open spec fn says_it_is_over(message: JsonTree) -> bool {
    ||| message.text_at("type"@) == Some("execution_success"@)
    ||| message.text_at("type"@) == Some("executing"@) && message.at("data"@).at("node"@)
        == JsonTree::Null
}

/// The two types of messages differ.
proof fn types_differ()
    ensures
        "executing"@ != "execution_success"@,
{
    reveal_strlit("executing");
    reveal_strlit("execution_success");
    assert("executing"@.len() == 9 && "execution_success"@.len() == 17);
}

/// A message completes a job exactly where it says that the job is over: then the one that its
/// data names, if they name one.
pub proof fn a_message_completes_the_job_that_is_over(message: JsonTree)
    ensures
        says_it_is_over(message) ==> completed_prompt(message) == message.at("data"@).text_at(
            "prompt_id"@,
        ),
        !says_it_is_over(message) ==> completed_prompt(message) is None,
{
    types_differ();
}

/// A message of another type completes no job and leaves the manager as it was.
pub proof fn other_messages_complete_nothing(
    manager: ManagerView,
    text: String,
    message: JsonTree,
)
    requires
        parsed_text(text@) == Ok::<JsonTree, Seq<char>>(message),
        message.text_at("type"@) != Some("executing"@),
        message.text_at("type"@) != Some("execution_success"@),
    ensures
        prompt_in_text(text@) is None,
        manager_after(manager, ListenerEvent::Text(text)) == manager,
{
}

/// While a node still executes, its job is not completed.
pub proof fn an_executing_node_completes_nothing(
    manager: ManagerView,
    text: String,
    message: JsonTree,
)
    requires
        parsed_text(text@) == Ok::<JsonTree, Seq<char>>(message),
        message.text_at("type"@) == Some("executing"@),
        message.at("data"@).at("node"@) != JsonTree::Null,
    ensures
        prompt_in_text(text@) is None,
        manager_after(manager, ListenerEvent::Text(text)) == manager,
{
}

/// A message that says that its job is over adds that job to the completed ones, as the most
/// recent, and changes nothing else.
pub proof fn a_completed_job_is_remembered(
    manager: ManagerView,
    text: String,
    message: JsonTree,
    prompt_id: Seq<char>,
)
    requires
        parsed_text(text@) == Ok::<JsonTree, Seq<char>>(message),
        says_it_is_over(message),
        message.at("data"@).text_at("prompt_id"@) == Some(prompt_id),
    ensures
        ({
            let after = manager_after(manager, ListenerEvent::Text(text));
            &&& after.completed == recent(manager.completed.push(prompt_id))
            &&& after.completed.last() == prompt_id
            &&& after.backend_url == manager.backend_url
            &&& after.backend_port == manager.backend_port
            &&& after.client_id == manager.client_id
        }),
{
    a_message_completes_the_job_that_is_over(message);
}

/// What is no JSON, and what is no text, completes no job, and neither does anything that happens
/// to the connection.
pub proof fn nothing_else_completes_a_job(manager: ManagerView, event: ListenerEvent)
    requires
        event matches ListenerEvent::Text(text) ==> parsed_text(text@) is Err,
    ensures
        manager_after(manager, event) == manager,
{
}

/// The hundred most recent of the completed jobs are kept, in their order.
pub proof fn a_hundred_jobs_are_kept(added: Seq<Seq<char>>, at: int)
    ensures
        recent(added).len() == if added.len() < 100 {
            added.len()
        } else {
            100
        },
        0 <= at < recent(added).len() ==> recent(added)[at] == added[added.len() - recent(
            added,
        ).len() + at],
{
    buffer_holds_the_most_recent(added);
}

/// While the connection stands it is listened to, for a minute at a time. Every loss and every
/// failure is one more attempt, a connection ends them, and each attempt goes to the address of
/// the backend's WebSocket for the client.
pub proof fn lost_connections_are_restored(
    attempts: nat,
    event: ListenerEvent,
    manager: ManagerView,
)
    requires
        fits(attempts, event),
    ensures
        ({
            let next = attempts_after(attempts, event);
            let action = action_at(next, manager);
            &&& event is Lost || event is ConnectFailed ==> next == attempts + 1 && (
            action matches ListenerActionView::Reconnect { attempt, url, .. } && attempt
                == attempts + 1 && url == "ws://"@ + manager.backend_url + ":"@
                + manager.backend_port + "/ws?clientId="@ + manager.client_id)
            &&& !(event is Lost || event is ConnectFailed) ==> next == 0 && action == (
            ListenerActionView::Listen { timeout_secs: 60 })
        }),
{
}

/// The delay of an attempt in nanoseconds: two seconds for the first one, then half as long again
/// as the one before, up to a minute.
pub proof fn attempts_wait_half_as_long_again(attempts: nat, manager: ManagerView)
    requires
        attempts > 0,
    ensures
        ({
            let delay = action_at(attempts, manager)->delay_nanos;
            let longer = action_at(attempts + 1, manager)->delay_nanos;
            &&& attempts == 1 ==> delay == 2_000_000_000
            &&& longer == if delay * 3 / 2 < 60_000_000_000 {
                delay * 3 / 2
            } else {
                60_000_000_000
            }
        }),
{
}

/// A check ends a wait exactly where the job is among the completed ones.
pub proof fn a_check_finds_completed_jobs(manager: ManagerView, prompt_id: Seq<char>)
    ensures
        is_finished(manager, prompt_id, WaitEvent::Check) <==> exists|i: int|
            0 <= i < manager.completed.len() && #[trigger] manager.completed[i] == prompt_id,
{
}

/// The history ends a wait exactly where it was found, is JSON, and has an entry of the job.
pub proof fn the_history_shows_finished_jobs(
    manager: ManagerView,
    prompt_id: Seq<char>,
    status: u16,
    body: Vec<u8>,
)
    ensures
        is_finished(manager, prompt_id, WaitEvent::History { status, body }) <==> 200 <= status
            < 300 && (parsed_bytes(body@) matches Ok(history) && history.get(prompt_id) is Some),
        !is_finished(manager, prompt_id, WaitEvent::HistoryFailed),
{
}

/// A wait that goes on asks the history of its job where a fourth check found nothing, and sleeps
/// for half a second everywhere else.
pub proof fn a_wait_goes_on(
    wait: WaitView,
    event: WaitEvent,
    manager: ManagerView,
    prompt_id: Seq<char>,
)
    requires
        wait.checks < 4,
        wait.asking <==> !(event is Check),
    ensures
        ({
            let next = wait_after(wait, event);
            let action = wait_action(next, manager, prompt_id);
            &&& event is Check && wait.checks == 3 ==> next.asking && next.checks == 0 && (
            action matches WaitActionView::AskHistory { url, timeout_secs } && timeout_secs == 3
                && url == "http://"@ + manager.backend_url + ":"@ + manager.backend_port
                + "/history/"@ + prompt_id)
            &&& event is Check && wait.checks < 3 ==> !next.asking && next.checks == wait.checks + 1
                && action == (WaitActionView::Sleep { millis: 500 })
            &&& !(event is Check) ==> !next.asking && next.checks == wait.checks && action == (
            WaitActionView::Sleep { millis: 500 })
        }),
{
}

/// A wait is done exactly where the job finished, and goes on as before everywhere else.
pub proof fn a_wait_is_done_where_the_job_finished(
    wait: WaitView,
    manager: ManagerView,
    prompt_id: Seq<char>,
    event: WaitEvent,
)
    ensures
        wait_step(wait, manager, prompt_id, event).1 == WaitActionView::Done <==> is_finished(
            manager,
            prompt_id,
            event,
        ),
        !is_finished(manager, prompt_id, event) ==> wait_step(wait, manager, prompt_id, event).0
            == wait_after(wait, event) && wait_step(wait, manager, prompt_id, event).1
            == wait_action(wait_after(wait, event), manager, prompt_id),
{
}

/// A job that the history showed is remembered as the most recent completed one, so that every
/// later check finds it. Nothing else that happens to a wait changes what is remembered.
pub proof fn a_wait_remembers_what_the_history_shows(
    manager: ManagerView,
    prompt_id: Seq<char>,
    event: WaitEvent,
)
    ensures
        ({
            let after = manager_after_wait(manager, prompt_id, event);
            let shown = event is History && is_finished(manager, prompt_id, event);
            &&& shown ==> after.completed == recent(manager.completed.push(prompt_id))
                && after.completed.last() == prompt_id && is_finished(
                after,
                prompt_id,
                WaitEvent::Check,
            )
            &&& !shown ==> after == manager
            &&& after.backend_url == manager.backend_url
            &&& after.backend_port == manager.backend_port
            &&& after.client_id == manager.client_id
        }),
{
    completed_job_is_known(manager, prompt_id);
}

/// Actions are seen as what they hold.
pub proof fn actions_of_the_connection_are_seen_as_they_are(
    text: String,
    attempt: u32,
    number: u64,
)
    ensures
        (ListenerAction::Listen { timeout_secs: number })@ == (ListenerActionView::Listen {
            timeout_secs: number,
        }),
        (ListenerAction::Reconnect { attempt, delay_nanos: number, url: text })@ == (
        ListenerActionView::Reconnect {
            attempt: attempt as nat,
            delay_nanos: number as nat,
            url: text@,
        }),
        WaitAction::Done@ == WaitActionView::Done,
        (WaitAction::Sleep { millis: number })@ == (WaitActionView::Sleep { millis: number }),
        (WaitAction::AskHistory { url: text, timeout_secs: number })@ == (
        WaitActionView::AskHistory { url: text@, timeout_secs: number }),
{
}

} // verus!
