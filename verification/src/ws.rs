//! The backend's WebSocket: which jobs it reports as completed, how a lost connection is
//! restored, and how a job is waited for.
use crate::codec::{parse_bytes, parse_text, parsed_bytes, parsed_text};
use crate::error::{is_success, succeeded};
use crate::jobs::{recent, CompletedJobsBuffer};
use crate::json::{Json, JsonTree};
use crate::text::{same, text_view};
use vstd::prelude::*;

verus! {

/// How long the first attempt to reconnect waits.
pub const INITIAL_RECONNECT_DELAY_NANOS: u64 = 2_000_000_000;

/// The longest that an attempt to reconnect waits.
pub const MAX_RECONNECT_DELAY_NANOS: u64 = 60_000_000_000;

/// How long a connection may stay silent.
pub const SILENCE_TIMEOUT_SECS: u64 = 60;

/// How long a waiting job sleeps between two checks.
pub const CHECK_INTERVAL_MILLIS: u64 = 500;

/// Every so many checks, a waiting job asks for the history.
pub const CHECKS_PER_HISTORY: u8 = 4;

/// How long the history may take to answer a waiting job.
pub const HISTORY_TIMEOUT_SECS: u64 = 3;

/// The state of the backend's WebSocket connection: where it leads, and the jobs that it reported
/// as completed.
#[derive(Debug)]
pub struct WebSocketManager {
    completed_jobs: CompletedJobsBuffer,
    backend_url: String,
    backend_port: String,
    client_id: String,
}

/// A `WebSocketManager` as a mathematical object.
pub struct ManagerView {
    /// The completed jobs that are kept, the oldest first.
    pub completed: Seq<Seq<char>>,
    pub backend_url: Seq<char>,
    pub backend_port: Seq<char>,
    pub client_id: Seq<char>,
}

impl View for WebSocketManager {
    type V = ManagerView;

    closed spec fn view(&self) -> ManagerView {
        ManagerView {
            completed: self.completed_jobs@,
            backend_url: self.backend_url@,
            backend_port: self.backend_port@,
            client_id: self.client_id@,
        }
    }
}

impl ManagerView {
    /// The address of the backend's WebSocket for this client.
    pub open spec fn websocket_url(self) -> Seq<char> {
        "ws://"@ + self.backend_url + ":"@ + self.backend_port + "/ws?clientId="@ + self.client_id
    }

    /// The address of the history of a job.
    pub open spec fn history_url(self, prompt_id: Seq<char>) -> Seq<char> {
        "http://"@ + self.backend_url + ":"@ + self.backend_port + "/history/"@ + prompt_id
    }

    /// The state after a job completed.
    pub open spec fn completing(self, prompt_id: Seq<char>) -> ManagerView {
        ManagerView { completed: recent(self.completed.push(prompt_id)), ..self }
    }
}

/// The job that a message of the backend reports as completed: that of an `execution_success`,
/// or of an `executing` without a node or with a null one.
pub open spec fn completed_prompt(message: JsonTree) -> Option<Seq<char>> {
    let data = message.at("data"@);
    if message.text_at("type"@) == Some("executing"@) {
        if data.at("node"@) is Null {
            data.text_at("prompt_id"@)
        } else {
            None
        }
    } else if message.text_at("type"@) == Some("execution_success"@) {
        data.text_at("prompt_id"@)
    } else {
        None
    }
}

/// The job that a message of the backend reports as completed, if it reports one.
pub fn completed_job(message: &Json) -> (job: Option<String>)
    ensures
        text_view(job) == completed_prompt(message.tree()),
{
    let kind = match message.text_at("type") {
        Some(kind) => kind,
        None => return None,
    };
    let executing = same(kind, "executing");
    if !executing && !same(kind, "execution_success") {
        return None;
    }
    let data = match message.get("data") {
        Some(data) => data,
        None => return None,
    };
    if executing {
        let at_node = match data.get("node") {
            Some(node) => !node.is_null(),
            None => false,
        };
        if at_node {
            return None;
        }
    }
    match data.text_at("prompt_id") {
        Some(prompt_id) => Some(prompt_id.to_owned()),
        None => None,
    }
}

/// The job that a text from the backend reports as completed. A text that is no JSON reports
/// none.
pub open spec fn prompt_in_text(text: Seq<char>) -> Option<Seq<char>> {
    match parsed_text(text) {
        Ok(message) => completed_prompt(message),
        Err(_) => None,
    }
}

/// The job that a text from the backend reports as completed, if it reports one.
pub fn job_in_text(text: &str) -> (job: Option<String>)
    ensures
        text_view(job) == prompt_in_text(text@),
{
    match parse_text(text) {
        Ok(message) => completed_job(&message),
        Err(_) => None,
    }
}

/// How long an attempt to reconnect waits after that many failed ones: half as long again as the
/// one before, up to the longest.
pub open spec fn backoff_nanos(failures: nat) -> nat
    decreases failures,
{
    if failures == 0 {
        INITIAL_RECONNECT_DELAY_NANOS as nat
    } else {
        let longer = backoff_nanos((failures - 1) as nat) * 3 / 2;
        if longer < MAX_RECONNECT_DELAY_NANOS {
            longer as nat
        } else {
            MAX_RECONNECT_DELAY_NANOS as nat
        }
    }
}

/// What a listener is at: it reads from the connection, or it restores it.
#[derive(Debug)]
pub struct Listener {
    /// How often reconnecting was tried since the connection was lost, the running attempt
    /// counted. While the connection stands it is zero.
    retry_count: u32,
    /// How long the running attempt waits, or the first one would.
    retry_delay_nanos: u64,
}

impl View for Listener {
    type V = nat;

    /// How often reconnecting was tried since the connection was lost.
    closed spec fn view(&self) -> nat {
        self.retry_count as nat
    }
}

/// What happened to the connection.
#[derive(Debug)]
pub enum ListenerEvent {
    /// A text message came.
    Text(String),
    /// A message came that is no text.
    OtherMessage,
    /// Reading failed, the backend closed the connection, or it stayed silent for too long.
    Lost,
    /// The attempt to reconnect succeeded.
    Connected,
    /// The attempt to reconnect failed.
    ConnectFailed,
}

/// What is to be done with the connection next.
#[derive(Debug, PartialEq, Eq)]
pub enum ListenerAction {
    /// Read the next message, which may take so long.
    Listen { timeout_secs: u64 },
    /// Wait, then connect anew.
    Reconnect { attempt: u32, delay_nanos: u64, url: String },
}

/// A `ListenerAction` as a mathematical object.
pub enum ListenerActionView {
    Listen { timeout_secs: u64 },
    Reconnect { attempt: nat, delay_nanos: nat, url: Seq<char> },
}

impl View for ListenerAction {
    type V = ListenerActionView;

    open spec fn view(&self) -> ListenerActionView {
        match self {
            ListenerAction::Listen { timeout_secs } => ListenerActionView::Listen {
                timeout_secs: *timeout_secs,
            },
            ListenerAction::Reconnect { attempt, delay_nanos, url } =>
                ListenerActionView::Reconnect {
                    attempt: *attempt as nat,
                    delay_nanos: *delay_nanos as nat,
                    url: url@,
                },
        }
    }
}

/// The event can come where reconnecting was tried so often: messages while the connection
/// stands, the outcome of an attempt while it is being restored.
pub open spec fn fits(attempts: nat, event: ListenerEvent) -> bool {
    match event {
        ListenerEvent::Text(_) | ListenerEvent::OtherMessage | ListenerEvent::Lost => attempts
            == 0,
        ListenerEvent::Connected | ListenerEvent::ConnectFailed => attempts > 0,
    }
}

/// The attempts after an event: a lost connection begins the first one, a failed one is followed
/// by the next, and a connection ends them.
pub open spec fn attempts_after(attempts: nat, event: ListenerEvent) -> nat {
    match event {
        ListenerEvent::Lost | ListenerEvent::ConnectFailed => attempts + 1,
        _ => 0,
    }
}

/// What is done where reconnecting was tried so often: nothing but listening while the
/// connection stands, else the running attempt.
pub open spec fn action_at(attempts: nat, manager: ManagerView) -> ListenerActionView {
    if attempts == 0 {
        ListenerActionView::Listen { timeout_secs: SILENCE_TIMEOUT_SECS }
    } else {
        ListenerActionView::Reconnect {
            attempt: attempts,
            delay_nanos: backoff_nanos((attempts - 1) as nat),
            url: manager.websocket_url(),
        }
    }
}

/// The manager after an event: a text that reports a completed job completes it, and nothing
/// else changes anything.
pub open spec fn manager_after(manager: ManagerView, event: ListenerEvent) -> ManagerView {
    match event {
        ListenerEvent::Text(text) => match prompt_in_text(text@) {
            Some(prompt_id) => manager.completing(prompt_id),
            None => manager,
        },
        _ => manager,
    }
}

/// The delay never exceeds the longest, so that the next one is computed without overflow.
proof fn backoff_is_bounded(failures: nat)
    ensures
        INITIAL_RECONNECT_DELAY_NANOS <= backoff_nanos(failures) <= MAX_RECONNECT_DELAY_NANOS,
    decreases failures,
{
    if failures > 0 {
        backoff_is_bounded((failures - 1) as nat);
    }
}

impl Listener {
    #[verifier::type_invariant]
    closed spec fn well_formed(self) -> bool {
        self.retry_delay_nanos == backoff_nanos(
            if self.retry_count == 0 {
                0
            } else {
                (self.retry_count - 1) as nat
            },
        )
    }

    /// A listener on a connection that stands.
    pub fn new() -> (listener: Listener)
        ensures
            listener@ == 0,
    {
        Listener { retry_count: 0, retry_delay_nanos: INITIAL_RECONNECT_DELAY_NANOS }
    }
}

impl WebSocketManager {
    /// The state of a connection on which nothing was reported yet.
    pub fn new(backend_url: String, backend_port: String, client_id: String) -> (manager:
        WebSocketManager)
        ensures
            manager@ == (ManagerView {
                completed: Seq::empty(),
                backend_url: backend_url@,
                backend_port: backend_port@,
                client_id: client_id@,
            }),
    {
        WebSocketManager {
            completed_jobs: CompletedJobsBuffer::new(),
            backend_url,
            backend_port,
            client_id,
        }
    }

    /// The address of the backend's WebSocket for this client.
    pub fn websocket_url(&self) -> (url: String)
        ensures
            url@ == self@.websocket_url(),
    {
        "ws://".to_owned().concat(self.backend_url.as_str()).concat(":").concat(
            self.backend_port.as_str(),
        ).concat("/ws?clientId=").concat(self.client_id.as_str())
    }

    /// The address of the history of a job.
    pub fn history_url(&self, prompt_id: &str) -> (url: String)
        ensures
            url@ == self@.history_url(prompt_id@),
    {
        "http://".to_owned().concat(self.backend_url.as_str()).concat(":").concat(
            self.backend_port.as_str(),
        ).concat("/history/").concat(prompt_id)
    }

    /// One step of the task that listens to the backend: takes in what happened to the
    /// connection, remembers the job that a message reports as completed, and says what is to be
    /// done next.
    pub fn message_listener(&mut self, listener: Listener, event: ListenerEvent) -> (step: (
        Listener,
        ListenerAction,
    ))
        requires
            fits(listener@, event),
            listener@ < u32::MAX,
        ensures
            step.0@ == attempts_after(listener@, event),
            step.1@ == action_at(step.0@, old(self)@),
            final(self)@ == manager_after(old(self)@, event),
    {
        proof {
            use_type_invariant(&listener);
        }
        let delay_nanos: u64 = match event {
            ListenerEvent::Text(text) => {
                if let Some(prompt_id) = job_in_text(text.as_str()) {
                    self.completed_jobs.add(prompt_id);
                }
                return (Listener::new(), ListenerAction::Listen {
                    timeout_secs: SILENCE_TIMEOUT_SECS,
                });
            },
            ListenerEvent::OtherMessage | ListenerEvent::Connected => {
                return (Listener::new(), ListenerAction::Listen {
                    timeout_secs: SILENCE_TIMEOUT_SECS,
                });
            },
            ListenerEvent::Lost => listener.retry_delay_nanos,
            ListenerEvent::ConnectFailed => {
                proof {
                    backoff_is_bounded((listener@ - 1) as nat);
                }
                let longer = listener.retry_delay_nanos * 3 / 2;
                if longer < MAX_RECONNECT_DELAY_NANOS {
                    longer
                } else {
                    MAX_RECONNECT_DELAY_NANOS
                }
            },
        };
        let attempt = listener.retry_count + 1;
        let next = Listener { retry_count: attempt, retry_delay_nanos: delay_nanos };
        (next, ListenerAction::Reconnect { attempt, delay_nanos, url: self.websocket_url() })
    }
}

/// A job that is waited for.
#[derive(Debug)]
pub struct JobWait {
    /// How many checks found the job unfinished since the history was asked last.
    checks: u8,
    /// Whether the history was asked and has not answered.
    asking: bool,
}

/// A `JobWait` as a mathematical object.
pub struct WaitView {
    pub checks: u8,
    pub asking: bool,
}

impl View for JobWait {
    type V = WaitView;

    closed spec fn view(&self) -> WaitView {
        WaitView { checks: self.checks, asking: self.asking }
    }
}

/// What happened to a job that is waited for.
#[derive(Debug)]
pub enum WaitEvent {
    /// It is time for a check.
    Check,
    /// The history answered.
    History { status: u16, body: Vec<u8> },
    /// The history could not be reached or did not answer in full.
    HistoryFailed,
}

/// What is to be done next for a job that is waited for.
#[derive(Debug, PartialEq, Eq)]
pub enum WaitAction {
    /// Nothing: the job completed.
    Done,
    /// Sleep, then check.
    Sleep { millis: u64 },
    /// Ask the history, which may take so long.
    AskHistory { url: String, timeout_secs: u64 },
}

/// A `WaitAction` as a mathematical object.
pub enum WaitActionView {
    Done,
    Sleep { millis: u64 },
    AskHistory { url: Seq<char>, timeout_secs: u64 },
}

impl View for WaitAction {
    type V = WaitActionView;

    open spec fn view(&self) -> WaitActionView {
        match self {
            WaitAction::Done => WaitActionView::Done,
            WaitAction::Sleep { millis } => WaitActionView::Sleep { millis: *millis },
            WaitAction::AskHistory { url, timeout_secs } => WaitActionView::AskHistory {
                url: url@,
                timeout_secs: *timeout_secs,
            },
        }
    }
}

/// The answer of the history shows that the job finished: it succeeded, it is JSON, and it has
/// an entry for the job.
pub open spec fn history_shows(status: u16, body: Seq<u8>, prompt_id: Seq<char>) -> bool {
    is_success(status) && (parsed_bytes(body) matches Ok(history) && history.get(
        prompt_id,
    ) is Some)
}

/// Whether a history that was parsed has an entry for the job.
pub fn history_lists(history: &Json, prompt_id: &str) -> (listed: bool)
    ensures
        listed == (history.tree().get(prompt_id@) is Some),
{
    history.get(prompt_id).is_some()
}

/// Whether the answer of the history shows that the job finished.
pub fn history_has(status: u16, body: &Vec<u8>, prompt_id: &str) -> (finished: bool)
    ensures
        finished == history_shows(status, body@, prompt_id@),
{
    if !succeeded(status) {
        return false;
    }
    match parse_bytes(body.as_slice()) {
        Ok(history) => history_lists(&history, prompt_id),
        Err(_) => false,
    }
}

/// The event says that the job finished: the manager knows it, or the history shows it.
pub open spec fn is_finished(manager: ManagerView, prompt_id: Seq<char>, event: WaitEvent) -> bool {
    match event {
        WaitEvent::Check => manager.completed.contains(prompt_id),
        WaitEvent::History { status, body } => history_shows(status, body@, prompt_id),
        WaitEvent::HistoryFailed => false,
    }
}

/// The state of the wait after an event that did not finish the job: a check counts, and the
/// last one before the history is asked starts the count anew.
pub open spec fn wait_after(wait: WaitView, event: WaitEvent) -> WaitView {
    match event {
        WaitEvent::Check => if wait.checks + 1 == CHECKS_PER_HISTORY {
            WaitView { checks: 0, asking: true }
        } else {
            WaitView { checks: (wait.checks + 1) as u8, asking: false }
        },
        _ => WaitView { checks: wait.checks, asking: false },
    }
}

/// What is done for a job that is not finished.
pub open spec fn wait_action(
    wait: WaitView,
    manager: ManagerView,
    prompt_id: Seq<char>,
) -> WaitActionView {
    if wait.asking {
        WaitActionView::AskHistory {
            url: manager.history_url(prompt_id),
            timeout_secs: HISTORY_TIMEOUT_SECS,
        }
    } else {
        WaitActionView::Sleep { millis: CHECK_INTERVAL_MILLIS }
    }
}

/// The wait after an event, and what is to be done next: nothing where the job finished.
pub open spec fn wait_step(
    wait: WaitView,
    manager: ManagerView,
    prompt_id: Seq<char>,
    event: WaitEvent,
) -> (WaitView, WaitActionView) {
    if is_finished(manager, prompt_id, event) {
        (wait, WaitActionView::Done)
    } else {
        let next = wait_after(wait, event);
        (next, wait_action(next, manager, prompt_id))
    }
}

/// The manager after an event of a wait: the job that the history shows is completed.
pub open spec fn manager_after_wait(
    manager: ManagerView,
    prompt_id: Seq<char>,
    event: WaitEvent,
) -> ManagerView {
    if is_finished(manager, prompt_id, event) && !(event is Check) {
        manager.completing(prompt_id)
    } else {
        manager
    }
}

impl JobWait {
    #[verifier::type_invariant]
    closed spec fn well_formed(self) -> bool {
        self.checks < CHECKS_PER_HISTORY
    }

    /// A wait that begins.
    pub fn new() -> (wait: JobWait)
        ensures
            wait@ == (WaitView { checks: 0, asking: false }),
    {
        JobWait { checks: 0, asking: false }
    }
}

impl WebSocketManager {
    /// One step of waiting for a job: takes in what happened and says what is to be done next.
    /// The job that the history shows is remembered as completed.
    pub fn wait_for_job_completion(
        &mut self,
        prompt_id: &str,
        wait: JobWait,
        event: WaitEvent,
    ) -> (step: (JobWait, WaitAction))
        requires
            wait@.asking <==> !(event is Check),
        ensures
            (step.0@, step.1@) == wait_step(wait@, old(self)@, prompt_id@, event),
            final(self)@ == manager_after_wait(old(self)@, prompt_id@, event),
    {
        proof {
            use_type_invariant(&wait);
        }
        let checks = wait.checks;
        match event {
            WaitEvent::Check => {
                if self.completed_jobs.contains(prompt_id) {
                    return (wait, WaitAction::Done);
                }
                if checks + 1 == CHECKS_PER_HISTORY {
                    let url = self.history_url(prompt_id);
                    (JobWait { checks: 0, asking: true }, WaitAction::AskHistory {
                        url,
                        timeout_secs: HISTORY_TIMEOUT_SECS,
                    })
                } else {
                    (JobWait { checks: checks + 1, asking: false }, WaitAction::Sleep {
                        millis: CHECK_INTERVAL_MILLIS,
                    })
                }
            },
            WaitEvent::History { status, body } => {
                if history_has(status, &body, prompt_id) {
                    self.completed_jobs.add(prompt_id.to_owned());
                    return (wait, WaitAction::Done);
                }
                (JobWait { checks, asking: false }, WaitAction::Sleep {
                    millis: CHECK_INTERVAL_MILLIS,
                })
            },
            WaitEvent::HistoryFailed => (JobWait { checks, asking: false }, WaitAction::Sleep {
                millis: CHECK_INTERVAL_MILLIS,
            }),
        }
    }
}

/// Every delay lies between the first one and the longest, and none is shorter than the one
/// before.
pub proof fn delays_grow_within_bounds(failures: nat)
    ensures
        INITIAL_RECONNECT_DELAY_NANOS <= backoff_nanos(failures) <= MAX_RECONNECT_DELAY_NANOS,
        backoff_nanos(failures) <= backoff_nanos(failures + 1),
{
    backoff_is_bounded(failures);
}

/// Up to the longest delay, each one is exactly one and a half times the one before: nothing is
/// lost to rounding.
pub proof fn delays_grow_exactly(failures: nat)
    ensures
        backoff_nanos(failures + 1) < MAX_RECONNECT_DELAY_NANOS ==> backoff_nanos(failures + 1) * 2
            == backoff_nanos(failures) * 3,
{
    delays_before_the_longest();
    if failures >= 8 {
        delay_stays_longest((failures + 1) as nat);
    }
}

/// The delays before the longest one, in nanoseconds.
proof fn delays_before_the_longest()
    ensures
        backoff_nanos(0) == 2_000_000_000,
        backoff_nanos(1) == 3_000_000_000,
        backoff_nanos(2) == 4_500_000_000,
        backoff_nanos(3) == 6_750_000_000,
        backoff_nanos(4) == 10_125_000_000,
        backoff_nanos(5) == 15_187_500_000,
        backoff_nanos(6) == 22_781_250_000,
        backoff_nanos(7) == 34_171_875_000,
        backoff_nanos(8) == 51_257_812_500,
        backoff_nanos(9) == MAX_RECONNECT_DELAY_NANOS,
{
    reveal_with_fuel(backoff_nanos, 10);
}

/// From the tenth attempt on, every attempt waits for the longest delay.
pub proof fn delay_stays_longest(failures: nat)
    requires
        failures >= 9,
    ensures
        backoff_nanos(failures) == MAX_RECONNECT_DELAY_NANOS,
    decreases failures,
{
    if failures == 9 {
        delays_before_the_longest();
    } else {
        delay_stays_longest((failures - 1) as nat);
    }
}

/// Once the connection stands again or a message comes, losing it starts over with the first
/// delay.
pub proof fn recovery_starts_over(attempts: nat, event: ListenerEvent, manager: ManagerView)
    requires
        fits(attempts, event),
        !(event is Lost),
        !(event is ConnectFailed),
    ensures
        action_at(attempts_after(attempts_after(attempts, event), ListenerEvent::Lost), manager)
            == (ListenerActionView::Reconnect {
            attempt: 1,
            delay_nanos: INITIAL_RECONNECT_DELAY_NANOS as nat,
            url: manager.websocket_url(),
        }),
{
}

/// The attempts while reconnecting keeps failing: the connection is lost, then that many
/// attempts fail.
pub open spec fn attempts_after_failures(failures: nat) -> nat
    decreases failures,
{
    if failures == 0 {
        attempts_after(0, ListenerEvent::Lost)
    } else {
        attempts_after(attempts_after_failures((failures - 1) as nat), ListenerEvent::ConnectFailed)
    }
}

/// However often reconnecting fails, it is tried again, after the delay of that many failures.
pub proof fn reconnecting_never_gives_up(failures: nat, manager: ManagerView)
    ensures
        action_at(attempts_after_failures(failures), manager) == (ListenerActionView::Reconnect {
            attempt: failures + 1,
            delay_nanos: backoff_nanos(failures),
            url: manager.websocket_url(),
        }),
    decreases failures,
{
    if failures > 0 {
        reconnecting_never_gives_up((failures - 1) as nat, manager);
    }
}

/// The job that a message reported as completed is found by the next check of whoever waits for
/// it.
pub proof fn reported_job_ends_its_wait(manager: ManagerView, text: String, prompt_id: Seq<char>)
    requires
        prompt_in_text(text@) == Some(prompt_id),
    ensures
        is_finished(
            manager_after(manager, ListenerEvent::Text(text)),
            prompt_id,
            WaitEvent::Check,
        ),
{
    completed_job_is_known(manager, prompt_id);
}

/// The job that the history showed to one who waits is found by the next check of everyone who
/// waits for it.
pub proof fn completed_job_is_known(manager: ManagerView, prompt_id: Seq<char>)
    ensures
        is_finished(manager.completing(prompt_id), prompt_id, WaitEvent::Check),
{
    let completed = recent(manager.completed.push(prompt_id));
    assert(completed[completed.len() - 1] == prompt_id);
}

/// The state of a wait after that many checks that found nothing, each history that was asked
/// having failed.
pub open spec fn wait_after_checks(checks: nat) -> WaitView
    decreases checks,
{
    if checks == 0 {
        WaitView { checks: 0, asking: false }
    } else {
        let before = wait_after_checks((checks - 1) as nat);
        let idle = if before.asking {
            wait_after(before, WaitEvent::HistoryFailed)
        } else {
            before
        };
        wait_after(idle, WaitEvent::Check)
    }
}

/// A wait asks the history at every fourth check, and at no other.
pub proof fn history_is_asked_every_fourth_check(checks: nat)
    requires
        checks > 0,
    ensures
        wait_after_checks(checks).asking <==> checks % 4 == 0,
        wait_after_checks(checks).checks == checks % 4,
    decreases checks,
{
    if checks > 1 {
        history_is_asked_every_fourth_check((checks - 1) as nat);
    }
    reveal_with_fuel(wait_after_checks, 2);
}

} // verus!
