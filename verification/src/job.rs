//! A job at the backend from the answer to its submission to the answer to the client: what is
//! waited for, what is fetched, and what comes of it.
use crate::assets::{
    answer, answer_tree, encode_asset, entry_of, file_views, kind_word, list_files, listed_files,
    view_pairs, view_url, FileView, ImageFile, MediaKind,
};
use crate::codec::{parse_bytes, parse_view, parsed_bytes, render, render_view, rendered};
use crate::encoding::{encodable, form_encoded};
use crate::error::{is_success, refusal, refused, succeeded, ErrorView, ProxyError};
use crate::headers::{
    answer_headers, authorization, authorization_headers, authorization_map, copy_bytes,
    first_value, header_views, response_headers, value_view, Header, HeaderSet,
};
use crate::json::{trees, Json, JsonTree};
use crate::queue::{check_queue, finished_view, left_queue, queue_outcome};
use crate::text::text_view;
use vstd::prelude::*;

verus! {

/// How long the WebSocket may take to report a job as completed.
pub const COMPLETION_TIMEOUT_SECS: u64 = 600;

/// How long a job sleeps between two looks at the queue.
pub const QUEUE_INTERVAL_MILLIS: u64 = 2000;

/// How long the backend may take to answer, where that is limited.
pub const FETCH_TIMEOUT_SECS: u64 = 5;

/// What a job is waiting for.
#[derive(Debug, Clone, Copy, PartialEq, Eq, Structural)]
pub enum JobPhase {
    /// The body of the answer to its submission.
    Reply,
    /// The report of its completion.
    Completion,
    /// The queue.
    Queue,
    /// The time to look at the queue again.
    Pause,
    /// The history.
    History,
    /// A file.
    Asset,
    /// The time of day.
    Clock,
    /// Nothing: it is over.
    Over,
}

/// A job at the backend.
#[derive(Debug)]
pub struct Job {
    kind: MediaKind,
    base: String,
    authorization: Option<Vec<u8>>,
    reply_status: u16,
    reply_headers: Vec<Header>,
    use_ws: bool,
    has_manager: bool,
    phase: JobPhase,
    prompt_id: Option<String>,
    files: Vec<ImageFile>,
    data: Vec<Json>,
}

/// A `Job` as a mathematical object.
pub struct JobView {
    /// What the client asked for.
    pub kind: MediaKind,
    /// The backend's address without a scheme.
    pub base: Seq<char>,
    /// The client's authorization.
    pub authorization: Option<Seq<u8>>,
    /// The status of the answer to the submission.
    pub reply_status: u16,
    /// The headers of the answer to the submission.
    pub reply_headers: Seq<(Seq<char>, Seq<u8>)>,
    /// Whether completion is to be reported by the WebSocket.
    pub use_ws: bool,
    /// Whether there is a WebSocket.
    pub has_manager: bool,
    pub phase: JobPhase,
    /// The job's identifier, once the answer to the submission gave one.
    pub prompt_id: Option<Seq<char>>,
    /// The files that the job produced.
    pub files: Seq<FileView>,
    /// What the client gets for the files that were fetched.
    pub data: Seq<JsonTree>,
}

impl View for Job {
    type V = JobView;

    closed spec fn view(&self) -> JobView {
        JobView {
            kind: self.kind,
            base: self.base@,
            authorization: value_view(self.authorization),
            reply_status: self.reply_status,
            reply_headers: header_views(self.reply_headers@),
            use_ws: self.use_ws,
            has_manager: self.has_manager,
            phase: self.phase,
            prompt_id: text_view(self.prompt_id),
            files: file_views(self.files@),
            data: trees(self.data@),
        }
    }
}

/// What happened to a job.
#[derive(Debug)]
pub enum JobEvent {
    /// The answer to its submission was read.
    Reply { body: Vec<u8> },
    /// The wait for its completion is over, whatever came of it.
    CompletionOver,
    /// The queue answered.
    Queue { status: u16, body: Vec<u8> },
    /// The pause is over.
    Paused,
    /// The history answered.
    History { status: u16, body: Vec<u8> },
    /// The request for a file was answered.
    Asset { status: u16, content: Vec<u8> },
    /// The time of day, in seconds since the start of 1970.
    Clock { secs: u64 },
    /// The time of day lies before 1970.
    ClockFailed,
    /// The body of what was awaited could not be read, with the reason.
    Unreadable { reason: String },
    /// What was to be fetched could not be.
    Failed { error: ProxyError },
}

/// What is to be done next for a job.
#[derive(Debug)]
pub enum JobAction {
    /// Wait until the WebSocket reports the job as completed, for so long at most.
    AwaitCompletion { prompt_id: String, timeout_secs: u64 },
    /// Get what is at the address, which may take so long, if that is limited.
    Fetch { url: String, headers: HeaderSet, limit_secs: Option<u64> },
    /// Sleep.
    Pause { millis: u64 },
    /// Read the time of day.
    ReadClock,
    /// Answer the client.
    Respond { status: u16, headers: HeaderSet, body: Vec<u8> },
    /// Tell the client that the job failed.
    Fail { error: ProxyError },
}

/// A `JobAction` as a mathematical object.
pub enum JobActionView {
    AwaitCompletion { prompt_id: Seq<char>, timeout_secs: u64 },
    Fetch { url: Seq<char>, headers: Map<Seq<char>, Seq<u8>>, limit_secs: Option<u64> },
    Pause { millis: u64 },
    ReadClock,
    Respond { status: u16, headers: Map<Seq<char>, Seq<u8>>, body: Seq<u8> },
    Fail { error: ErrorView },
}

impl View for JobAction {
    type V = JobActionView;

    open spec fn view(&self) -> JobActionView {
        match self {
            JobAction::AwaitCompletion { prompt_id, timeout_secs } =>
                JobActionView::AwaitCompletion {
                    prompt_id: prompt_id@,
                    timeout_secs: *timeout_secs,
                },
            JobAction::Fetch { url, headers, limit_secs } => JobActionView::Fetch {
                url: url@,
                headers: headers@,
                limit_secs: *limit_secs,
            },
            JobAction::Pause { millis } => JobActionView::Pause { millis: *millis },
            JobAction::ReadClock => JobActionView::ReadClock,
            JobAction::Respond { status, headers, body } => JobActionView::Respond {
                status: *status,
                headers: headers@,
                body: body@,
            },
            JobAction::Fail { error } => JobActionView::Fail { error: error@ },
        }
    }
}

impl JobView {
    /// The job in that phase.
    pub open spec fn at(self, phase: JobPhase) -> JobView {
        JobView { phase, ..self }
    }

    /// The job failed for that reason.
    pub open spec fn failing(self, error: ErrorView) -> (JobView, JobActionView) {
        (self.at(JobPhase::Over), JobActionView::Fail { error })
    }

    /// The job fetches what is at that address, with the client's authorization.
    pub open spec fn fetching(
        self,
        phase: JobPhase,
        url: Seq<char>,
        limit_secs: Option<u64>,
    ) -> (JobView, JobActionView) {
        (
            self.at(phase),
            JobActionView::Fetch {
                url,
                headers: authorization_map(self.authorization),
                limit_secs,
            },
        )
    }

    /// How long the history and the files may take: for images that is limited.
    pub open spec fn fetch_limit(self) -> Option<u64> {
        match self.kind {
            MediaKind::Image => Some(FETCH_TIMEOUT_SECS),
            MediaKind::Video => None,
        }
    }

    /// The job looks at the queue.
    pub open spec fn asking_queue(self) -> (JobView, JobActionView) {
        self.fetching(
            JobPhase::Queue,
            "http://"@ + self.base + "/queue"@,
            Some(FETCH_TIMEOUT_SECS),
        )
    }

    /// The job looks at its history, for which it needs its identifier.
    pub open spec fn asking_history(self) -> (JobView, JobActionView) {
        match self.prompt_id {
            Some(prompt_id) => self.fetching(
                JobPhase::History,
                "http://"@ + self.base + "/history/"@ + prompt_id,
                self.fetch_limit(),
            ),
            None => self.failing(ErrorView::Upstream("No prompt_id received."@)),
        }
    }

    /// The job fetches the next file, or the time of day once it has them all.
    pub open spec fn asking_asset(self) -> (JobView, JobActionView) {
        if self.data.len() < self.files.len() {
            let query = form_encoded(view_pairs(self.files[self.data.len() as int]));
            self.fetching(
                JobPhase::Asset,
                "http://"@ + self.base + "/view?"@ + query,
                self.fetch_limit(),
            )
        } else {
            (self.at(JobPhase::Clock), JobActionView::ReadClock)
        }
    }

    /// The job after the answer to its submission was parsed: it waits for its completion, by
    /// the WebSocket or by the queue, where it has an identifier to wait for.
    pub open spec fn submitted(self, reply: Result<JsonTree, Seq<char>>) -> (
        JobView,
        JobActionView,
    ) {
        match reply {
            Err(message) => self.failing(ErrorView::Json("Failed to parse JSON: "@ + message)),
            Ok(reply) => {
                let job = JobView { prompt_id: reply.text_at("prompt_id"@), ..self };
                match job.prompt_id {
                    None => job.asking_history(),
                    Some(prompt_id) => if !job.use_ws {
                        job.asking_queue()
                    } else if job.has_manager {
                        (
                            job.at(JobPhase::Completion),
                            JobActionView::AwaitCompletion {
                                prompt_id,
                                timeout_secs: COMPLETION_TIMEOUT_SECS,
                            },
                        )
                    } else {
                        job.asking_history()
                    },
                }
            },
        }
    }

    /// The job after the queue was read: it looks at its history once it has left the queue, and
    /// at the queue again until then.
    pub open spec fn queue_seen(self, finished: Result<bool, ErrorView>) -> (
        JobView,
        JobActionView,
    ) {
        match finished {
            Err(error) => self.failing(error),
            Ok(true) => self.asking_history(),
            Ok(false) => (
                self.at(JobPhase::Pause),
                JobActionView::Pause { millis: QUEUE_INTERVAL_MILLIS },
            ),
        }
    }

    /// The job after its history was parsed: it fetches the files that are listed there. Files of
    /// an image job count only where the lookup succeeded.
    pub open spec fn history_seen(self, status: u16, history: Result<JsonTree, Seq<char>>) -> (
        JobView,
        JobActionView,
    ) {
        match history {
            Err(message) => self.failing(
                ErrorView::Json("Failed to parse history JSON: "@ + message),
            ),
            Ok(history) => match listed_files(history, self.prompt_id->0, self.kind) {
                Err(error) => self.failing(error),
                Ok(files) => if self.kind == MediaKind::Image && !is_success(status) {
                    self.failing(refusal("Failed to look up history"@, status))
                } else {
                    JobView { files, data: Seq::empty(), ..self }.asking_asset()
                },
            },
        }
    }

    /// The job after a file was fetched.
    pub open spec fn asset_fetched(self, content: Seq<u8>) -> (JobView, JobActionView) {
        let file = self.files[self.data.len() as int];
        JobView {
            data: self.data.push(entry_of(file.filename, self.kind, content)),
            ..self
        }.asking_asset()
    }

    /// The job after the answer to the client was rendered.
    pub open spec fn answered(self, body: Result<Seq<u8>, Seq<char>>) -> (JobView, JobActionView) {
        match body {
            Err(message) => self.failing(ErrorView::Json("Failed to serialize JSON: "@ + message)),
            Ok(body) => (
                self.at(JobPhase::Over),
                JobActionView::Respond {
                    status: self.reply_status,
                    headers: answer_headers(self.reply_headers, body.len()),
                    body,
                },
            ),
        }
    }

    /// Why a job fails whose awaited body could not be read.
    pub open spec fn unreadable(self, reason: Seq<char>) -> ErrorView {
        ErrorView::Upstream(
            (match self.phase {
                JobPhase::Queue => "Failed to read queue response body: "@,
                JobPhase::History => "Failed to read history response body: "@,
                _ => "Failed to read response body: "@,
            }) + reason,
        )
    }

    /// The job after an event, and what is to be done next.
    pub open spec fn after(self, event: JobEvent) -> (JobView, JobActionView) {
        match event {
            JobEvent::Reply { body } => self.submitted(parsed_bytes(body@)),
            JobEvent::CompletionOver => self.asking_history(),
            JobEvent::Queue { status, body } => self.queue_seen(
                queue_outcome(self.prompt_id, status, parsed_bytes(body@)),
            ),
            JobEvent::Paused => self.asking_queue(),
            JobEvent::History { status, body } => self.history_seen(status, parsed_bytes(body@)),
            JobEvent::Asset { status, content } => if is_success(status) {
                self.asset_fetched(content@)
            } else {
                self.failing(refusal("Failed to retrieve "@ + kind_word(self.kind), status))
            },
            JobEvent::Clock { secs } => JobView { data: Seq::empty(), ..self }.answered(
                Ok(rendered(answer_tree(self.data, secs as i64))),
            ),
            JobEvent::ClockFailed => self.failing(
                ErrorView::Internal("Failed to get current time"@),
            ),
            JobEvent::Unreadable { reason } => self.failing(self.unreadable(reason@)),
            JobEvent::Failed { error } => self.failing(error@),
        }
    }
}

/// The event can come to a job in that phase.
pub open spec fn awaited(phase: JobPhase, event: JobEvent) -> bool {
    match event {
        JobEvent::Reply { .. } => phase == JobPhase::Reply,
        JobEvent::CompletionOver => phase == JobPhase::Completion,
        JobEvent::Queue { .. } => phase == JobPhase::Queue,
        JobEvent::Paused => phase == JobPhase::Pause,
        JobEvent::History { .. } => phase == JobPhase::History,
        JobEvent::Asset { status, content } => phase == JobPhase::Asset && (is_success(status)
            ==> encodable(content@.len())),
        JobEvent::Clock { .. } | JobEvent::ClockFailed => phase == JobPhase::Clock,
        JobEvent::Unreadable { .. } => phase == JobPhase::Reply || phase == JobPhase::Queue || phase
            == JobPhase::History,
        JobEvent::Failed { .. } => phase == JobPhase::Queue || phase == JobPhase::History || phase
            == JobPhase::Asset,
    }
}

/// The job of a submission whose answer arrived with that status and those headers, before its body
/// was read.
pub open spec fn new_job(
    kind: MediaKind,
    base: Seq<char>,
    headers: Seq<(Seq<char>, Seq<u8>)>,
    reply_status: u16,
    reply_headers: Seq<(Seq<char>, Seq<u8>)>,
    use_ws: bool,
    has_manager: bool,
) -> JobView {
    JobView {
        kind,
        base,
        authorization: first_value(headers, "authorization"@),
        reply_status,
        reply_headers,
        use_ws,
        has_manager,
        phase: JobPhase::Reply,
        prompt_id: None,
        files: Seq::empty(),
        data: Seq::empty(),
    }
}

impl Job {
    #[verifier::type_invariant]
    closed spec fn well_formed(self) -> bool {
        &&& self.phase == JobPhase::Completion || self.phase == JobPhase::Queue || self.phase
            == JobPhase::Pause || self.phase == JobPhase::History ==> self.prompt_id is Some
        &&& self.phase == JobPhase::Asset ==> self.data@.len() < self.files@.len()
    }

    fn start(
        kind: MediaKind,
        base: String,
        headers: &Vec<Header>,
        reply_status: u16,
        reply_headers: Vec<Header>,
        use_ws: bool,
        has_manager: bool,
    ) -> (job: Job)
        ensures
            job@ == new_job(
                kind,
                base@,
                header_views(headers@),
                reply_status,
                header_views(reply_headers@),
                use_ws,
                has_manager,
            ),
    {
        let authorization = match authorization(headers) {
            Some(value) => Some(copy_bytes(value)),
            None => None,
        };
        let job = Job {
            kind,
            base,
            authorization,
            reply_status,
            reply_headers,
            use_ws,
            has_manager,
            phase: JobPhase::Reply,
            prompt_id: None,
            files: Vec::new(),
            data: Vec::new(),
        };
        assert(job@.files =~= Seq::empty());
        assert(job@.data =~= Seq::empty());
        job
    }

    /// The job of a request for images, from the headers of the client's request and the
    /// status and the headers of the backend's answer to the submission.
    pub fn handle_regular_response(
        base: String,
        headers: &Vec<Header>,
        reply_status: u16,
        reply_headers: Vec<Header>,
        use_ws: bool,
        has_manager: bool,
    ) -> (job: Job)
        ensures
            job@ == new_job(
                MediaKind::Image,
                base@,
                header_views(headers@),
                reply_status,
                header_views(reply_headers@),
                use_ws,
                has_manager,
            ),
    {
        Job::start(
            MediaKind::Image,
            base,
            headers,
            reply_status,
            reply_headers,
            use_ws,
            has_manager,
        )
    }

    /// The job of a request for a video, from the headers of the client's request and the
    /// status and the headers of the backend's answer to the submission.
    pub fn handle_video_response(
        base: String,
        headers: &Vec<Header>,
        reply_status: u16,
        reply_headers: Vec<Header>,
        use_ws: bool,
        has_manager: bool,
    ) -> (job: Job)
        ensures
            job@ == new_job(
                MediaKind::Video,
                base@,
                header_views(headers@),
                reply_status,
                header_views(reply_headers@),
                use_ws,
                has_manager,
            ),
    {
        Job::start(
            MediaKind::Video,
            base,
            headers,
            reply_status,
            reply_headers,
            use_ws,
            has_manager,
        )
    }

    /// What the job is waiting for.
    pub fn phase(&self) -> (phase: JobPhase)
        ensures
            phase == self@.phase,
    {
        self.phase
    }

    fn fail(self, error: ProxyError) -> (step: (Job, JobAction))
        ensures
            (step.0@, step.1@) == self@.failing(error@),
    {
        (Job { phase: JobPhase::Over, ..self }, JobAction::Fail { error })
    }

    fn ask_queue(self) -> (step: (Job, JobAction))
        requires
            self@.prompt_id is Some,
        ensures
            (step.0@, step.1@) == self@.asking_queue(),
    {
        let url = "http://".to_owned().concat(self.base.as_str()).concat("/queue");
        let headers = authorization_headers(&self.authorization);
        (Job { phase: JobPhase::Queue, ..self }, JobAction::Fetch {
            url,
            headers,
            limit_secs: Some(FETCH_TIMEOUT_SECS),
        })
    }

    fn fetch_limit(&self) -> (limit: Option<u64>)
        ensures
            limit == self@.fetch_limit(),
    {
        match self.kind {
            MediaKind::Image => Some(FETCH_TIMEOUT_SECS),
            MediaKind::Video => None,
        }
    }

    fn ask_history(self) -> (step: (Job, JobAction))
        ensures
            (step.0@, step.1@) == self@.asking_history(),
    {
        let url = match &self.prompt_id {
            Some(prompt_id) => "http://".to_owned().concat(self.base.as_str()).concat(
                "/history/",
            ).concat(prompt_id.as_str()),
            None => {
                let error = ProxyError::Upstream("No prompt_id received.".to_owned());
                return self.fail(error);
            },
        };
        let headers = authorization_headers(&self.authorization);
        let limit_secs = self.fetch_limit();
        (Job { phase: JobPhase::History, ..self }, JobAction::Fetch { url, headers, limit_secs })
    }

    fn ask_asset(self) -> (step: (Job, JobAction))
        ensures
            (step.0@, step.1@) == self@.asking_asset(),
    {
        let next = self.data.len();
        if next >= self.files.len() {
            return (Job { phase: JobPhase::Clock, ..self }, JobAction::ReadClock);
        }
        assert(self@.files[next as int] == self.files@[next as int]@);
        match view_url(self.base.as_str(), self.kind, &self.files[next]) {
            Ok(url) => {
                let headers = authorization_headers(&self.authorization);
                let limit_secs = self.fetch_limit();
                (Job { phase: JobPhase::Asset, ..self }, JobAction::Fetch {
                    url,
                    headers,
                    limit_secs,
                })
            },
            Err(error) => self.fail(error),
        }
    }

    /// Goes on from the outcome of parsing the answer to the submission.
    pub fn take_reply(self, reply: Result<Json, String>) -> (step: (Job, JobAction))
        ensures
            (step.0@, step.1@) == self@.submitted(parse_view(reply)),
    {
        let reply = match reply {
            Ok(reply) => reply,
            Err(message) => {
                let text = "Failed to parse JSON: ".to_owned().concat(message.as_str());
                return self.fail(ProxyError::Json(text));
            },
        };
        let prompt_id = match reply.text_at("prompt_id") {
            Some(prompt_id) => prompt_id.to_owned(),
            None => {
                let job = Job { phase: JobPhase::Reply, prompt_id: None, ..self };
                return job.ask_history();
            },
        };
        let awaited = prompt_id.clone();
        let job = Job { phase: JobPhase::Reply, prompt_id: Some(prompt_id), ..self };
        if !job.use_ws {
            job.ask_queue()
        } else if job.has_manager {
            (Job { phase: JobPhase::Completion, ..job }, JobAction::AwaitCompletion {
                prompt_id: awaited,
                timeout_secs: COMPLETION_TIMEOUT_SECS,
            })
        } else {
            job.ask_history()
        }
    }

    /// Goes on from what the queue says of the job.
    pub fn take_queue(self, finished: Result<bool, ProxyError>) -> (step: (Job, JobAction))
        requires
            self@.phase == JobPhase::Queue,
        ensures
            (step.0@, step.1@) == self@.queue_seen(finished_view(finished)),
    {
        proof {
            use_type_invariant(&self);
        }
        match finished {
            Ok(true) => self.ask_history(),
            Ok(false) => (Job { phase: JobPhase::Pause, ..self }, JobAction::Pause {
                millis: QUEUE_INTERVAL_MILLIS,
            }),
            Err(error) => self.fail(error),
        }
    }

    /// Goes on from the status of the history's answer and the outcome of parsing it.
    pub fn take_history(self, status: u16, history: Result<Json, String>) -> (step: (
        Job,
        JobAction,
    ))
        requires
            self@.phase == JobPhase::History,
        ensures
            (step.0@, step.1@) == self@.history_seen(status, parse_view(history)),
    {
        proof {
            use_type_invariant(&self);
        }
        let history = match history {
            Ok(history) => history,
            Err(message) => {
                let text = "Failed to parse history JSON: ".to_owned().concat(message.as_str());
                return self.fail(ProxyError::Json(text));
            },
        };
        let files = match &self.prompt_id {
            Some(prompt_id) => list_files(&history, prompt_id.as_str(), self.kind),
            None => Ok(Vec::new()),
        };
        match files {
            Ok(files) => {
                if self.kind == MediaKind::Image && !succeeded(status) {
                    return self.fail(refused("Failed to look up history", status));
                }
                let data: Vec<Json> = Vec::new();
                assert(trees(data@) =~= Seq::empty());
                Job { files, data, ..self }.ask_asset()
            },
            Err(error) => self.fail(error),
        }
    }

    /// Goes on from the content of a file.
    pub fn take_asset(self, content: &Vec<u8>) -> (step: (Job, JobAction))
        requires
            self@.phase == JobPhase::Asset,
            encodable(content@.len()),
        ensures
            (step.0@, step.1@) == self@.asset_fetched(content@),
    {
        proof {
            use_type_invariant(&self);
        }
        let ghost before = self@.data;
        let next = self.data.len();
        assert(self@.files[next as int] == self.files@[next as int]@);
        let entry = encode_asset(self.files[next].filename.as_str(), self.kind, content);
        let ghost shown = entry.tree();
        let mut data = self.data;
        data.push(entry);
        assert(trees(data@) =~= before.push(shown));
        Job { phase: JobPhase::Clock, data, ..self }.ask_asset()
    }

    /// Goes on from the outcome of rendering the answer to the client.
    pub fn take_answer(self, body: Result<Vec<u8>, String>) -> (step: (Job, JobAction))
        ensures
            (step.0@, step.1@) == self@.answered(render_view(body)),
    {
        match body {
            Ok(body) => {
                let headers = response_headers(&self.reply_headers, body.len());
                let status = self.reply_status;
                (Job { phase: JobPhase::Over, ..self }, JobAction::Respond {
                    status,
                    headers,
                    body,
                })
            },
            Err(message) => {
                let text = "Failed to serialize JSON: ".to_owned().concat(message.as_str());
                self.fail(ProxyError::Json(text))
            },
        }
    }

    fn take_clock(self, secs: u64) -> (step: (Job, JobAction))
        ensures
            (step.0@, step.1@) == (JobView { data: Seq::empty(), ..self@ }).answered(
                Ok(rendered(answer_tree(self@.data, secs as i64))),
            ),
    {
        let body = render(&answer(self.data, secs as i64));
        let data: Vec<Json> = Vec::new();
        assert(trees(data@) =~= Seq::empty());
        Job { phase: JobPhase::Clock, data, ..self }.take_answer(body)
    }

    /// One step of a job: takes in what happened and says what is to be done next.
    pub fn step(self, event: JobEvent) -> (step: (Job, JobAction))
        requires
            awaited(self@.phase, event),
        ensures
            (step.0@, step.1@) == self@.after(event),
    {
        proof {
            use_type_invariant(&self);
        }
        match event {
            JobEvent::Reply { body } => self.take_reply(parse_bytes(body.as_slice())),
            JobEvent::CompletionOver => self.ask_history(),
            JobEvent::Queue { status, body } => {
                let finished = match &self.prompt_id {
                    Some(prompt_id) => check_queue(Some(prompt_id.as_str()), status, &body),
                    None => check_queue(None, status, &body),
                };
                self.take_queue(finished)
            },
            JobEvent::Paused => self.ask_queue(),
            JobEvent::History { status, body } => {
                self.take_history(status, parse_bytes(body.as_slice()))
            },
            JobEvent::Asset { status, content } => {
                if succeeded(status) {
                    self.take_asset(&content)
                } else {
                    let what = match self.kind {
                        MediaKind::Image => "Failed to retrieve ".to_owned().concat("image"),
                        MediaKind::Video => "Failed to retrieve ".to_owned().concat("video"),
                    };
                    self.fail(refused(what.as_str(), status))
                }
            },
            JobEvent::Clock { secs } => self.take_clock(secs),
            JobEvent::ClockFailed => {
                self.fail(ProxyError::Internal("Failed to get current time".to_owned()))
            },
            JobEvent::Unreadable { reason } => {
                let what = match self.phase {
                    JobPhase::Queue => "Failed to read queue response body: ",
                    JobPhase::History => "Failed to read history response body: ",
                    _ => "Failed to read response body: ",
                };
                self.fail(ProxyError::Upstream(what.to_owned().concat(reason.as_str())))
            },
            JobEvent::Failed { error } => self.fail(error),
        }
    }
}

/// Whatever happens to a job, everything that it fetches carries the authorization of the client
/// and no other header.
pub proof fn every_fetch_is_authorized(job: JobView, event: JobEvent)
    ensures
        job.after(event).0.authorization == job.authorization,
        job.after(event).1 matches JobActionView::Fetch { headers, .. } ==> headers
            == authorization_map(job.authorization),
{
}

/// Whatever happens to a job, it stays a job of its kind at its backend.
pub proof fn job_keeps_its_terms(job: JobView, event: JobEvent)
    ensures
        ({
            let next = job.after(event).0;
            &&& next.kind == job.kind
            &&& next.base == job.base
            &&& next.reply_status == job.reply_status
            &&& next.reply_headers == job.reply_headers
            &&& next.use_ws == job.use_ws
            &&& next.has_manager == job.has_manager
        }),
{
}

/// A job looks at its history only once it is known to have left the queue, once the wait for its
/// completion is over, or where there is a WebSocket to be and none is there.
pub proof fn history_waits_for_completion(job: JobView, event: JobEvent)
    requires
        awaited(job.phase, event),
        job.after(event).0.phase == JobPhase::History,
    ensures
        match event {
            JobEvent::CompletionOver => true,
            JobEvent::Queue { status, body } => is_success(status) && (parsed_bytes(
                body@,
            ) matches Ok(queues) && left_queue(queues, job.prompt_id->0)),
            JobEvent::Reply { .. } => job.use_ws && !job.has_manager,
            _ => false,
        },
{
}

/// A job that is still in the queue looks at the queue again after a pause.
pub proof fn queued_job_waits(job: JobView, status: u16, body: Vec<u8>, prompt_id: Seq<char>)
    requires
        job.prompt_id == Some(prompt_id),
        is_success(status),
        parsed_bytes(body@) matches Ok(queues) && !left_queue(queues, prompt_id),
    ensures
        ({
            let (paused, pause) = job.after(JobEvent::Queue { status, body });
            let (asking, question) = paused.after(JobEvent::Paused);
            &&& pause == (JobActionView::Pause { millis: QUEUE_INTERVAL_MILLIS })
            &&& asking == job.at(JobPhase::Queue)
            &&& question == job.asking_queue().1
        }),
{
}

/// A job is over exactly when the client is answered or told that it failed.
pub proof fn job_ends_with_an_answer(job: JobView, event: JobEvent)
    ensures
        job.after(event).0.phase == JobPhase::Over <==> (job.after(event).1 is Respond
            || job.after(event).1 is Fail),
{
}

/// An answer of the queue, of the history of an image job or for a file that is no success ends
/// the job with an error: no job counts as finished for it, and no error page is handed on as a
/// file.
pub proof fn refused_fetch_ends_the_job(job: JobView, event: JobEvent)
    requires
        match event {
            JobEvent::Queue { status, .. } => !is_success(status),
            JobEvent::History { status, .. } => job.kind == MediaKind::Image && !is_success(status),
            JobEvent::Asset { status, .. } => !is_success(status),
            _ => false,
        },
    ensures
        job.after(event).0 == job.at(JobPhase::Over),
        job.after(event).1 is Fail,
{
}

/// Of the history of a video job only the body counts, whatever status it came with.
pub proof fn video_history_counts_by_its_body(job: JobView, one: u16, other: u16, body: Vec<u8>)
    requires
        job.kind == MediaKind::Video,
    ensures
        job.after(JobEvent::History { status: one, body }) == job.after(
            JobEvent::History { status: other, body },
        ),
{
}

/// The client is answered with the status that the submission was answered with.
pub proof fn answer_has_the_status_of_the_submission(job: JobView, event: JobEvent)
    ensures
        job.after(event).1 matches JobActionView::Respond { status, .. } ==> status
            == job.reply_status,
{
}

/// Where something cannot be fetched the job fails for that very reason.
pub proof fn failure_is_passed_on(job: JobView, error: ProxyError)
    ensures
        job.after(JobEvent::Failed { error }) == (
            job.at(JobPhase::Over),
            JobActionView::Fail { error: error@ },
        ),
{
}

/// A submission that came back without an identifier fails, whatever the WebSocket and the queue
/// would say.
pub proof fn job_without_identifier_fails(job: JobView, body: Vec<u8>)
    requires
        parsed_bytes(body@) matches Ok(reply) && reply.text_at("prompt_id"@) is None,
    ensures
        job.after(JobEvent::Reply { body }).1 == (JobActionView::Fail {
            error: ErrorView::Upstream("No prompt_id received."@),
        }),
{
}

/// The job after files of those contents were fetched, one after the other.
pub open spec fn after_assets(job: JobView, contents: Seq<Seq<u8>>) -> JobView
    decreases contents.len(),
{
    if contents.len() == 0 {
        job
    } else {
        after_assets(job, contents.drop_last()).asset_fetched(contents.last()).0
    }
}

/// What the client gets for files of those contents.
pub open spec fn entries_of(
    files: Seq<FileView>,
    kind: MediaKind,
    contents: Seq<Seq<u8>>,
) -> Seq<JsonTree> {
    Seq::new(contents.len(), |i: int| entry_of(files[i].filename, kind, contents[i]))
}

/// The client gets one entry for each file that was fetched, in the order of the files, each with
/// the content that the backend gave for it.
pub proof fn entries_follow_the_files(job: JobView, contents: Seq<Seq<u8>>)
    requires
        job.data.len() == 0,
        contents.len() <= job.files.len(),
    ensures
        after_assets(job, contents).data == entries_of(job.files, job.kind, contents),
        after_assets(job, contents).files == job.files,
        after_assets(job, contents).kind == job.kind,
    decreases contents.len(),
{
    if contents.len() == 0 {
        assert(job.data =~= entries_of(job.files, job.kind, contents));
    } else {
        let front = contents.drop_last();
        entries_follow_the_files(job, front);
        assert(entries_of(job.files, job.kind, contents) =~= entries_of(
            job.files,
            job.kind,
            front,
        ).push(entry_of(job.files[front.len() as int].filename, job.kind, contents.last())));
    }
}

/// Once the history lists the files of a job and every one of them was fetched, the time of day
/// completes the answer: one entry for each file, in their order, with the content that was
/// fetched for it, under the status of the submission and headers that state its length.
pub proof fn finished_job_is_answered(
    job: JobView,
    prompt_id: Seq<char>,
    status: u16,
    body: Vec<u8>,
    history: JsonTree,
    files: Seq<FileView>,
    contents: Seq<Seq<u8>>,
    secs: u64,
)
    requires
        job.prompt_id == Some(prompt_id),
        is_success(status) || job.kind == MediaKind::Video,
        parsed_bytes(body@) == Ok::<JsonTree, Seq<char>>(history),
        listed_files(history, prompt_id, job.kind) == Ok::<Seq<FileView>, ErrorView>(files),
        contents.len() == files.len(),
    ensures
        ({
            let listed = job.after(JobEvent::History { status, body }).0;
            let fetched = after_assets(listed, contents);
            let answer = rendered(
                answer_tree(entries_of(files, job.kind, contents), secs as i64),
            );
            &&& fetched.phase == JobPhase::Clock
            &&& fetched.after(JobEvent::Clock { secs }).1 == (JobActionView::Respond {
                status: job.reply_status,
                headers: answer_headers(job.reply_headers, answer.len()),
                body: answer,
            })
        }),
{
    let listed = job.after(JobEvent::History { status, body }).0;
    entries_follow_the_files(listed, contents);
    assets_keep_the_reply(listed, contents);
    if contents.len() > 0 {
        entries_follow_the_files(listed, contents.drop_last());
    }
}

proof fn assets_keep_the_reply(job: JobView, contents: Seq<Seq<u8>>)
    ensures
        after_assets(job, contents).reply_status == job.reply_status,
        after_assets(job, contents).reply_headers == job.reply_headers,
    decreases contents.len(),
{
    if contents.len() > 0 {
        assets_keep_the_reply(job, contents.drop_last());
    }
}

/// While files are left, each one that was fetched leads to a request for the next, and the last
/// one to the time of day.
pub proof fn files_are_fetched_in_turn(job: JobView, content: Seq<u8>)
    requires
        job.data.len() < job.files.len(),
    ensures
        ({
            let (next, action) = job.asset_fetched(content);
            let fetched = job.data.len() + 1;
            &&& next.data.len() == fetched
            &&& fetched == job.files.len() ==> next.phase == JobPhase::Clock && action is ReadClock
            &&& fetched < job.files.len() ==> next.phase == JobPhase::Asset && action == (
            JobActionView::Fetch {
                url: "http://"@ + job.base + "/view?"@ + form_encoded(
                    view_pairs(job.files[fetched as int]),
                ),
                headers: authorization_map(job.authorization),
                limit_secs: job.fetch_limit(),
            })
        }),
{
}

} // verus!
