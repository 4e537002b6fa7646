//! The transfer worker: one job at a time, from the front of the queue.
//!
//! The worker is a state machine. Each call of `step` takes the outcome of the
//! last action (an `Event`) and returns the next `Action` for the caller to
//! perform: edit a status message, sleep, ask the transport for a file's path,
//! send an HTTP request, or stream bytes to a file. The queue is touched only
//! inside `step`, never while an action is in flight.

use vstd::prelude::*;
use crate::naming::{file_name_from_response, final_name_of, generate_final_file_name, response_name_of};
use crate::paths::{folder_and_file_name_of, get_folder_and_file_name};
use crate::queue::{FileQueue, FileQueueItem, MessageRef};
use crate::text::{chars_of, decimal, push_all, push_decimal, string_of};

verus! {

/// Attempts made at the "processing" edit and at fetching a file's path.
pub const MAX_ATTEMPTS: u32 = 3;

/// Seconds between two attempts at fetching a file's path.
pub const FILE_INFO_RETRY_SECONDS: u64 = 5;

/// Where the worker stands.
#[derive(Debug)]
pub enum Phase {
    /// Waiting for a wake-up.
    Idle,
    /// The "processing" edit of the current job is in flight.
    Announcing { attempt: u32 },
    /// Sleeping before the next "processing" edit.
    AnnounceBackoff { attempt: u32 },
    /// The transport is asked for the path and size of the current job's file.
    Resolving { attempt: u32 },
    /// Sleeping before asking for the path again.
    ResolveBackoff { attempt: u32 },
    /// The HTTP request of the current job is in flight.
    Fetching,
    /// Bytes are being written to the named file.
    Saving { file_name: String },
    /// The edit that reports the link is in flight.
    Completing,
    /// The edit that tells the new head how many jobs remain is in flight.
    Advancing,
}

/// What the caller is to do next.
#[derive(Debug)]
pub enum Action {
    /// Wait for the next wake-up, then report `Event::Signal`.
    WaitForSignal,
    /// Edit a status message (as HTML when `html`); report `EditOk` or `EditFailed`.
    EditStatus { target: MessageRef, text: String, html: bool },
    /// Sleep, then report `Slept`.
    Sleep { seconds: u64 },
    /// Ask the transport for a file's path and size; report `FileInfo` or `FileInfoFailed`.
    GetFileInfo { file_id: String },
    /// Send an HTTP GET; report `Response` or `RequestFailed`.
    HttpGet { url: String },
    /// Stream the transport's file at `remote_path` into `files/<file_name>`;
    /// report `Saved` or `SaveFailed`.
    Download { remote_path: String, file_name: String, total: u64 },
    /// Stream the body of the response just received into `files/<save_name>`;
    /// report `Saved` or `SaveFailed`.
    SaveResponse { save_name: String },
    /// The event did not fit the worker's state; nothing changed.
    Nothing,
}

/// The outcome of the last action.
#[derive(Debug)]
pub enum Event {
    Signal,
    EditOk,
    EditFailed,
    Slept,
    /// The file's path and size; `token` is a fresh token from `new_token`.
    FileInfo { path: String, size: u64, token: String },
    FileInfoFailed,
    /// The response's `Content-Disposition` value, if it has one readable as text;
    /// `token` is a fresh token from `new_token`.
    Response { content_disposition: Option<String>, token: String },
    RequestFailed,
    Saved { bytes: u64 },
    SaveFailed,
}

/// The worker: its phase, the job in work, and the prefix of the links it reports.
#[derive(Debug)]
pub struct TransferWorker {
    pub phase: Phase,
    pub current: Option<FileQueueItem>,
    pub domain: String,
}

/// The text of the "processing" edit.
pub open spec fn processing_text() -> Seq<char> {
    "Processing file..."@
}

/// The text that tells the new head how many jobs remain.
pub open spec fn remaining_text(n: nat) -> Seq<char> {
    "File processed. Remaining files in queue: "@ + decimal(n)
}

/// The text that reports a finished job: its size and an HTML link to the file.
pub open spec fn completion_text(size: nat, domain: Seq<char>, name: Seq<char>) -> Seq<char> {
    "Downloaded. Size: "@ + decimal(size) + " bytes\n\n<b><a href=\""@ + domain + name + "\">"@
        + domain + name + "</a></b>"@
}

/// `2^n`.
pub open spec fn pow2(n: nat) -> nat
    decreases n,
{
    if n == 0 {
        1
    } else {
        2 * pow2((n - 1) as nat)
    }
}

/// Seconds to sleep after the failed "processing" edit number `attempt`: `2^(attempt-1)`.
pub open spec fn backoff_seconds(attempt: nat) -> nat {
    pow2((attempt - 1) as nat)
}

/// `a` edits `target` to read `text`.
pub open spec fn is_edit(a: Action, target: MessageRef, text: Seq<char>, html: bool) -> bool {
    a matches Action::EditStatus { target: t, text: x, html: h } && t == target && x@ == text && h
        == html
}

impl TransferWorker {
    /// The phase and the job in work agree.
    pub open spec fn wf(&self) -> bool {
        match self.phase {
            Phase::Idle => self.current is None,
            Phase::Advancing => self.current is None,
            Phase::Announcing { attempt } => self.current is Some && 1 <= attempt <= MAX_ATTEMPTS,
            Phase::AnnounceBackoff { attempt } => self.current is Some && 1 <= attempt
                < MAX_ATTEMPTS,
            Phase::Resolving { attempt } => self.current matches Some(c) && c.url is None
                && c.file_id is Some && 1 <= attempt <= MAX_ATTEMPTS,
            Phase::ResolveBackoff { attempt } => self.current matches Some(c) && c.url is None
                && c.file_id is Some && 1 <= attempt < MAX_ATTEMPTS,
            Phase::Fetching => self.current matches Some(c) && c.url is Some,
            Phase::Saving { .. } => self.current is Some,
            Phase::Completing => self.current is Some,
        }
    }

    /// A worker that waits for its first wake-up.
    pub fn new(domain: String) -> (r: Self)
        ensures
            r.wf(),
            r.phase is Idle,
            r.current is None,
            r.domain == domain,
    {
        TransferWorker { phase: Phase::Idle, current: None, domain }
    }
}

/// `w2` works on the head of `q` and announces it, or waits when `q` is empty.
pub open spec fn started(q: Seq<FileQueueItem>, w2: TransferWorker, a: Action) -> bool {
    if q.len() == 0 {
        w2.phase is Idle && w2.current is None && a is WaitForSignal
    } else {
        w2.phase == (Phase::Announcing { attempt: 1 }) && w2.current == Some(q[0]) && is_edit(
            a,
            q[0].queue_message,
            processing_text(),
            false,
        )
    }
}

/// The head of `q` is removed; the new head, if any, is told how many jobs remain.
pub open spec fn advanced(
    q: Seq<FileQueueItem>,
    w2: TransferWorker,
    q2: Seq<FileQueueItem>,
    a: Action,
) -> bool {
    &&& q2 == (if q.len() > 0 {
        q.drop_first()
    } else {
        q
    })
    &&& w2.current is None
    &&& if q2.len() > 0 {
        w2.phase is Advancing && is_edit(a, q2[0].queue_message, remaining_text(q2.len()), false)
    } else {
        w2.phase is Idle && a is WaitForSignal
    }
}

/// The transfer of `c` begins: a URL is requested, a transport file's path is asked
/// for; a job with neither fails at once and the queue advances.
pub open spec fn transfer_begun(
    c: FileQueueItem,
    q: Seq<FileQueueItem>,
    w2: TransferWorker,
    q2: Seq<FileQueueItem>,
    a: Action,
) -> bool {
    match c.url {
        Some(u) => w2.phase is Fetching && w2.current == Some(c) && q2 == q && (a matches Action::HttpGet {
            url,
        } && url@ == u@),
        None => match c.file_id {
            Some(id) => w2.phase == (Phase::Resolving { attempt: 1 }) && w2.current == Some(c) && q2
                == q && (a matches Action::GetFileInfo { file_id } && file_id@ == id@),
            None => advanced(q, w2, q2, a),
        },
    }
}

/// `w2` and `q` stay as `w` and `q` were, but for the phase.
pub open spec fn same_job(
    w: TransferWorker,
    q: Seq<FileQueueItem>,
    w2: TransferWorker,
    q2: Seq<FileQueueItem>,
) -> bool {
    w2.current == w.current && q2 == q
}

/// What one step does, for each phase and event. Events that do not fit the phase
/// change nothing.
pub open spec fn step_rel(
    w: TransferWorker,
    q: Seq<FileQueueItem>,
    e: Event,
    w2: TransferWorker,
    q2: Seq<FileQueueItem>,
    a: Action,
) -> bool {
    let c = w.current->0;
    w2.domain == w.domain && match (w.phase, e) {
        (Phase::Idle, Event::Signal) => q2 == q && started(q, w2, a),
        (Phase::Announcing { attempt }, Event::EditOk) => transfer_begun(c, q, w2, q2, a),
        (Phase::Announcing { attempt }, Event::EditFailed) => if attempt < MAX_ATTEMPTS {
            same_job(w, q, w2, q2) && w2.phase == (Phase::AnnounceBackoff { attempt })
                && (a matches Action::Sleep { seconds } && seconds == backoff_seconds(
                attempt as nat,
            ))
        } else {
            transfer_begun(c, q, w2, q2, a)
        },
        (Phase::AnnounceBackoff { attempt }, Event::Slept) => same_job(w, q, w2, q2) && w2.phase
            == (Phase::Announcing { attempt: (attempt + 1) as u32 }) && is_edit(
            a,
            c.queue_message,
            processing_text(),
            false,
        ),
        (Phase::Resolving { attempt }, Event::FileInfo { path, size, token }) => match (
            final_name_of(token@, c.file_name, path@),
            folder_and_file_name_of(path@),
        ) {
            (Some(n), Some(rp)) => same_job(w, q, w2, q2) && (w2.phase matches Phase::Saving {
                file_name,
            } && file_name@ == n) && (a matches Action::Download { remote_path, file_name, total }
                && remote_path@ == rp && file_name@ == n && total == size),
            _ => advanced(q, w2, q2, a),
        },
        (Phase::Resolving { attempt }, Event::FileInfoFailed) => if attempt < MAX_ATTEMPTS {
            same_job(w, q, w2, q2) && w2.phase == (Phase::ResolveBackoff { attempt }) && (
            a matches Action::Sleep { seconds } && seconds == FILE_INFO_RETRY_SECONDS)
        } else {
            advanced(q, w2, q2, a)
        },
        (Phase::ResolveBackoff { attempt }, Event::Slept) => same_job(w, q, w2, q2) && w2.phase
            == (Phase::Resolving { attempt: (attempt + 1) as u32 }) && (a matches Action::GetFileInfo {
            file_id,
        } && c.file_id == Some(file_id)),
        (Phase::Fetching, Event::Response { content_disposition, token }) => match response_name_of(
            content_disposition,
            c.url->0@,
        ) {
            Some(base) => match final_name_of(token@, c.file_name, base) {
                Some(n) => same_job(w, q, w2, q2) && (w2.phase matches Phase::Saving { file_name }
                    && file_name@ == n) && (a matches Action::SaveResponse { save_name } && save_name@
                    == n),
                None => advanced(q, w2, q2, a),
            },
            None => advanced(q, w2, q2, a),
        },
        (Phase::Fetching, Event::RequestFailed) => advanced(q, w2, q2, a),
        (Phase::Saving { file_name }, Event::Saved { bytes }) => same_job(w, q, w2, q2)
            && w2.phase is Completing && is_edit(
            a,
            c.queue_message,
            completion_text(bytes as nat, w.domain@, file_name@),
            true,
        ),
        (Phase::Saving { .. }, Event::SaveFailed) => advanced(q, w2, q2, a),
        (Phase::Completing, Event::EditOk) => advanced(q, w2, q2, a),
        (Phase::Completing, Event::EditFailed) => advanced(q, w2, q2, a),
        (Phase::Advancing, Event::EditOk) => q2 == q && started(q, w2, a),
        (Phase::Advancing, Event::EditFailed) => q2 == q && started(q, w2, a),
        _ => w2 == w && q2 == q && a is Nothing,
    }
}

} // verus!

verus! {

/// The text of the "processing" edit.
pub fn processing_message() -> (r: String)
    ensures
        r@ == processing_text(),
{
    String::from_str("Processing file...")
}

/// The text that tells the new head how many jobs remain.
pub fn remaining_message(n: usize) -> (r: String)
    ensures
        r@ == remaining_text(n as nat),
{
    let mut out = chars_of("File processed. Remaining files in queue: ");
    push_decimal(&mut out, n as u64);
    string_of(&out)
}

/// The text that reports a finished job.
pub fn completion_message(size: u64, domain: &String, name: &String) -> (r: String)
    ensures
        r@ == completion_text(size as nat, domain@, name@),
{
    let d = chars_of(domain.as_str());
    let n = chars_of(name.as_str());
    let mut out = chars_of("Downloaded. Size: ");
    push_decimal(&mut out, size);
    let mid = chars_of(" bytes\n\n<b><a href=\"");
    push_all(&mut out, &mid);
    push_all(&mut out, &d);
    push_all(&mut out, &n);
    let close = chars_of("\">");
    push_all(&mut out, &close);
    push_all(&mut out, &d);
    push_all(&mut out, &n);
    let end = chars_of("</a></b>");
    push_all(&mut out, &end);
    string_of(&out)
}

/// Seconds to sleep after a failed "processing" edit.
pub fn backoff(attempt: u32) -> (r: u64)
    requires
        1 <= attempt < MAX_ATTEMPTS,
    ensures
        r == backoff_seconds(attempt as nat),
{
    assert(pow2(1) == 2 * pow2(0));
    if attempt == 1 {
        1
    } else {
        2
    }
}

impl TransferWorker {
    fn start_next(&mut self, queue: &FileQueue) -> (a: Action)
        ensures
            started(queue@, *final(self), a),
            final(self).domain == old(self).domain,
    {
        match queue.peek_front() {
            None => {
                self.phase = Phase::Idle;
                self.current = None;
                Action::WaitForSignal
            },
            Some(head) => {
                let item = head.duplicate();
                let target = item.queue_message;
                self.phase = Phase::Announcing { attempt: 1 };
                self.current = Some(item);
                Action::EditStatus { target, text: processing_message(), html: false }
            },
        }
    }

    fn advance(&mut self, queue: &mut FileQueue) -> (a: Action)
        ensures
            advanced(old(queue)@, *final(self), final(queue)@, a),
            final(self).domain == old(self).domain,
    {
        queue.pop_front();
        self.current = None;
        match queue.peek_front() {
            None => {
                self.phase = Phase::Idle;
                Action::WaitForSignal
            },
            Some(head) => {
                let target = head.queue_message;
                let n = queue.len();
                self.phase = Phase::Advancing;
                Action::EditStatus { target, text: remaining_message(n), html: false }
            },
        }
    }

    fn begin_transfer(&mut self, queue: &mut FileQueue, c: FileQueueItem) -> (a: Action)
        ensures
            transfer_begun(c, old(queue)@, *final(self), final(queue)@, a),
            final(self).domain == old(self).domain,
    {
        match &c.url {
            Some(u) => {
                let url = u.clone();
                self.current = Some(c);
                self.phase = Phase::Fetching;
                Action::HttpGet { url }
            },
            None => match &c.file_id {
                Some(id) => {
                    let file_id = id.clone();
                    self.current = Some(c);
                    self.phase = Phase::Resolving { attempt: 1 };
                    Action::GetFileInfo { file_id }
                },
                None => self.advance(queue),
            },
        }
    }

    /// Takes the outcome of the last action and returns the next one.
    pub fn step(&mut self, queue: &mut FileQueue, event: Event) -> (a: Action)
        requires
            old(self).wf(),
        ensures
            final(self).wf(),
            step_rel(*old(self), old(queue)@, event, *final(self), final(queue)@, a),
    {
        match event {
            Event::Signal => {
                if matches!(self.phase, Phase::Idle) {
                    self.start_next(queue)
                } else {
                    Action::Nothing
                }
            },
            Event::EditOk => {
                if matches!(self.phase, Phase::Announcing { .. }) {
                    let c = match &self.current {
                        Some(c) => c.duplicate(),
                        None => {
                            return Action::Nothing;
                        },
                    };
                    self.begin_transfer(queue, c)
                } else if matches!(self.phase, Phase::Completing) {
                    self.advance(queue)
                } else if matches!(self.phase, Phase::Advancing) {
                    self.start_next(queue)
                } else {
                    Action::Nothing
                }
            },
            Event::EditFailed => {
                if let Phase::Announcing { attempt } = self.phase {
                    if attempt < MAX_ATTEMPTS {
                        self.phase = Phase::AnnounceBackoff { attempt };
                        Action::Sleep { seconds: backoff(attempt) }
                    } else {
                        let c = match &self.current {
                            Some(c) => c.duplicate(),
                            None => {
                                return Action::Nothing;
                            },
                        };
                        self.begin_transfer(queue, c)
                    }
                } else if matches!(self.phase, Phase::Completing) {
                    self.advance(queue)
                } else if matches!(self.phase, Phase::Advancing) {
                    self.start_next(queue)
                } else {
                    Action::Nothing
                }
            },
            Event::Slept => {
                if let Phase::AnnounceBackoff { attempt } = self.phase {
                    let target = match &self.current {
                        Some(c) => c.queue_message,
                        None => {
                            return Action::Nothing;
                        },
                    };
                    self.phase = Phase::Announcing { attempt: attempt + 1 };
                    Action::EditStatus { target, text: processing_message(), html: false }
                } else if let Phase::ResolveBackoff { attempt } = self.phase {
                    let file_id = match &self.current {
                        Some(c) => match &c.file_id {
                            Some(id) => id.clone(),
                            None => {
                                return Action::Nothing;
                            },
                        },
                        None => {
                            return Action::Nothing;
                        },
                    };
                    self.phase = Phase::Resolving { attempt: attempt + 1 };
                    Action::GetFileInfo { file_id }
                } else {
                    Action::Nothing
                }
            },
            Event::FileInfo { path, size, token } => {
                if matches!(self.phase, Phase::Resolving { .. }) {
                    let (name, remote) = match &self.current {
                        Some(c) => (
                            generate_final_file_name(c, token.as_str(), path.as_str()),
                            get_folder_and_file_name(path.as_str()),
                        ),
                        None => {
                            return Action::Nothing;
                        },
                    };
                    match (name, remote) {
                        (Some(n), Some(rp)) => {
                            self.phase = Phase::Saving { file_name: n.clone() };
                            Action::Download { remote_path: rp, file_name: n, total: size }
                        },
                        _ => self.advance(queue),
                    }
                } else {
                    Action::Nothing
                }
            },
            Event::FileInfoFailed => {
                if let Phase::Resolving { attempt } = self.phase {
                    if attempt < MAX_ATTEMPTS {
                        self.phase = Phase::ResolveBackoff { attempt };
                        Action::Sleep { seconds: FILE_INFO_RETRY_SECONDS }
                    } else {
                        self.advance(queue)
                    }
                } else {
                    Action::Nothing
                }
            },
            Event::Response { content_disposition, token } => {
                if matches!(self.phase, Phase::Fetching) {
                    let name = match &self.current {
                        Some(c) => match &c.url {
                            Some(u) => match file_name_from_response(
                                &content_disposition,
                                u.as_str(),
                            ) {
                                Some(base) => generate_final_file_name(
                                    c,
                                    token.as_str(),
                                    base.as_str(),
                                ),
                                None => None,
                            },
                            None => {
                                return Action::Nothing;
                            },
                        },
                        None => {
                            return Action::Nothing;
                        },
                    };
                    match name {
                        Some(n) => {
                            self.phase = Phase::Saving { file_name: n.clone() };
                            Action::SaveResponse { save_name: n }
                        },
                        None => self.advance(queue),
                    }
                } else {
                    Action::Nothing
                }
            },
            Event::RequestFailed => {
                if matches!(self.phase, Phase::Fetching) {
                    self.advance(queue)
                } else {
                    Action::Nothing
                }
            },
            Event::Saved { bytes } => {
                let text = match &self.phase {
                    Phase::Saving { file_name } => completion_message(
                        bytes,
                        &self.domain,
                        file_name,
                    ),
                    _ => {
                        return Action::Nothing;
                    },
                };
                let target = match &self.current {
                    Some(c) => c.queue_message,
                    None => {
                        return Action::Nothing;
                    },
                };
                self.phase = Phase::Completing;
                Action::EditStatus { target, text, html: true }
            },
            Event::SaveFailed => {
                if matches!(self.phase, Phase::Saving { .. }) {
                    self.advance(queue)
                } else {
                    Action::Nothing
                }
            },
        }
    }
}

} // verus!

verus! {

/// The job in work, if any, is the head of the queue.
pub open spec fn in_work_at_head(w: TransferWorker, q: Seq<FileQueueItem>) -> bool {
    w.current matches Some(c) ==> q.len() > 0 && q[0] == c
}

/// A failed transfer (the stream broke, the request failed, or the file's path could
/// not be had at the last attempt) still advances the queue: its length drops by
/// exactly one, and the new head, if any, is told how many jobs remain.
pub proof fn lemma_failure_advances(
    w: TransferWorker,
    q: Seq<FileQueueItem>,
    e: Event,
    w2: TransferWorker,
    q2: Seq<FileQueueItem>,
    a: Action,
)
    requires
        w.wf(),
        q.len() > 0,
        step_rel(w, q, e, w2, q2, a),
        (w.phase is Saving && e is SaveFailed) || (w.phase is Fetching && e is RequestFailed) || (
        w.phase == (Phase::Resolving { attempt: MAX_ATTEMPTS }) && e is FileInfoFailed),
    ensures
        q2 == q.drop_first(),
        q2.len() == q.len() - 1,
        q2.len() > 0 ==> is_edit(a, q2[0].queue_message, remaining_text(q2.len()), false),
        q2.len() == 0 ==> a is WaitForSignal,
{
}

/// The queue only ever loses its head, and only the job in work: jobs are taken in
/// the order they were enqueued, one at a time, and none is dropped or repeated.
/// Enqueueing at the back keeps the job in work at the head.
pub proof fn lemma_fifo_single_flight(
    w: TransferWorker,
    q: Seq<FileQueueItem>,
    e: Event,
    w2: TransferWorker,
    q2: Seq<FileQueueItem>,
    a: Action,
    later: FileQueueItem,
)
    requires
        w.wf(),
        in_work_at_head(w, q),
        step_rel(w, q, e, w2, q2, a),
    ensures
        q2 == q || (q.len() > 0 && q2 == q.drop_first() && w.current == Some(q[0])),
        in_work_at_head(w2, q2),
        in_work_at_head(w2, q2.push(later)),
{
}

/// How far the job in work has to go; 0 when no job is in work.
pub open spec fn stage(w: TransferWorker) -> nat {
    match w.phase {
        Phase::Announcing { .. } => 4,
        Phase::AnnounceBackoff { .. } => 4,
        Phase::Resolving { .. } => 3,
        Phase::ResolveBackoff { .. } => 3,
        Phase::Fetching => 3,
        Phase::Saving { .. } => 2,
        Phase::Completing => 1,
        _ => 0,
    }
}

/// The outcome that a transport that never fails reports for the phase's action.
pub open spec fn is_success(phase: Phase, e: Event) -> bool {
    match phase {
        Phase::Announcing { .. } => e is EditOk,
        Phase::Resolving { .. } => e is FileInfo,
        Phase::Fetching => e is Response,
        Phase::Saving { .. } => e is Saved,
        Phase::Completing => e is EditOk,
        _ => false,
    }
}

/// Under a transport that never fails, every step on the job in work brings it
/// closer to done, and the last one removes it from the queue: each job is
/// finished within four steps.
pub proof fn lemma_success_makes_progress(
    w: TransferWorker,
    q: Seq<FileQueueItem>,
    e: Event,
    w2: TransferWorker,
    q2: Seq<FileQueueItem>,
    a: Action,
)
    requires
        w.wf(),
        in_work_at_head(w, q),
        is_success(w.phase, e),
        step_rel(w, q, e, w2, q2, a),
    ensures
        (q2 == q.drop_first() && q.len() > 0) || (q2 == q && stage(w2) < stage(w)),
{
}

/// With the "processing" edit failing twice and then succeeding, the worker sleeps
/// 1 s and then 2 s before the third attempt, and the job goes on.
pub proof fn lemma_announce_retries(
    w0: TransferWorker,
    q: Seq<FileQueueItem>,
    w1: TransferWorker,
    a1: Action,
    w2: TransferWorker,
    a2: Action,
    w3: TransferWorker,
    a3: Action,
    w4: TransferWorker,
    a4: Action,
    w5: TransferWorker,
    q5: Seq<FileQueueItem>,
    a5: Action,
)
    requires
        w0.wf(),
        w0.phase == (Phase::Announcing { attempt: 1 }),
        step_rel(w0, q, Event::EditFailed, w1, q, a1),
        step_rel(w1, q, Event::Slept, w2, q, a2),
        step_rel(w2, q, Event::EditFailed, w3, q, a3),
        step_rel(w3, q, Event::Slept, w4, q, a4),
    ensures
        a1 == (Action::Sleep { seconds: 1 }),
        a3 == (Action::Sleep { seconds: 2 }),
        is_edit(a4, w0.current->0.queue_message, processing_text(), false),
        w4.phase == (Phase::Announcing { attempt: MAX_ATTEMPTS }),
        step_rel(w4, q, Event::EditOk, w5, q5, a5) ==> transfer_begun(w0.current->0, q, w5, q5, a5),
{
    assert(pow2(1) == 2 * pow2(0));
}

} // verus!

verus! {

/// The running byte count after a chunk of `len` bytes; none if it would not fit.
pub fn add_chunk(total: u64, len: usize) -> (r: Option<u64>)
    ensures
        r matches Some(t) ==> t == total + len,
        r is None ==> total + len > u64::MAX,
{
    let l = len as u64;
    if l > u64::MAX - total {
        None
    } else {
        Some(total + l)
    }
}

/// The progress line logged while a file is written: bytes so far, and the total
/// when the source told it.
pub open spec fn progress_text(done: nat, total: Option<u64>) -> Seq<char> {
    match total {
        Some(t) => "Downloaded "@ + decimal(done) + " of "@ + decimal(t as nat) + " bytes"@,
        None => "Downloaded "@ + decimal(done) + " bytes"@,
    }
}

/// The progress line logged while a file is written.
pub fn progress_message(done: u64, total: Option<u64>) -> (r: String)
    ensures
        r@ == progress_text(done as nat, total),
{
    let mut out = chars_of("Downloaded ");
    push_decimal(&mut out, done);
    if let Some(t) = total {
        let of = chars_of(" of ");
        push_all(&mut out, &of);
        push_decimal(&mut out, t);
    }
    let end = chars_of(" bytes");
    push_all(&mut out, &end);
    string_of(&out)
}

} // verus!
