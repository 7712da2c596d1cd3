use vstd::prelude::*;

use crate::chunking::{
    chunk_len_spec, chunk_length, chunks_total, covered, lemma_chunks_total,
    lemma_part_count_bounds, part_count_spec,
};
use crate::types::{error_status, is_upload_error, CompletedPart, UploadStatus};

verus! {

/// Where a chunked upload stands.
#[derive(Debug, Clone, Copy, PartialEq, Eq, Structural)]
pub enum Phase {
    /// No session yet; the next call opens one.
    Opening,
    /// A session is open and parts are being sent.
    Uploading,
    /// The complete call was issued with every part.
    Completing,
    /// The abort call is issued, after cancellation or a failed part.
    Aborting,
    /// The store assembled the object.
    Completed,
    /// The upload was cancelled; any open session was aborted.
    Cancelled,
    /// The upload failed; any open session was aborted.
    Failed,
}

/// The store operation the driver performs next.
#[derive(Debug, Clone, Copy, PartialEq, Eq, Structural)]
pub enum Action {
    /// Open a multipart session for the key.
    CreateSession,
    /// Read `len` bytes at `offset` and send them as part `part_number`.
    UploadPart { part_number: u64, offset: u64, len: u64 },
    /// Complete the session with the recorded parts, in order.
    Complete,
    /// Abort the open session.
    Abort,
    /// Nothing left to do: the upload reached its outcome.
    Finish,
}

/// What came back from the last action: the upload id for `CreateSession`,
/// the ETag for `UploadPart`, anything for `Complete` and `Abort`; or the
/// failure message of the read or of the request.
#[derive(Debug)]
pub enum Event {
    Done(String),
    Failed(String),
}

/// The mathematical state of a chunked upload.
pub struct UploadView {
    pub total: nat,
    pub chunk: nat,
    pub phase: Phase,
    /// An action was handed out and its event has not come back yet.
    pub awaiting: bool,
    pub upload_id: Option<Seq<char>>,
    /// Recorded parts as (part number, ETag), in upload order.
    pub parts: Seq<(nat, Seq<char>)>,
    pub bytes: nat,
    pub error: Option<Seq<char>>,
}

pub open spec fn is_terminal_phase(p: Phase) -> bool {
    p == Phase::Completed || p == Phase::Cancelled || p == Phase::Failed
}

impl UploadView {
    pub open spec fn wf(self) -> bool {
        &&& self.chunk > 0
        &&& 0 < self.total <= u64::MAX
        &&& self.bytes == covered(self.total, self.chunk, self.parts.len())
        &&& self.parts.len() > 0 ==> (self.parts.len() - 1) * self.chunk < self.total
        &&& forall|i: int| 0 <= i < self.parts.len() ==> #[trigger] self.parts[i].0 == i + 1
        &&& self.phase == Phase::Opening ==> {
            &&& self.parts.len() == 0
            &&& self.upload_id is None
            &&& self.error is None
        }
        &&& (self.phase == Phase::Uploading || self.phase == Phase::Completing || self.phase
            == Phase::Aborting) ==> self.upload_id is Some
        &&& self.phase == Phase::Uploading ==> self.error is None
        &&& (self.phase == Phase::Uploading && self.awaiting) ==> self.bytes < self.total
        &&& self.phase == Phase::Completing ==> {
            &&& self.bytes == self.total
            &&& self.awaiting
            &&& self.error is None
        }
        &&& (self.phase == Phase::Aborting && !self.awaiting) ==> self.error is Some
        &&& self.phase == Phase::Completed ==> self.bytes == self.total && self.error is None
        &&& self.phase == Phase::Cancelled ==> self.error is None
        &&& self.phase == Phase::Failed ==> self.error is Some
        &&& is_terminal_phase(self.phase) ==> !self.awaiting
    }
}

/// A fresh upload of `total` bytes in parts of `chunk` bytes.
pub open spec fn initial(total: nat, chunk: nat) -> UploadView {
    UploadView {
        total,
        chunk,
        phase: Phase::Opening,
        awaiting: false,
        upload_id: None,
        parts: Seq::empty(),
        bytes: 0,
        error: None,
    }
}

/// The action handed out from `v`. Cancellation is honoured before the
/// session is opened and before each part, never while a call is out.
pub open spec fn action_spec(v: UploadView, cancelled: bool) -> Action {
    match v.phase {
        Phase::Opening => if cancelled {
            Action::Finish
        } else {
            Action::CreateSession
        },
        Phase::Uploading => if cancelled {
            Action::Abort
        } else if v.bytes < v.total {
            Action::UploadPart {
                part_number: (v.parts.len() + 1) as u64,
                offset: v.bytes as u64,
                len: chunk_len_spec(v.total, v.chunk, v.parts.len()) as u64,
            }
        } else {
            Action::Complete
        },
        Phase::Completing => Action::Complete,
        Phase::Aborting => Action::Abort,
        _ => Action::Finish,
    }
}

/// The state once the action of `action_spec(v, cancelled)` is handed out.
pub open spec fn after_action(v: UploadView, cancelled: bool) -> UploadView {
    match v.phase {
        Phase::Opening => if cancelled {
            UploadView { phase: Phase::Cancelled, ..v }
        } else {
            UploadView { awaiting: true, ..v }
        },
        Phase::Uploading => if cancelled {
            UploadView { phase: Phase::Aborting, awaiting: true, ..v }
        } else if v.bytes < v.total {
            UploadView { awaiting: true, ..v }
        } else {
            UploadView { phase: Phase::Completing, awaiting: true, ..v }
        },
        Phase::Aborting => UploadView { awaiting: true, ..v },
        _ => v,
    }
}

/// The state once the outcome `e` of the outstanding action comes back.
/// A failed part leads to an abort; a failed abort is not a further failure.
pub open spec fn after_event(v: UploadView, e: Event) -> UploadView {
    match v.phase {
        Phase::Opening => match e {
            Event::Done(id) => UploadView {
                phase: Phase::Uploading,
                upload_id: Some(id@),
                awaiting: false,
                ..v
            },
            Event::Failed(m) => UploadView {
                phase: Phase::Failed,
                error: Some(m@),
                awaiting: false,
                ..v
            },
        },
        Phase::Uploading => match e {
            Event::Done(tag) => UploadView {
                parts: v.parts.push(((v.parts.len() + 1) as nat, tag@)),
                bytes: v.bytes + chunk_len_spec(v.total, v.chunk, v.parts.len()),
                awaiting: false,
                ..v
            },
            Event::Failed(m) => UploadView {
                phase: Phase::Aborting,
                error: Some(m@),
                awaiting: false,
                ..v
            },
        },
        Phase::Completing => match e {
            Event::Done(_) => UploadView { phase: Phase::Completed, awaiting: false, ..v },
            Event::Failed(m) => UploadView {
                phase: Phase::Failed,
                error: Some(m@),
                awaiting: false,
                ..v
            },
        },
        Phase::Aborting => UploadView {
            phase: if v.error is Some {
                Phase::Failed
            } else {
                Phase::Cancelled
            },
            awaiting: false,
            ..v
        },
        _ => v,
    }
}

/// One file sent as a multipart session, chunk by chunk.
///
/// A driver asks `next_action` what to do, performs it against the store
/// and reports the outcome through `on_event`, until the action is `Finish`.
pub struct ChunkedUpload {
    pub total_bytes: u64,
    pub chunk_size: u64,
    pub phase: Phase,
    pub awaiting: bool,
    pub upload_id: Option<String>,
    pub parts: Vec<CompletedPart>,
    pub bytes_uploaded: u64,
    pub error: Option<String>,
}

pub open spec fn opt_view(o: Option<String>) -> Option<Seq<char>> {
    match o {
        Some(s) => Some(s@),
        None => None,
    }
}

pub open spec fn part_view(p: CompletedPart) -> (nat, Seq<char>) {
    (p.part_number as nat, p.e_tag@)
}

impl View for ChunkedUpload {
    type V = UploadView;

    open spec fn view(&self) -> UploadView {
        UploadView {
            total: self.total_bytes as nat,
            chunk: self.chunk_size as nat,
            phase: self.phase,
            awaiting: self.awaiting,
            upload_id: opt_view(self.upload_id),
            parts: self.parts@.map_values(|p: CompletedPart| part_view(p)),
            bytes: self.bytes_uploaded as nat,
            error: opt_view(self.error),
        }
    }
}

/// Bytes per second for `bytes` sent in `elapsed_ms` milliseconds; zero
/// before any time has passed, capped at `u64::MAX`.
pub open spec fn speed_spec(bytes: nat, elapsed_ms: nat) -> nat {
    if elapsed_ms == 0 {
        0
    } else if bytes * 1000 / elapsed_ms > u64::MAX {
        u64::MAX as nat
    } else {
        bytes * 1000 / elapsed_ms
    }
}

pub fn transfer_speed(bytes: u64, elapsed_ms: u64) -> (r: u64)
    ensures
        r == speed_spec(bytes as nat, elapsed_ms as nat),
{
    if elapsed_ms == 0 {
        0
    } else {
        proof {
            assert(bytes as u128 * 1000 <= u64::MAX as u128 * 1000) by (nonlinear_arith);
        }
        let s: u128 = bytes as u128 * 1000 / elapsed_ms as u128;
        if s > u64::MAX as u128 {
            u64::MAX
        } else {
            s as u64
        }
    }
}

/// Least time between two progress reports of one task: about two a second.
pub const PROGRESS_INTERVAL_MS: u64 = 500;

/// Whether a progress report may go out at `now_ms`, the previous one having
/// gone out at `last_ms` (if any).
pub open spec fn emit_due(last_ms: Option<u64>, now_ms: u64) -> bool {
    match last_ms {
        None => true,
        Some(t) => now_ms >= t && now_ms - t >= PROGRESS_INTERVAL_MS,
    }
}

pub fn should_emit(last_ms: Option<u64>, now_ms: u64) -> (r: bool)
    ensures
        r == emit_due(last_ms, now_ms),
{
    match last_ms {
        None => true,
        Some(t) => now_ms >= t && now_ms - t >= PROGRESS_INTERVAL_MS,
    }
}

impl ChunkedUpload {
    pub open spec fn wf(&self) -> bool {
        self@.wf()
    }

    /// Starts an upload of `total_bytes` bytes in parts of `chunk_size`.
    pub fn new(total_bytes: u64, chunk_size: u64) -> (r: Self)
        requires
            total_bytes > 0,
            chunk_size > 0,
        ensures
            r@ == initial(total_bytes as nat, chunk_size as nat),
            r.wf(),
    {
        let r = ChunkedUpload {
            total_bytes,
            chunk_size,
            phase: Phase::Opening,
            awaiting: false,
            upload_id: None,
            parts: Vec::new(),
            bytes_uploaded: 0,
            error: None,
        };
        assert(r@.parts =~= Seq::empty());
        r
    }

    /// Decides the next store operation; `cancelled` is the task's
    /// cancellation signal as observed now.
    pub fn next_action(&mut self, cancelled: bool) -> (r: Action)
        requires
            old(self).wf(),
            !old(self).awaiting,
        ensures
            final(self).wf(),
            r == action_spec(old(self)@, cancelled),
            final(self)@ == after_action(old(self)@, cancelled),
    {
        match self.phase {
            Phase::Opening => {
                if cancelled {
                    self.phase = Phase::Cancelled;
                    Action::Finish
                } else {
                    self.awaiting = true;
                    Action::CreateSession
                }
            },
            Phase::Uploading => {
                if cancelled {
                    self.phase = Phase::Aborting;
                    self.awaiting = true;
                    Action::Abort
                } else if self.bytes_uploaded < self.total_bytes {
                    let n = self.parts.len() as u64;
                    proof {
                        let nn = n as nat;
                        let c = self.chunk_size as nat;
                        assert(nn * c < self.total_bytes as nat);
                        assert(nn <= nn * c) by (nonlinear_arith)
                            requires
                                c >= 1,
                        ;
                    }
                    let len = chunk_length(self.total_bytes, self.chunk_size, n);
                    self.awaiting = true;
                    Action::UploadPart { part_number: n + 1, offset: self.bytes_uploaded, len }
                } else {
                    self.phase = Phase::Completing;
                    self.awaiting = true;
                    Action::Complete
                }
            },
            Phase::Completing => Action::Complete,
            Phase::Aborting => {
                self.awaiting = true;
                Action::Abort
            },
            _ => Action::Finish,
        }
    }

    /// Records the outcome of the action last handed out.
    pub fn on_event(&mut self, event: Event)
        requires
            old(self).wf(),
            old(self).awaiting,
        ensures
            final(self).wf(),
            final(self)@ == after_event(old(self)@, event),
            final(self).bytes_uploaded >= old(self).bytes_uploaded,
    {
        match self.phase {
            Phase::Opening => match event {
                Event::Done(id) => {
                    self.upload_id = Some(id);
                    self.phase = Phase::Uploading;
                    self.awaiting = false;
                },
                Event::Failed(m) => {
                    self.error = Some(m);
                    self.phase = Phase::Failed;
                    self.awaiting = false;
                },
            },
            Phase::Uploading => match event {
                Event::Done(tag) => {
                    let ghost v = self@;
                    let n = self.parts.len() as u64;
                    proof {
                        let nn = n as nat;
                        let c = self.chunk_size as nat;
                        assert(nn * c < self.total_bytes as nat);
                        assert(nn <= nn * c) by (nonlinear_arith)
                            requires
                                c >= 1,
                        ;
                        lemma_chunks_total(v.total, v.chunk, nn);
                        lemma_chunks_total(v.total, v.chunk, nn + 1);
                        assert(chunks_total(v.total, v.chunk, nn + 1) == chunks_total(
                            v.total,
                            v.chunk,
                            nn,
                        ) + chunk_len_spec(v.total, v.chunk, nn));
                    }
                    let len = chunk_length(self.total_bytes, self.chunk_size, n);
                    self.parts.push(CompletedPart { part_number: n + 1, e_tag: tag });
                    self.bytes_uploaded = self.bytes_uploaded + len;
                    self.awaiting = false;
                    proof {
                        assert(self@.parts =~= v.parts.push(((v.parts.len() + 1) as nat, tag@)));
                    }
                },
                Event::Failed(m) => {
                    self.error = Some(m);
                    self.phase = Phase::Aborting;
                    self.awaiting = false;
                },
            },
            Phase::Completing => match event {
                Event::Done(_) => {
                    self.phase = Phase::Completed;
                    self.awaiting = false;
                },
                Event::Failed(m) => {
                    self.error = Some(m);
                    self.phase = Phase::Failed;
                    self.awaiting = false;
                },
            },
            Phase::Aborting => {
                if self.error.is_some() {
                    self.phase = Phase::Failed;
                } else {
                    self.phase = Phase::Cancelled;
                }
                self.awaiting = false;
            },
            _ => {},
        }
    }

    /// The upload id of the open session, if one was opened.
    pub fn upload_id(&self) -> (r: &Option<String>)
        ensures
            r == &self.upload_id,
    {
        &self.upload_id
    }

    /// The parts recorded so far, in ascending part-number order.
    pub fn parts(&self) -> (r: &Vec<CompletedPart>)
        ensures
            r == &self.parts,
    {
        &self.parts
    }

    /// The progress report after the last recorded part.
    pub fn progress(&self, elapsed_ms: u64) -> (r: UploadStatus)
        ensures
            r == (UploadStatus::Uploading {
                bytes_uploaded: self.bytes_uploaded,
                total_bytes: self.total_bytes,
                speed: speed_spec(self.bytes_uploaded as nat, elapsed_ms as nat) as u64,
            }),
    {
        UploadStatus::Uploading {
            bytes_uploaded: self.bytes_uploaded,
            total_bytes: self.total_bytes,
            speed: transfer_speed(self.bytes_uploaded, elapsed_ms),
        }
    }

    /// The task's terminal status, once the upload reached its outcome.
    pub fn outcome(&self) -> (r: Option<UploadStatus>)
        requires
            self.wf(),
        ensures
            self.phase == Phase::Completed ==> r == Some(UploadStatus::Success),
            self.phase == Phase::Cancelled ==> r == Some(UploadStatus::Cancelled),
            self.phase == Phase::Failed ==> r is Some && is_upload_error(
                r.unwrap(),
                self@.error.unwrap(),
            ),
            !is_terminal_phase(self.phase) ==> r is None,
    {
        match self.phase {
            Phase::Completed => Some(UploadStatus::Success),
            Phase::Cancelled => Some(UploadStatus::Cancelled),
            Phase::Failed => {
                let m = match &self.error {
                    Some(m) => m.clone(),
                    None => String::new(),
                };
                Some(error_status(m))
            },
            _ => None,
        }
    }
}

/// A completed upload recorded exactly `ceil(total / chunk)` parts, numbered
/// 1 up to that count without gaps, whose chunk lengths sum to the total.
pub proof fn lemma_completed_parts(v: UploadView)
    requires
        v.wf(),
        v.phase == Phase::Completed,
    ensures
        v.parts.len() == part_count_spec(v.total, v.chunk),
        forall|i: int| 0 <= i < v.parts.len() ==> #[trigger] v.parts[i].0 == i + 1,
        chunks_total(v.total, v.chunk, v.parts.len()) == v.total,
{
    let n = v.parts.len();
    let p = part_count_spec(v.total, v.chunk);
    let c = v.chunk;
    let s = v.total;
    lemma_part_count_bounds(s, c);
    lemma_chunks_total(s, c, n);
    assert(n * c >= s);
    assert(n > 0) by {
        if n == 0 {
            assert(n * c == 0) by (nonlinear_arith)
                requires
                    n == 0,
            ;
        }
    }
    if n < p {
        assert(n * c <= (p - 1) * c) by (nonlinear_arith)
            requires
                n <= p - 1,
        ;
    } else if n > p {
        assert(p * c <= (n - 1) * c) by (nonlinear_arith)
            requires
                p <= n - 1,
        ;
    }
}

/// Cancellation observed before the first chunk is read: no part is ever
/// uploaded, no session is completed, and the upload ends `Cancelled`
/// (after aborting the session, if one was already open).
pub proof fn lemma_cancel_before_first_chunk(v: UploadView, e: Event)
    requires
        v.wf(),
        !v.awaiting,
        v.phase == Phase::Opening || v.phase == Phase::Uploading,
        v.parts.len() == 0,
    ensures
        v.phase == Phase::Opening ==> {
            &&& action_spec(v, true) == Action::Finish
            &&& after_action(v, true).phase == Phase::Cancelled
            &&& after_action(v, true).parts.len() == 0
        },
        v.phase == Phase::Uploading ==> {
            &&& action_spec(v, true) == Action::Abort
            &&& after_event(after_action(v, true), e).phase == Phase::Cancelled
            &&& after_event(after_action(v, true), e).parts.len() == 0
        },
{
}

/// Cancellation observed after `k` parts: exactly one abort is issued, the
/// `k` recorded parts stay as they were, the outcome is `Cancelled` whatever
/// the abort returned, and no further operation follows.
pub proof fn lemma_cancel_after_parts(v: UploadView, e: Event, later: bool)
    requires
        v.wf(),
        !v.awaiting,
        v.phase == Phase::Uploading,
    ensures
        action_spec(v, true) == Action::Abort,
        after_event(after_action(v, true), e).phase == Phase::Cancelled,
        after_event(after_action(v, true), e).parts == v.parts,
        action_spec(after_event(after_action(v, true), e), later) == Action::Finish,
        after_action(after_event(after_action(v, true), e), later) == after_event(
            after_action(v, true),
            e,
        ),
{
}

/// Once an abort is out, a failing abort (for instance on a session the
/// store already dropped) leads to the same state as a successful one.
pub proof fn lemma_abort_outcome_ignored(v: UploadView, e1: Event, e2: Event)
    requires
        v.wf(),
        v.phase == Phase::Aborting,
        v.awaiting,
    ensures
        after_event(v, e1) == after_event(v, e2),
        is_terminal_phase(after_event(v, e1).phase),
{
}

/// Every step keeps the state well formed.
pub proof fn lemma_steps_preserve_wf(v: UploadView, cancelled: bool, e: Event)
    requires
        v.wf(),
    ensures
        !v.awaiting ==> after_action(v, cancelled).wf(),
        v.awaiting ==> after_event(v, e).wf(),
{
    if v.awaiting && v.phase == Phase::Uploading {
        if let Event::Done(_) = e {
            let n = v.parts.len();
            assert(n <= n * v.chunk) by (nonlinear_arith)
                requires
                    v.chunk >= 1,
            ;
            lemma_chunks_total(v.total, v.chunk, n);
            lemma_chunks_total(v.total, v.chunk, n + 1);
            let w = after_event(v, e);
            assert forall|i: int| 0 <= i < w.parts.len() implies #[trigger] w.parts[i].0 == i
                + 1 by {
                if i < n {
                    assert(w.parts[i] == v.parts[i]);
                }
            }
        }
    }
}

} // verus!
