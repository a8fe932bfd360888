//! The recording lifecycle state machine: at most one capture is in
//! progress at a time, and every successful stop yields a fully formed
//! record with all enrichment fields absent.
//!
//! Callers that share a session across threads wrap it in one exclusive
//! lock, so the transitions below are atomic with respect to one another.

use vstd::prelude::*;
use crate::clock::{
    clamp_instant, now_millis, wav_file_name, wav_name_spec, MAX_INSTANT_MILLIS,
};
use crate::errors::MemoError;
use crate::ident::fresh_id;
use crate::recording::Recording;

verus! {

/// What a capture in progress remembers: when it started and where the
/// audio is being written.
pub struct CaptureInfo {
    pub started_at_millis: u64,
    pub file_path: String,
}

/// The state machine itself: `Idle` is `capture == None`, `Capturing`
/// carries the in-progress capture.
pub struct RecordingSession {
    pub capture: Option<CaptureInfo>,
}

/// One call on the session, for stating laws about call sequences.
#[derive(Clone, Copy, PartialEq, Eq, Structural, Debug)]
pub enum SessionOp {
    Start,
    Stop,
}

/// Whether the session is capturing after one call (`start` always
/// leaves it capturing, `stop` always leaves it idle, whether or not
/// the call succeeded).
pub open spec fn step_state(capturing: bool, op: SessionOp) -> bool {
    match op {
        SessionOp::Start => true,
        SessionOp::Stop => false,
    }
}

/// Whether one call succeeds: `start` exactly from idle, `stop` exactly
/// from capturing.
pub open spec fn step_ok(capturing: bool, op: SessionOp) -> bool {
    match op {
        SessionOp::Start => !capturing,
        SessionOp::Stop => capturing,
    }
}

/// Whether the session is capturing after the first `k` calls of `ops`,
/// starting from `c0`.
pub open spec fn state_after(c0: bool, ops: Seq<SessionOp>, k: int) -> bool
    decreases k,
{
    if k <= 0 {
        c0
    } else {
        step_state(state_after(c0, ops, k - 1), ops[k - 1])
    }
}

/// Whether the call at position `k` of `ops` succeeds.
pub open spec fn ok_at(c0: bool, ops: Seq<SessionOp>, k: int) -> bool {
    step_ok(state_after(c0, ops, k), ops[k])
}

/// Once capturing, the session stays capturing as long as no `stop` is
/// called.
pub proof fn lemma_capture_persists(c0: bool, ops: Seq<SessionOp>, i: int, j: int)
    requires
        0 <= i <= j <= ops.len(),
        state_after(c0, ops, i),
        forall|k: int| i <= k < j ==> ops[k] != SessionOp::Stop,
    ensures
        state_after(c0, ops, j),
    decreases j - i,
{
    if i < j {
        lemma_capture_persists(c0, ops, i, j - 1);
    }
}

/// Once idle, the session stays idle as long as no `start` is called.
pub proof fn lemma_idle_persists(c0: bool, ops: Seq<SessionOp>, i: int, j: int)
    requires
        0 <= i <= j <= ops.len(),
        !state_after(c0, ops, i),
        forall|k: int| i <= k < j ==> ops[k] != SessionOp::Start,
    ensures
        !state_after(c0, ops, j),
    decreases j - i,
{
    if i < j {
        lemma_idle_persists(c0, ops, i, j - 1);
    }
}

/// In every sequence of calls, a second `start` with no intervening
/// `stop` fails, whatever the first `start` returned: two `start` calls
/// can never both succeed without a `stop` between them.
pub proof fn lemma_second_start_fails(c0: bool, ops: Seq<SessionOp>, i: int, j: int)
    requires
        0 <= i < j < ops.len(),
        ops[i] == SessionOp::Start,
        ops[j] == SessionOp::Start,
        forall|k: int| i < k < j ==> ops[k] != SessionOp::Stop,
    ensures
        !ok_at(c0, ops, j),
{
    assert(state_after(c0, ops, i + 1));
    lemma_capture_persists(c0, ops, i + 1, j);
}

/// In every sequence of calls that begins idle, a `stop` with no
/// preceding `start` fails.
pub proof fn lemma_stop_without_start_fails(ops: Seq<SessionOp>, j: int)
    requires
        0 <= j < ops.len(),
        ops[j] == SessionOp::Stop,
        forall|k: int| 0 <= k < j ==> ops[k] != SessionOp::Start,
    ensures
        !ok_at(false, ops, j),
{
    lemma_idle_persists(false, ops, 0, j);
}

impl RecordingSession {
    /// Whether a capture is in progress.
    pub open spec fn is_capturing(self) -> bool {
        self.capture is Some
    }

    /// When the in-progress capture started.
    pub open spec fn capture_started(self) -> u64
        recommends
            self.is_capturing(),
    {
        self.capture->0.started_at_millis
    }

    /// Where the in-progress capture writes its audio.
    pub open spec fn capture_path(self) -> Seq<char>
        recommends
            self.is_capturing(),
    {
        self.capture->0.file_path@
    }

    /// A fresh, idle session.
    pub fn new() -> (s: RecordingSession)
        ensures
            !s.is_capturing(),
    {
        RecordingSession { capture: None }
    }

    /// Begins a capture. Fails with `AlreadyRecording`, and changes
    /// nothing, exactly when a capture is already in progress; otherwise
    /// the session starts capturing, at the current clock reading, into
    /// an audio file named from that reading.
    pub fn start(&mut self) -> (res: Result<(), MemoError>)
        ensures
            (res is Ok) == step_ok(old(self).is_capturing(), SessionOp::Start),
            final(self).is_capturing() == step_state(old(self).is_capturing(), SessionOp::Start),
            old(self).is_capturing() ==> res == Result::<(), MemoError>::Err(
                MemoError::AlreadyRecording,
            ) && *final(self) == *old(self),
            !old(self).is_capturing() ==> {
                &&& res is Ok
                &&& final(self).is_capturing()
                &&& final(self).capture_started() <= MAX_INSTANT_MILLIS
                &&& final(self).capture_path() == wav_name_spec(final(self).capture_started())
                &&& final(self).capture_path().len() >= 29
            },
    {
        if self.capture.is_some() {
            return Err(MemoError::AlreadyRecording);
        }
        let raw = now_millis();
        let started = clamp_instant(raw);
        let path = wav_file_name(started);
        self.capture = Some(CaptureInfo { started_at_millis: started, file_path: path });
        Ok(())
    }

    /// Ends the capture. Fails with `NotRecording`, and changes nothing,
    /// exactly when no capture is in progress; otherwise the session
    /// returns to idle and yields a well-formed record: a fresh
    /// 36-character id, the capture's file path, the stop-time clock
    /// reading, a non-negative duration measured against the start
    /// reading, and every enrichment field absent.
    pub fn stop(&mut self) -> (res: Result<Recording, MemoError>)
        ensures
            (res is Ok) == step_ok(old(self).is_capturing(), SessionOp::Stop),
            final(self).is_capturing() == step_state(old(self).is_capturing(), SessionOp::Stop),
            !old(self).is_capturing() ==> res == Result::<Recording, MemoError>::Err(
                MemoError::NotRecording,
            ) && *final(self) == *old(self),
            old(self).is_capturing() ==> {
                &&& res is Ok
                &&& !final(self).is_capturing()
                &&& (old(self).capture_path().len() > 0 ==> res->Ok_0@.wf())
                &&& res->Ok_0@.id.len() == 36
                &&& res->Ok_0@.timestamp_millis <= MAX_INSTANT_MILLIS
                &&& res->Ok_0@.file_path == old(self).capture_path()
                &&& res->Ok_0@.duration_millis == (
                    if res->Ok_0@.timestamp_millis >= old(self).capture_started() {
                        res->Ok_0@.timestamp_millis - old(self).capture_started()
                    } else {
                        0
                    }
                )
                &&& res->Ok_0@.transcript is None
                &&& res->Ok_0@.summary is None
                &&& res->Ok_0@.category is None
            },
    {
        let cap = self.capture.take();
        match cap {
            None => Err(MemoError::NotRecording),
            Some(info) => {
                let raw = now_millis();
                let stopped = clamp_instant(raw);
                let duration = if stopped >= info.started_at_millis {
                    stopped - info.started_at_millis
                } else {
                    0
                };
                let rec = Recording {
                    id: fresh_id(),
                    file_path: info.file_path,
                    timestamp_millis: stopped,
                    duration_millis: duration,
                    transcript: None,
                    summary: None,
                    category: None,
                };
                Ok(rec)
            },
        }
    }
}

} // verus!
