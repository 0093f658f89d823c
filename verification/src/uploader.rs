//! The capture-and-upload loop's state machine.
//!
//! Each period the loop captures one snapshot, wraps it in a labelled write
//! request, and sends it; capture failure and send failure are both fatal —
//! there is no retry, backoff, or buffering, and a dropped upload is lost
//! permanently. The decisions of that loop live here as a pure transition
//! function from state and event to next state and action; the surrounding
//! runtime performs the awaited work (timer, capture, network send) and
//! feeds the outcome back in as the next event.

use vstd::prelude::*;

use crate::model::WriteRequest;
use crate::model::build_write_request;
use crate::model::is_request_for;

verus! {

/// Where the loop stands in its tick cycle.
#[derive(Clone, Copy, Debug, PartialEq, Eq, Structural)]
pub enum Phase {
    /// Suspended until the period elapses.
    AwaitTick,
    /// Waiting for the snapshot provider's dump to complete.
    Capturing,
    /// Waiting for the remote endpoint to acknowledge the send.
    Sending,
    /// Aborted after a fatal failure; the supervisor takes over.
    Halted,
}

/// The outcome of the outside work the loop last asked for.
pub enum UploadEvent {
    /// The periodic timer fired.
    TickElapsed,
    /// The snapshot provider produced these bytes.
    Captured(Vec<u8>),
    /// The snapshot provider failed.
    CaptureFailed,
    /// The remote endpoint acknowledged the upload.
    SendAcknowledged,
    /// The send failed: network error or server rejection.
    SendFailed,
}

/// What the runtime must do next on the loop's behalf.
pub enum UploadAction {
    /// Await the next timer tick.
    WaitForTick,
    /// Ask the snapshot provider for a dump.
    CaptureSnapshot,
    /// Send this request and await acknowledgment.
    SendRequest(WriteRequest),
    /// Abort the loop; the supervisor halts the process.
    Fatal,
}

/// The capture-and-upload loop's own state: its phase, the identity of the
/// reporting process, and how many uploads have been acknowledged.
pub struct Uploader {
    pub phase: Phase,
    pub pid: u64,
    pub sent: u64,
}

/// The loop's complete transition relation. Every fresh snapshot becomes
/// exactly one request, built for the event's bytes and the loop's process
/// identity; every failure, and every event that does not belong to the
/// current phase, halts the loop for good.
pub open spec fn transition(
    pre: Uploader,
    event: UploadEvent,
    post: Uploader,
    action: UploadAction,
) -> bool {
    &&& post.pid == pre.pid
    &&& match (pre.phase, event) {
        (Phase::AwaitTick, UploadEvent::TickElapsed) => {
            &&& post.phase is Capturing
            &&& post.sent == pre.sent
            &&& action is CaptureSnapshot
        },
        (Phase::Capturing, UploadEvent::Captured(snapshot)) => {
            &&& post.phase is Sending
            &&& post.sent == pre.sent
            &&& action matches UploadAction::SendRequest(r) && is_request_for(
                r,
                snapshot@,
                pre.pid,
            )
        },
        (Phase::Sending, UploadEvent::SendAcknowledged) => {
            &&& post.phase is AwaitTick
            &&& post.sent == pre.sent + 1
            &&& action is WaitForTick
        },
        _ => {
            &&& post.phase is Halted
            &&& post.sent == pre.sent
            &&& action is Fatal
        },
    }
}

impl Uploader {
    /// A loop about to await its first tick, reporting for process `pid`.
    pub fn new(pid: u64) -> (u: Uploader)
        ensures
            u.phase is AwaitTick,
            u.pid == pid,
            u.sent == 0,
    {
        Uploader { phase: Phase::AwaitTick, pid, sent: 0 }
    }

    /// Advances the loop by one event and tells the runtime what to do
    /// next, exactly as the transition relation prescribes.
    pub fn on_event(&mut self, event: UploadEvent) -> (action: UploadAction)
        requires
            old(self).phase is Sending && event is SendAcknowledged ==> old(self).sent
                < u64::MAX,
        ensures
            transition(*old(self), event, *final (self), action),
    {
        match (self.phase, event) {
            (Phase::AwaitTick, UploadEvent::TickElapsed) => {
                self.phase = Phase::Capturing;
                UploadAction::CaptureSnapshot
            },
            (Phase::Capturing, UploadEvent::Captured(snapshot)) => {
                self.phase = Phase::Sending;
                let request = build_write_request(snapshot, self.pid);
                UploadAction::SendRequest(request)
            },
            (Phase::Sending, UploadEvent::SendAcknowledged) => {
                self.phase = Phase::AwaitTick;
                self.sent = self.sent + 1;
                UploadAction::WaitForTick
            },
            _ => {
                self.phase = Phase::Halted;
                UploadAction::Fatal
            },
        }
    }
}

/// The pure core of a run of successful ticks: given the snapshots the
/// provider returned on each of `n` successive ticks, the requests the loop
/// sends — one request per tick, in tick order. Consecutive ticks are never
/// merged into one request and no tick is skipped or batched.
pub fn requests_for_snapshots(snapshots: Vec<Vec<u8>>, pid: u64) -> (requests: Vec<
    WriteRequest,
>)
    ensures
        requests@.len() == snapshots@.len(),
        forall|i: int|
            0 <= i < requests@.len() ==> is_request_for(
                #[trigger] requests@[i],
                snapshots@[i]@,
                pid,
            ),
{
    let ghost orig = snapshots@;
    let mut rest = snapshots;
    let mut requests: Vec<WriteRequest> = Vec::new();
    while rest.len() > 0
        invariant
            requests@.len() + rest@.len() == orig.len(),
            forall|i: int|
                0 <= i < requests@.len() ==> is_request_for(
                    #[trigger] requests@[i],
                    orig[i]@,
                    pid,
                ),
            forall|i: int|
                0 <= i < rest@.len() ==> #[trigger] rest@[i] == orig[requests@.len() + i],
        decreases rest@.len(),
    {
        let snapshot = rest.remove(0);
        requests.push(build_write_request(snapshot, pid));
    }
    requests
}

/// A failed send is fatal: the loop halts instead of retrying, and the
/// runtime is told to abort, which hands control to the supervisor.
pub proof fn lemma_send_failure_halts(
    pre: Uploader,
    post: Uploader,
    action: UploadAction,
)
    requires
        transition(pre, UploadEvent::SendFailed, post, action),
    ensures
        post.phase is Halted,
        action is Fatal,
{
}

/// A failed capture is fatal in the same way: no retry, the loop halts.
pub proof fn lemma_capture_failure_halts(
    pre: Uploader,
    post: Uploader,
    action: UploadAction,
)
    requires
        transition(pre, UploadEvent::CaptureFailed, post, action),
    ensures
        post.phase is Halted,
        action is Fatal,
{
}

/// One tick, one request: whatever the loop sends carries exactly one
/// series with exactly one sample, and that sample's bytes are the snapshot
/// captured this tick, unmodified. Ticks are never batched together.
pub proof fn lemma_one_request_per_tick(
    pre: Uploader,
    snapshot: Vec<u8>,
    post: Uploader,
    action: UploadAction,
)
    requires
        pre.phase is Capturing,
        transition(pre, UploadEvent::Captured(snapshot), post, action),
    ensures
        action matches UploadAction::SendRequest(r) && r.series@.len() == 1
            && r.series@[0].samples@.len() == 1 && r.series@[0].samples@[0].snapshot@
            == snapshot@,
{
}

} // verus!
