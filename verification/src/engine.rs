//! The Request Forwarding Engine: relays a request to the lower driver and
//! propagates the final status back to the original caller.
//!
//! A forward-with-completion runs as a little session: retrieve the
//! request's output-memory descriptor, reformat the request as a lower-stack
//! control operation, install the completion continuation, send.  Any local
//! failure completes the request with that status and nothing further
//! happens; a successful send transfers ownership to the lower driver, and
//! the completion continuation alone finishes the request.  There are no
//! retries anywhere: the lower driver's failure is authoritative and is
//! never masked.

use vstd::prelude::*;
use crate::foreign::{KeyboardAttributes, KEYBOARD_ATTRIBUTES_SIZE};
use crate::ioctl::KEYBOARD_QUERY_ATTRIBUTES_CODE;
use crate::status::{is_success, nt_success, check_status, Error, ErrorCode};

verus! {

/// Phase of one forward-with-completion session.  `Transferred` and
/// `CompletedLocally` are terminal: the filter either no longer owns the
/// request, or has completed it, and must not touch it again.
#[derive(Debug, Copy, Clone, PartialEq, Eq, Structural)]
pub enum EnginePhase {
    RetrievingMemory,
    Formatting,
    Sending,
    Transferred,
    CompletedLocally { status: i32 },
}

/// What the host reports back after performing the step the engine asked
/// for.
#[derive(Debug, Copy, Clone, PartialEq, Eq, Structural)]
pub enum EngineEvent {
    MemoryRetrieved { status: i32 },
    RequestFormatted { status: i32 },
    SendResult { sent: bool, readback_status: i32 },
}

/// What the engine asks the host to do next.  `CompleteRequest` and
/// `AwaitCompletion` are terminal for the session: the first completes the
/// request locally, the second leaves it to the completion continuation.
#[derive(Debug, Copy, Clone, PartialEq, Eq, Structural)]
pub enum EngineAction {
    RetrieveOutputMemory,
    FormatRequest,
    InstallCompletionAndSend,
    CompleteRequest { status: i32 },
    AwaitCompletion,
}

/// A terminal phase: the session is over and no further event is accepted.
pub open spec fn terminal(phase: EnginePhase) -> bool {
    phase is Transferred || phase is CompletedLocally
}

/// A terminal action: it completes the request or gives it up — the one
/// thing that must happen exactly once per request.
pub open spec fn terminal_action(a: EngineAction) -> bool {
    a is CompleteRequest || a is AwaitCompletion
}

/// Which event each phase expects.  Terminal phases expect none.
pub open spec fn event_fits(phase: EnginePhase, e: EngineEvent) -> bool {
    match e {
        EngineEvent::MemoryRetrieved { .. } => phase is RetrievingMemory,
        EngineEvent::RequestFormatted { .. } => phase is Formatting,
        EngineEvent::SendResult { .. } => phase is Sending,
    }
}

/// One step of the session: the next phase and the action the host must
/// perform.  Every local failure carries its status into the completion;
/// a successful send ends the filter's ownership.
pub open spec fn engine_step_spec(phase: EnginePhase, e: EngineEvent) -> (EnginePhase, EngineAction) {
    match e {
        EngineEvent::MemoryRetrieved { status } => {
            if is_success(status) {
                (EnginePhase::Formatting, EngineAction::FormatRequest)
            } else {
                (EnginePhase::CompletedLocally { status }, EngineAction::CompleteRequest { status })
            }
        },
        EngineEvent::RequestFormatted { status } => {
            if is_success(status) {
                (EnginePhase::Sending, EngineAction::InstallCompletionAndSend)
            } else {
                (EnginePhase::CompletedLocally { status }, EngineAction::CompleteRequest { status })
            }
        },
        EngineEvent::SendResult { sent, readback_status } => {
            if sent {
                (EnginePhase::Transferred, EngineAction::AwaitCompletion)
            } else {
                (
                    EnginePhase::CompletedLocally { status: readback_status },
                    EngineAction::CompleteRequest { status: readback_status },
                )
            }
        },
    }
}

/// One forward-with-completion session.
#[derive(Debug, Copy, Clone, PartialEq, Eq, Structural)]
pub struct ForwardEngine {
    pub phase: EnginePhase,
}

impl ForwardEngine {
    /// Opens a session; the host's first step is to retrieve the request's
    /// output-memory descriptor.
    pub fn start() -> (r: (ForwardEngine, EngineAction))
        ensures
            r.0.phase == EnginePhase::RetrievingMemory,
            r.1 == EngineAction::RetrieveOutputMemory,
    {
        (ForwardEngine { phase: EnginePhase::RetrievingMemory }, EngineAction::RetrieveOutputMemory)
    }

    /// Feeds the host's report for the step just performed and returns the
    /// next action.  A terminal session accepts no event: a request is never
    /// completed twice and never forwarded twice.
    pub fn step(&mut self, e: EngineEvent) -> (a: EngineAction)
        requires
            event_fits(old(self).phase, e),
        ensures
            final(self).phase == engine_step_spec(old(self).phase, e).0,
            a == engine_step_spec(old(self).phase, e).1,
    {
        match e {
            EngineEvent::MemoryRetrieved { status } => {
                if nt_success(status) {
                    self.phase = EnginePhase::Formatting;
                    EngineAction::FormatRequest
                } else {
                    self.phase = EnginePhase::CompletedLocally { status };
                    EngineAction::CompleteRequest { status }
                }
            },
            EngineEvent::RequestFormatted { status } => {
                if nt_success(status) {
                    self.phase = EnginePhase::Sending;
                    EngineAction::InstallCompletionAndSend
                } else {
                    self.phase = EnginePhase::CompletedLocally { status };
                    EngineAction::CompleteRequest { status }
                }
            },
            EngineEvent::SendResult { sent, readback_status } => {
                if sent {
                    self.phase = EnginePhase::Transferred;
                    EngineAction::AwaitCompletion
                } else {
                    self.phase = EnginePhase::CompletedLocally { status: readback_status };
                    EngineAction::CompleteRequest { status: readback_status }
                }
            },
        }
    }
}

/// Whether a whole event sequence fits the protocol from the given phase.
pub open spec fn events_fit(phase: EnginePhase, events: Seq<EngineEvent>) -> bool
    decreases events.len(),
{
    events.len() == 0 || {
        &&& event_fits(phase, events.first())
        &&& events_fit(engine_step_spec(phase, events.first()).0, events.drop_first())
    }
}

/// The phase reached after replaying a whole event sequence.
pub open spec fn engine_final_phase(phase: EnginePhase, events: Seq<EngineEvent>) -> EnginePhase
    decreases events.len(),
{
    if events.len() == 0 {
        phase
    } else {
        engine_final_phase(engine_step_spec(phase, events.first()).0, events.drop_first())
    }
}

/// How many terminal actions a replayed event sequence makes the host
/// perform.
pub open spec fn terminal_action_count(phase: EnginePhase, events: Seq<EngineEvent>) -> nat
    decreases events.len(),
{
    if events.len() == 0 {
        0
    } else {
        (if terminal_action(engine_step_spec(phase, events.first()).1) {
            1nat
        } else {
            0nat
        }) + terminal_action_count(engine_step_spec(phase, events.first()).0, events.drop_first())
    }
}

/// A session in a terminal phase accepts no further event, so a fitting
/// event sequence from a terminal phase is empty.
pub proof fn lemma_terminal_accepts_nothing(phase: EnginePhase, events: Seq<EngineEvent>)
    requires
        terminal(phase),
        events_fit(phase, events),
    ensures
        events.len() == 0,
{
}

/// Ownership discipline of the engine: over any event sequence that fits the
/// protocol, the engine asks for at most one terminal action — it never
/// completes a request twice, never forwards it twice, and never both — and
/// it has asked for exactly one precisely when the session has reached a
/// terminal phase.
pub proof fn lemma_engine_single_terminal(phase: EnginePhase, events: Seq<EngineEvent>)
    requires
        !terminal(phase),
        events_fit(phase, events),
    ensures
        terminal_action_count(phase, events) <= 1,
        terminal_action_count(phase, events) == 1 <==> terminal(
            engine_final_phase(phase, events),
        ),
    decreases events.len(),
{
    if events.len() > 0 {
        let next = engine_step_spec(phase, events.first()).0;
        let act = engine_step_spec(phase, events.first()).1;
        assert(terminal(next) == terminal_action(act));
        if terminal(next) {
            lemma_terminal_accepts_nothing(next, events.drop_first());
            assert(terminal_action_count(next, events.drop_first()) == 0);
            assert(engine_final_phase(next, events.drop_first()) == next);
        } else {
            lemma_engine_single_terminal(next, events.drop_first());
        }
    }
}

/// Outcome of sending a request, fire-and-forget or engine-driven: on a
/// successful send ownership of the request has transferred and the filter
/// must not touch it again; on a synchronous send failure ownership stays
/// with the caller, and the status read back from the request decides the
/// result.
pub fn send_outcome(sent: bool, readback_status: i32) -> (r: Result<(), Error>)
    ensures
        sent ==> r == Ok::<(), Error>(()),
        !sent && is_success(readback_status) ==> r == Ok::<(), Error>(()),
        !sent && !is_success(readback_status) ==> r == Err::<(), Error>(
            Error::NtStatusError {
                nt_status: readback_status,
                error_code: ErrorCode::RequestSendFailed,
            },
        ),
{
    if sent {
        Ok(())
    } else {
        check_status(readback_status, ErrorCode::RequestSendFailed)
    }
}

/// What the lower driver reported when it completed a forwarded request:
/// the status, whether the completed operation was an internal device
/// control and its code, and how large the caller's output region is.
#[derive(Debug, Copy, Clone, PartialEq, Eq, Structural)]
pub struct CompletionParams {
    pub status: i32,
    pub is_internal_device_control: bool,
    pub io_control_code: u32,
    pub output_length: usize,
}

/// The completion captures the attribute record exactly when the lower
/// driver reports success on an internal query-attributes operation and the
/// caller's output region holds at least a whole record.
pub open spec fn should_capture(p: CompletionParams) -> bool {
    &&& is_success(p.status)
    &&& p.is_internal_device_control
    &&& p.io_control_code == KEYBOARD_QUERY_ATTRIBUTES_CODE
    &&& p.output_length >= KEYBOARD_ATTRIBUTES_SIZE
}

/// The attribute cache after the completion continuation: refreshed with the
/// record read back from the completed request when the completion captures,
/// untouched otherwise — in particular untouched when reading the record
/// back failed.
pub open spec fn completion_cache_after(
    cache: KeyboardAttributes,
    p: CompletionParams,
    readback: Result<KeyboardAttributes, i32>,
) -> KeyboardAttributes {
    if should_capture(p) {
        match readback {
            Ok(fresh) => fresh,
            Err(_) => cache,
        }
    } else {
        cache
    }
}

/// The status the original request is completed with: the lower driver's
/// reported status, except that a failure of the final copy step overrides a
/// prior success.
pub open spec fn completion_status_after(
    p: CompletionParams,
    readback: Result<KeyboardAttributes, i32>,
) -> i32 {
    if should_capture(p) {
        match readback {
            Ok(_) => p.status,
            Err(st) => st,
        }
    } else {
        p.status
    }
}

/// The record written into the caller's output region, if any: the freshly
/// captured record — the caller never observes a partial write.
pub open spec fn completion_output_write(
    p: CompletionParams,
    readback: Result<KeyboardAttributes, i32>,
) -> Option<KeyboardAttributes> {
    if should_capture(p) {
        match readback {
            Ok(fresh) => Some(fresh),
            Err(_) => None,
        }
    } else {
        None
    }
}

/// The completion continuation's decision: the status to complete the
/// original request with, and the record to place in its output region,
/// if any.
#[derive(Debug, Copy, Clone, PartialEq, Eq, Structural)]
pub struct CompletionOutcome {
    pub final_status: i32,
    pub output_write: Option<KeyboardAttributes>,
}

/// The completion continuation, the only code that runs after an
/// asynchronous forward.  `readback` is the outcome of reading the attribute
/// record back from the completed request's output memory; it is consulted
/// only when the completion captures.  The continuation refreshes the cache
/// with the freshest successful read, decides the final status, and the
/// host then unconditionally completes the original request with it.
pub fn on_forward_completion(
    cache: &mut KeyboardAttributes,
    params: CompletionParams,
    readback: Result<KeyboardAttributes, i32>,
) -> (r: CompletionOutcome)
    ensures
        *final(cache) == completion_cache_after(*old(cache), params, readback),
        r.final_status == completion_status_after(params, readback),
        r.output_write == completion_output_write(params, readback),
        should_capture(params) ==> (readback matches Ok(fresh) ==> *final(cache) == fresh
            && r.output_write == Some(fresh) && r.final_status == params.status),
{
    let mut status = params.status;
    let mut output_write: Option<KeyboardAttributes> = None;
    if nt_success(params.status) && params.is_internal_device_control
        && params.io_control_code == KEYBOARD_QUERY_ATTRIBUTES_CODE
        && params.output_length >= KEYBOARD_ATTRIBUTES_SIZE {
        match readback {
            Ok(fresh) => {
                *cache = fresh;
                output_write = Some(fresh);
            },
            Err(st) => {
                status = st;
            },
        }
    }
    CompletionOutcome { final_status: status, output_write }
}

/// A query-attributes forward whose completion reports success into a
/// sufficiently large output region always leaves the attribute cache
/// holding exactly the record extracted from that completion, and places
/// that same record in the caller's output region.
pub proof fn lemma_successful_capture_refreshes_cache(
    cache: KeyboardAttributes,
    params: CompletionParams,
    fresh: KeyboardAttributes,
)
    requires
        should_capture(params),
    ensures
        completion_cache_after(cache, params, Ok(fresh)) == fresh,
        completion_output_write(params, Ok(fresh)) == Some(fresh),
        completion_status_after(params, Ok(fresh)) == params.status,
{
}

} // verus!
