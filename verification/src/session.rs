//! The one-attempt session orchestrator, as an explicit state machine.
//!
//! One probe attempt walks: establish the session, test the domain for a
//! catch-all, probe the real address, recover at most once from the
//! known dropped-connection misbehavior, close.  The decisions live
//! here, fully verified; the caller performs the network action that
//! each phase names and feeds the outcome back as an event.

use vstd::prelude::*;

use crate::Deliverability;
use crate::SmtpDetails;
use crate::classify::classify_rejection;
use crate::classify::classify_spec;
use crate::deliverability_flags;
use crate::error::SmtpError;

verus! {

/// What the recipient-existence command came back with: acceptance, or a
/// rejection tagged with the protocol layer's error classification and
/// the server's raw message bytes.
pub enum ProbeOutcome {
    Accepted,
    Rejected(crate::error::SmtpErrorKind, Vec<u8>),
}

/// Turn a recipient-existence outcome into a verdict on the mailbox.
///
/// Acceptance is a positive completion status, which the protocol
/// reserves for a deliverable recipient; a rejection goes through the
/// phrase classifier, and text no phrase group explains is surfaced as a
/// protocol error for the caller to handle.
pub fn interpret_probe_outcome(outcome: ProbeOutcome) -> (r: Result<Deliverability, SmtpError>)
    ensures
        outcome is Accepted ==> r == Ok::<Deliverability, SmtpError>(
            deliverability_flags(false, true, false),
        ),
        outcome matches ProbeOutcome::Rejected(kind, text) ==> (classify_spec(text@) is Some ==> r
            == Ok::<Deliverability, SmtpError>(classify_spec(text@)->Some_0)) && (classify_spec(
            text@,
        ) is None ==> (r matches Err(e) && e matches SmtpError::SmtpError(k, t) && k == kind && t@
            == text@)),
{
    match outcome {
        ProbeOutcome::Accepted => Ok(
            Deliverability { has_full_inbox: false, is_deliverable: true, is_disabled: false },
        ),
        ProbeOutcome::Rejected(kind, text) => match classify_rejection(text.as_slice()) {
            Some(d) => Ok(d),
            None => Err(SmtpError::SmtpError(kind, text)),
        },
    }
}

/// The catch-all determination is best-effort: a probe error must not
/// abort the real probe, so it reads as "not a catch-all".
pub fn catch_all_verdict(result: &Result<Deliverability, SmtpError>) -> (r: bool)
    ensures
        result matches Ok(d) ==> r == d.is_deliverable,
        result is Err ==> !r,
{
    match result {
        Ok(d) => d.is_deliverable,
        Err(_) => false,
    }
}

/// Where one probe attempt stands.  Each phase names the network action
/// the driver must perform next; `session_step` consumes its outcome.
pub enum SessionPhase {
    /// Open the transport and run the handshake and sender steps.
    /// `recovering` is set on the one re-establishment allowed after the
    /// dropped-connection misbehavior.
    Connecting { recovering: bool },
    /// Probe a synthetic random address to test for a catch-all domain.
    CheckingCatchAll,
    /// Probe the real target address.  `recovered` is set once the one
    /// reconnect cycle has been spent.
    ProbingTarget { recovered: bool },
    /// Close the session; the substantive verdict is already known.
    Closing { is_catch_all: bool, verdict: Deliverability },
    /// The attempt is over.
    Done { result: Result<(bool, Deliverability), SmtpError> },
}

/// What the driver hands back after performing the phase's action.
pub enum SessionEvent {
    /// Establishment succeeded; the session sits ready for commands.
    Connected,
    /// Establishment failed (best-effort cleanup already done).
    ConnectFailed { error: SmtpError },
    /// The catch-all probe finished with this best-effort verdict.
    CatchAll { positive: bool },
    /// The real-address probe finished, already interpreted.
    Probed { result: Result<Deliverability, SmtpError> },
    /// The final close succeeded.
    ClosedOk,
    /// The final close failed; at this point that is reportable.
    CloseFailed { error: SmtpError },
}

/// The events that make sense in a given phase.
pub open spec fn phase_accepts(phase: SessionPhase, event: SessionEvent) -> bool {
    match phase {
        SessionPhase::Connecting { .. } => event is Connected || event is ConnectFailed,
        SessionPhase::CheckingCatchAll => event is CatchAll,
        SessionPhase::ProbingTarget { .. } => event is Probed,
        SessionPhase::Closing { .. } => event is ClosedOk || event is CloseFailed,
        SessionPhase::Done { .. } => false,
    }
}

/// The orchestrator's transition relation.
///
/// A positive catch-all short-circuits the real probe with the fixed
/// deliverable verdict.  An `io: incomplete` failure of the first real
/// probe buys exactly one reconnection, which goes straight back to the
/// real probe; any failure after that recovery is final.
pub open spec fn session_step_spec(phase: SessionPhase, event: SessionEvent) -> SessionPhase
    recommends
        phase_accepts(phase, event),
{
    match (phase, event) {
        (SessionPhase::Connecting { recovering }, SessionEvent::Connected) => if recovering {
            SessionPhase::ProbingTarget { recovered: true }
        } else {
            SessionPhase::CheckingCatchAll
        },
        (SessionPhase::Connecting { .. }, SessionEvent::ConnectFailed { error }) => (
        SessionPhase::Done { result: Err(error) }),
        (SessionPhase::CheckingCatchAll, SessionEvent::CatchAll { positive }) => if positive {
            SessionPhase::Closing {
                is_catch_all: true,
                verdict: deliverability_flags(false, true, false),
            }
        } else {
            SessionPhase::ProbingTarget { recovered: false }
        },
        (SessionPhase::ProbingTarget { recovered }, SessionEvent::Probed { result }) => match result {
            Ok(d) => SessionPhase::Closing { is_catch_all: false, verdict: d },
            Err(e) => if !recovered && e.is_io_incomplete() {
                SessionPhase::Connecting { recovering: true }
            } else {
                SessionPhase::Done { result: Err(e) }
            },
        },
        (SessionPhase::Closing { is_catch_all, verdict }, SessionEvent::ClosedOk) => (
        SessionPhase::Done { result: Ok((is_catch_all, verdict)) }),
        (SessionPhase::Closing { .. }, SessionEvent::CloseFailed { error }) => (SessionPhase::Done {
            result: Err(error),
        }),
        _ => phase,
    }
}

/// Advance the orchestrator by one event.
pub fn session_step(phase: SessionPhase, event: SessionEvent) -> (next: SessionPhase)
    requires
        phase_accepts(phase, event),
    ensures
        next == session_step_spec(phase, event),
{
    match (phase, event) {
        (SessionPhase::Connecting { recovering }, SessionEvent::Connected) => if recovering {
            SessionPhase::ProbingTarget { recovered: true }
        } else {
            SessionPhase::CheckingCatchAll
        },
        (SessionPhase::Connecting { .. }, SessionEvent::ConnectFailed { error }) => {
            SessionPhase::Done { result: Err(error) }
        },
        (SessionPhase::CheckingCatchAll, SessionEvent::CatchAll { positive }) => if positive {
            SessionPhase::Closing {
                is_catch_all: true,
                verdict: Deliverability {
                    has_full_inbox: false,
                    is_deliverable: true,
                    is_disabled: false,
                },
            }
        } else {
            SessionPhase::ProbingTarget { recovered: false }
        },
        (SessionPhase::ProbingTarget { recovered }, SessionEvent::Probed { result }) => match result {
            Ok(d) => SessionPhase::Closing { is_catch_all: false, verdict: d },
            Err(e) => if !recovered && e.check_io_incomplete() {
                SessionPhase::Connecting { recovering: true }
            } else {
                SessionPhase::Done { result: Err(e) }
            },
        },
        (SessionPhase::Closing { is_catch_all, verdict }, SessionEvent::ClosedOk) => {
            SessionPhase::Done { result: Ok((is_catch_all, verdict)) }
        },
        (SessionPhase::Closing { .. }, SessionEvent::CloseFailed { error }) => {
            SessionPhase::Done { result: Err(error) }
        },
        (p, _) => p,
    }
}

/// Decide at run time whether an event makes sense in a phase.
pub fn phase_accepts_event(phase: &SessionPhase, event: &SessionEvent) -> (r: bool)
    ensures
        r == phase_accepts(*phase, *event),
{
    match phase {
        SessionPhase::Connecting { .. } => match event {
            SessionEvent::Connected => true,
            SessionEvent::ConnectFailed { .. } => true,
            _ => false,
        },
        SessionPhase::CheckingCatchAll => match event {
            SessionEvent::CatchAll { .. } => true,
            _ => false,
        },
        SessionPhase::ProbingTarget { .. } => match event {
            SessionEvent::Probed { .. } => true,
            _ => false,
        },
        SessionPhase::Closing { .. } => match event {
            SessionEvent::ClosedOk => true,
            SessionEvent::CloseFailed { .. } => true,
            _ => false,
        },
        SessionPhase::Done { .. } => false,
    }
}

/// Where a run of the orchestrator ends up when it starts in `phase`
/// and consumes `events` in order: the attempt's result, or `None` when
/// the events do not fit the phases.
pub open spec fn drive_session_spec(phase: SessionPhase, events: Seq<SessionEvent>) -> Option<
    Result<(bool, Deliverability), SmtpError>,
>
    decreases events.len(),
{
    match phase {
        SessionPhase::Done { result } => Some(result),
        _ => {
            if events.len() == 0 {
                None
            } else if !phase_accepts(phase, events[0]) {
                None
            } else {
                drive_session_spec(session_step_spec(phase, events[0]), events.drop_first())
            }
        },
    }
}

/// Run one whole attempt over a recorded feed of events, from
/// establishment to the final result.
#[verifier::loop_isolation(false)]
pub fn drive_session(events: Vec<SessionEvent>) -> (r: Option<
    Result<(bool, Deliverability), SmtpError>,
>)
    ensures
        r == drive_session_spec(SessionPhase::Connecting { recovering: false }, events@),
{
    let ghost orig = events@;
    let mut events = events;
    let mut phase = SessionPhase::Connecting { recovering: false };
    loop
        invariant
            drive_session_spec(phase, events@) == drive_session_spec(
                SessionPhase::Connecting { recovering: false },
                orig,
            ),
        decreases events@.len(),
    {
        match phase {
            SessionPhase::Done { result } => {
                return Some(result);
            },
            p => {
                if events.len() == 0 {
                    return None;
                }
                let ghost before = events@;
                let ev = events.remove(0);
                assert(before.drop_first() =~= events@);
                if !phase_accepts_event(&p, &ev) {
                    return None;
                }
                phase = session_step(p, ev);
            },
        }
    }
}

/// Once this holds, the one reconnect recovery is no longer available
/// in the rest of the attempt.
pub open spec fn recovery_spent(phase: SessionPhase) -> bool {
    match phase {
        SessionPhase::Connecting { recovering } => recovering,
        SessionPhase::CheckingCatchAll => false,
        SessionPhase::ProbingTarget { recovered } => recovered,
        SessionPhase::Closing { .. } => true,
        SessionPhase::Done { .. } => true,
    }
}

/// How many times a run through `events` re-enters establishment for
/// the dropped-connection recovery.
pub open spec fn reconnects_in_run(phase: SessionPhase, events: Seq<SessionEvent>) -> nat
    decreases events.len(),
{
    match phase {
        SessionPhase::Done { .. } => 0,
        _ => {
            if events.len() == 0 || !phase_accepts(phase, events[0]) {
                0
            } else {
                let next = session_step_spec(phase, events[0]);
                (if next == (SessionPhase::Connecting { recovering: true }) {
                    1nat
                } else {
                    0nat
                }) + reconnects_in_run(next, events.drop_first())
            }
        },
    }
}

/// One attempt performs the reconnect recovery at most once, whatever
/// events the network produces; once spent, it never recurs.
pub proof fn lemma_at_most_one_reconnect(phase: SessionPhase, events: Seq<SessionEvent>)
    ensures
        reconnects_in_run(phase, events) <= 1,
        recovery_spent(phase) ==> reconnects_in_run(phase, events) == 0,
    decreases events.len(),
{
    match phase {
        SessionPhase::Done { .. } => {
        },
        _ => {
            if events.len() > 0 && phase_accepts(phase, events[0]) {
                lemma_at_most_one_reconnect(
                    session_step_spec(phase, events[0]),
                    events.drop_first(),
                );
            }
        },
    }
}

/// Fold the attempt's verdict into the caller-facing details.  Reaching
/// a verdict at all means the session was established, so the
/// can-connect flag is always up here; a failed establishment surfaces
/// as an error instead — a deliberate choice: no details value is
/// fabricated for a server that was never reached.
pub fn assemble_details(is_catch_all: bool, verdict: Deliverability) -> (r: SmtpDetails)
    requires
        is_catch_all ==> verdict == deliverability_flags(false, true, false),
    ensures
        r.can_connect_smtp,
        r.is_catch_all == is_catch_all,
        r.has_full_inbox == verdict.has_full_inbox,
        r.is_deliverable == verdict.is_deliverable,
        r.is_disabled == verdict.is_disabled,
        r.wf(),
{
    SmtpDetails {
        can_connect_smtp: true,
        has_full_inbox: verdict.has_full_inbox,
        is_catch_all,
        is_deliverable: verdict.is_deliverable,
        is_disabled: verdict.is_disabled,
    }
}

/// A positive catch-all verdict fixes the final details, whatever the
/// real-address probe would have said: deliverable, not full, not
/// disabled.
pub proof fn lemma_catch_all_short_circuit()
    ensures
        forall|recovered: bool, result: Result<Deliverability, SmtpError>|
            (session_step_spec(
                SessionPhase::CheckingCatchAll,
                SessionEvent::CatchAll { positive: true },
            ) != (SessionPhase::ProbingTarget { recovered })
                && #[trigger] session_step_spec(
                SessionPhase::ProbingTarget { recovered },
                SessionEvent::Probed { result },
            ) != SessionPhase::CheckingCatchAll),
        (session_step_spec(
            SessionPhase::CheckingCatchAll,
            SessionEvent::CatchAll { positive: true },
        ) == SessionPhase::Closing {
            is_catch_all: true,
            verdict: deliverability_flags(false, true, false),
        }),
{
}

/// A phase never carries a positive catch-all with anything but the
/// fixed deliverable verdict.
pub open spec fn catch_all_sound(phase: SessionPhase) -> bool {
    match phase {
        SessionPhase::Closing { is_catch_all, verdict } => is_catch_all ==> verdict
            == deliverability_flags(false, true, false),
        SessionPhase::Done { result } => result matches Ok(r) ==> (r.0 ==> r.1
            == deliverability_flags(false, true, false)),
        _ => true,
    }
}

/// No event can attach a different verdict to a positive catch-all.
pub proof fn lemma_step_preserves_catch_all_sound(phase: SessionPhase, event: SessionEvent)
    requires
        catch_all_sound(phase),
    ensures
        catch_all_sound(session_step_spec(phase, event)),
{
}

/// Whatever events the network produces, a run that reports a positive
/// catch-all reports the fixed verdict with it: deliverable, inbox not
/// full, not disabled.
pub proof fn lemma_catch_all_verdict_fixed(phase: SessionPhase, events: Seq<SessionEvent>)
    requires
        catch_all_sound(phase),
        drive_session_spec(phase, events) matches Some(r) && r matches Ok(outcome) && outcome.0,
    ensures
        (drive_session_spec(phase, events)->Some_0)->Ok_0.1 == deliverability_flags(
            false,
            true,
            false,
        ),
    decreases events.len(),
{
    match phase {
        SessionPhase::Done { result } => {
        },
        _ => {
            lemma_step_preserves_catch_all_sound(phase, events[0]);
            lemma_catch_all_verdict_fixed(
                session_step_spec(phase, events[0]),
                events.drop_first(),
            );
        },
    }
}

/// The dropped-connection misbehavior buys exactly one recovery: the
/// first `io: incomplete` probe failure leads back to establishment,
/// and from the recovered probe the same failure is final.
pub proof fn lemma_single_reconnect(e: SmtpError)
    requires
        e.is_io_incomplete(),
    ensures
        (session_step_spec(
            SessionPhase::ProbingTarget { recovered: false },
            SessionEvent::Probed { result: Err(e) },
        ) == SessionPhase::Connecting { recovering: true }),
        (session_step_spec(
            SessionPhase::Connecting { recovering: true },
            SessionEvent::Connected,
        ) == SessionPhase::ProbingTarget { recovered: true }),
        (session_step_spec(
            SessionPhase::ProbingTarget { recovered: true },
            SessionEvent::Probed { result: Err(e) },
        ) == SessionPhase::Done { result: Err(e) }),
{
}

} // verus!
