//! Resuming the scheduler after the system wakes: a small state machine.
//!
//! The caller performs each action (waiting for the lid, waiting for the
//! network, reloading the jobs, starting the scheduler) and hands back what
//! it observed; `wake_step` decides what comes next.
use vstd::prelude::*;

verus! {

/// Where the wake handling stands.
#[derive(Debug, Clone, Copy, PartialEq, Eq, Structural)]
pub enum WakePhase {
    /// The wake event has just arrived.
    Begin,
    /// Waiting for the lid to open.
    WaitingForLid,
    /// Waiting for the network to come up.
    Stabilizing,
    /// Stopping the scheduler, clearing and reloading its jobs.
    Reloading,
    /// Starting the scheduler.
    Starting,
    /// The scheduler runs again.
    Resumed,
    /// The scheduler stays paused.
    KeptPaused,
}

/// What the caller observed since the last step.
#[derive(Debug, Clone, Copy, PartialEq, Eq, Structural)]
pub enum WakeEvent {
    /// The state of the system when the wake event arrived.
    Observed { clamshell_closed: bool },
    /// The wait for the lid ended, with the lid open or not.
    LidWaitEnded { opened: bool },
    /// The network wait ended; whether the scheduler may run now.
    Stabilized { can_run: bool },
    /// The reload ended (successfully or not); whether the scheduler may run
    /// now.
    Reloaded { ok: bool, can_run: bool },
    /// The scheduler was started (whatever it answered).
    Started,
}

/// What the caller does next.
#[derive(Debug, Clone, Copy, PartialEq, Eq, Structural)]
pub enum WakeAction {
    WaitForLid,
    WaitForNetwork,
    ReloadJobs,
    StartScheduler,
    Nothing,
}

/// The next phase and action of the wake handling.
pub open spec fn wake_next(phase: WakePhase, event: WakeEvent) -> (WakePhase, WakeAction) {
    match (phase, event) {
        (WakePhase::Begin, WakeEvent::Observed { clamshell_closed }) => if clamshell_closed {
            (WakePhase::WaitingForLid, WakeAction::WaitForLid)
        } else {
            (WakePhase::Stabilizing, WakeAction::WaitForNetwork)
        },
        (WakePhase::WaitingForLid, WakeEvent::LidWaitEnded { opened }) => if opened {
            (WakePhase::Stabilizing, WakeAction::WaitForNetwork)
        } else {
            (WakePhase::KeptPaused, WakeAction::Nothing)
        },
        (WakePhase::Stabilizing, WakeEvent::Stabilized { can_run }) => if can_run {
            (WakePhase::Reloading, WakeAction::ReloadJobs)
        } else {
            (WakePhase::KeptPaused, WakeAction::Nothing)
        },
        (WakePhase::Reloading, WakeEvent::Reloaded { ok, can_run }) => if ok && can_run {
            (WakePhase::Starting, WakeAction::StartScheduler)
        } else {
            (WakePhase::KeptPaused, WakeAction::Nothing)
        },
        (WakePhase::Starting, WakeEvent::Started) => (WakePhase::Resumed, WakeAction::Nothing),
        _ => (phase, WakeAction::Nothing),
    }
}

/// Decides the next step of the wake handling.
pub fn wake_step(phase: WakePhase, event: WakeEvent) -> (r: (WakePhase, WakeAction))
    ensures
        r == wake_next(phase, event),
{
    match (phase, event) {
        (WakePhase::Begin, WakeEvent::Observed { clamshell_closed }) => if clamshell_closed {
            (WakePhase::WaitingForLid, WakeAction::WaitForLid)
        } else {
            (WakePhase::Stabilizing, WakeAction::WaitForNetwork)
        },
        (WakePhase::WaitingForLid, WakeEvent::LidWaitEnded { opened }) => if opened {
            (WakePhase::Stabilizing, WakeAction::WaitForNetwork)
        } else {
            (WakePhase::KeptPaused, WakeAction::Nothing)
        },
        (WakePhase::Stabilizing, WakeEvent::Stabilized { can_run }) => if can_run {
            (WakePhase::Reloading, WakeAction::ReloadJobs)
        } else {
            (WakePhase::KeptPaused, WakeAction::Nothing)
        },
        (WakePhase::Reloading, WakeEvent::Reloaded { ok, can_run }) => if ok && can_run {
            (WakePhase::Starting, WakeAction::StartScheduler)
        } else {
            (WakePhase::KeptPaused, WakeAction::Nothing)
        },
        (WakePhase::Starting, WakeEvent::Started) => (WakePhase::Resumed, WakeAction::Nothing),
        _ => (phase, WakeAction::Nothing),
    }
}

/// The scheduler is started only right after a successful reload made while
/// the system was available; jobs are reloaded only once the network wait
/// found the system available; and once resumed or kept paused, the wake
/// handling does nothing more.
pub proof fn law_wake_guards(phase: WakePhase, event: WakeEvent)
    ensures
        wake_next(phase, event).1 == WakeAction::StartScheduler ==> phase == WakePhase::Reloading
            && event == (WakeEvent::Reloaded { ok: true, can_run: true }),
        wake_next(phase, event).1 == WakeAction::ReloadJobs ==> phase == WakePhase::Stabilizing
            && event == (WakeEvent::Stabilized { can_run: true }),
        (phase == WakePhase::Resumed || phase == WakePhase::KeptPaused) ==> wake_next(phase, event)
            == (phase, WakeAction::Nothing),
{
}


/// The scheduler is kept paused only for one of three reasons: the lid did
/// not open while the handling waited for it, the system was still
/// unavailable once the network wait ended, or the reload failed or found
/// the system unavailable. A wake with the lid open never keeps it paused
/// at once.
pub proof fn law_kept_paused_only_for_a_reason(phase: WakePhase, event: WakeEvent)
    ensures
        wake_next(phase, event).0 == WakePhase::KeptPaused && phase != WakePhase::KeptPaused ==> (
        phase == WakePhase::WaitingForLid && event == (WakeEvent::LidWaitEnded { opened: false }))
            || (phase == WakePhase::Stabilizing && event == (WakeEvent::Stabilized {
            can_run: false,
        })) || (phase == WakePhase::Reloading && (event matches WakeEvent::Reloaded { ok, can_run }
            && !(ok && can_run))),
{
}

/// The network wait that precedes resuming starts exactly when the system
/// woke with its lid open, or when the lid opened while the handling waited
/// for it; the lid is waited for exactly when it was closed on wake.
pub proof fn law_open_lid_leads_to_network_wait(phase: WakePhase, event: WakeEvent)
    ensures
        wake_next(phase, event).1 == WakeAction::WaitForNetwork <==> (phase == WakePhase::Begin
            && event == (WakeEvent::Observed { clamshell_closed: false })) || (phase
            == WakePhase::WaitingForLid && event == (WakeEvent::LidWaitEnded { opened: true })),
        wake_next(phase, event).1 == WakeAction::WaitForLid <==> phase == WakePhase::Begin && event
            == (WakeEvent::Observed { clamshell_closed: true }),
        wake_next(phase, event).1 == WakeAction::WaitForNetwork ==> wake_next(phase, event).0
            == WakePhase::Stabilizing,
{
}

/// The phase the wake handling reaches when it observes `events` in turn
/// from `phase`.
pub open spec fn wake_trace(phase: WakePhase, events: Seq<WakeEvent>) -> WakePhase
    decreases events.len(),
{
    if events.len() == 0 {
        phase
    } else {
        wake_trace(wake_next(phase, events[0]).0, events.drop_first())
    }
}

/// A wake that finds (or waits for) the lid open, an available system after
/// the network wait, and a successful reload ends with the scheduler
/// running again, whether the lid was open or closed at first.
pub proof fn law_wake_resumes_when_all_goes_well(clamshell_closed: bool)
    ensures
        wake_trace(
            WakePhase::Begin,
            if clamshell_closed {
                seq![
                    WakeEvent::Observed { clamshell_closed: true },
                    WakeEvent::LidWaitEnded { opened: true },
                    WakeEvent::Stabilized { can_run: true },
                    WakeEvent::Reloaded { ok: true, can_run: true },
                    WakeEvent::Started,
                ]
            } else {
                seq![
                    WakeEvent::Observed { clamshell_closed: false },
                    WakeEvent::Stabilized { can_run: true },
                    WakeEvent::Reloaded { ok: true, can_run: true },
                    WakeEvent::Started,
                ]
            },
        ) == WakePhase::Resumed,
{
    reveal_with_fuel(wake_trace, 6);
}

} // verus!
