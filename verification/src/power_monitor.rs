//! The power state of the machine (awake or sleeping), the decisions taken
//! on each system power notification, and reading the lid (clamshell)
//! state.
//!
//! Receiving the notifications and answering the power manager is platform
//! code run by the caller; what it should do for a notification is decided
//! by `decide_power_callback_action`.
use crate::text::{
    chars_eq_ignore_ascii_case, chars_of, eq_ignore_ascii_case, has_prefix, lines, lines_chars,
    skip_chars, starts_with, trim, trim_chars, views,
};
use vstd::prelude::*;

verus! {

/// The power manager asks whether the system may sleep.
pub const K_IO_MESSAGE_CAN_SYSTEM_SLEEP: u32 = 0x1;

/// The system is about to sleep.
pub const K_IO_MESSAGE_SYSTEM_WILL_SLEEP: u32 = 0x2;

/// A sleep that was announced will not happen.
pub const K_IO_MESSAGE_SYSTEM_WILL_NOT_SLEEP: u32 = 0x4;

/// The system has powered on after sleeping.
pub const K_IO_MESSAGE_SYSTEM_HAS_POWERED_ON: u32 = 0x8;

/// The platform the application runs on, where behaviour differs.
#[derive(Debug, Clone, Copy, PartialEq, Eq, Structural)]
pub enum Platform {
    MacOs,
    Other,
}

/// Power event types.
#[derive(Debug, Clone, Copy, PartialEq, Eq, Structural)]
pub enum PowerEvent {
    /// About to enter sleep.
    WillSleep { notification_id: isize },
    /// The system has woken up.
    DidWake,
}

/// The kind of event a power notification produces.
#[derive(Debug, Clone, Copy, PartialEq, Eq, Structural)]
pub enum CallbackEventKind {
    WillSleep,
    DidWake,
}

/// What to do for one power notification: which event to emit, what to set
/// the power state to, and whether to allow the sleep at once.
#[derive(Debug, Clone, Copy, PartialEq, Eq, Structural)]
pub struct CallbackDecision {
    pub emit_event: Option<CallbackEventKind>,
    pub set_sleeping: Option<bool>,
    pub allow_sleep: bool,
}

/// The power state: 0 = awake, 1 = sleeping.
#[derive(Debug, Clone, Copy, PartialEq, Eq, Structural)]
pub struct PowerState {
    state: u8,
}

impl PowerState {
    /// Whether the state is "sleeping".
    pub closed spec fn sleeping(&self) -> bool {
        self.state == 1
    }

    /// A machine that is awake.
    pub fn new() -> (r: Self)
        ensures
            !r.sleeping(),
    {
        PowerState { state: 0 }
    }
}

/// Whether the system is currently sleeping.
pub fn is_sleeping(state: &PowerState) -> (r: bool)
    ensures
        r == state.sleeping(),
{
    state.state == 1
}

/// Sets the power state.
pub fn set_sleeping(state: &mut PowerState, sleeping: bool)
    ensures
        final(state).sleeping() == sleeping,
{
    state.state = if sleeping {
        1
    } else {
        0
    };
}

/// Runs `f` on the power state and then restores the state it had before,
/// so that a check that changes the state leaves no trace.
pub fn with_test_power_state_lock<T, F: FnOnce(PowerState) -> (T, PowerState)>(
    state: &mut PowerState,
    f: F,
) -> (r: T)
    requires
        f.requires((*old(state),)),
    ensures
        final(state).sleeping() == old(state).sleeping(),
        exists|s: PowerState| f.ensures((*old(state),), (r, s)),
{
    let before = is_sleeping(state);
    let (result, after) = f(*state);
    *state = after;
    set_sleeping(state, before);
    result
}

/// The decision for a power notification, given whether the machine is
/// marked as sleeping: a sleep query is allowed at once; "will sleep" marks
/// the machine sleeping and emits an event unless it already was; "powered
/// on" marks it awake and emits a wake event if it was sleeping; "will not
/// sleep" marks it awake; anything else is ignored.
pub open spec fn power_decision(message_type: u32, sleeping: bool) -> CallbackDecision {
    if message_type == K_IO_MESSAGE_CAN_SYSTEM_SLEEP {
        CallbackDecision { emit_event: None, set_sleeping: None, allow_sleep: true }
    } else if message_type == K_IO_MESSAGE_SYSTEM_WILL_SLEEP {
        CallbackDecision {
            emit_event: if sleeping {
                None
            } else {
                Some(CallbackEventKind::WillSleep)
            },
            set_sleeping: Some(true),
            allow_sleep: false,
        }
    } else if message_type == K_IO_MESSAGE_SYSTEM_HAS_POWERED_ON {
        CallbackDecision {
            emit_event: if sleeping {
                Some(CallbackEventKind::DidWake)
            } else {
                None
            },
            set_sleeping: Some(false),
            allow_sleep: false,
        }
    } else if message_type == K_IO_MESSAGE_SYSTEM_WILL_NOT_SLEEP {
        CallbackDecision { emit_event: None, set_sleeping: Some(false), allow_sleep: false }
    } else {
        CallbackDecision { emit_event: None, set_sleeping: None, allow_sleep: false }
    }
}

/// Decides what to do for a power notification.
pub fn decide_power_callback_action(message_type: u32, sleeping: bool) -> (r: CallbackDecision)
    ensures
        r == power_decision(message_type, sleeping),
{
    if message_type == K_IO_MESSAGE_CAN_SYSTEM_SLEEP {
        CallbackDecision { emit_event: None, set_sleeping: None, allow_sleep: true }
    } else if message_type == K_IO_MESSAGE_SYSTEM_WILL_SLEEP {
        CallbackDecision {
            emit_event: if sleeping {
                None
            } else {
                Some(CallbackEventKind::WillSleep)
            },
            set_sleeping: Some(true),
            allow_sleep: false,
        }
    } else if message_type == K_IO_MESSAGE_SYSTEM_HAS_POWERED_ON {
        CallbackDecision {
            emit_event: if sleeping {
                Some(CallbackEventKind::DidWake)
            } else {
                None
            },
            set_sleeping: Some(false),
            allow_sleep: false,
        }
    } else if message_type == K_IO_MESSAGE_SYSTEM_WILL_NOT_SLEEP {
        CallbackDecision { emit_event: None, set_sleeping: Some(false), allow_sleep: false }
    } else {
        CallbackDecision { emit_event: None, set_sleeping: None, allow_sleep: false }
    }
}

/// The power state after a decision was carried out.
pub open spec fn sleeping_after(sleeping: bool, d: CallbackDecision) -> bool {
    match d.set_sleeping {
        Some(b) => b,
        None => sleeping,
    }
}

/// Applies a decision to the power state.
pub fn apply_power_decision(state: &mut PowerState, decision: &CallbackDecision)
    ensures
        final(state).sleeping() == sleeping_after(old(state).sleeping(), *decision),
{
    if let Some(new_state) = decision.set_sleeping {
        set_sleeping(state, new_state);
    }
}

/// Events follow the power state: a sleep event is emitted only when an
/// awake machine becomes sleeping, and a wake event only when a sleeping
/// machine becomes awake; so two sleep events never follow each other
/// without a wake event between them.
pub proof fn law_events_follow_state(message_type: u32, sleeping: bool)
    ensures
        power_decision(message_type, sleeping).emit_event == Some(CallbackEventKind::WillSleep)
            ==> !sleeping && sleeping_after(sleeping, power_decision(message_type, sleeping)),
        power_decision(message_type, sleeping).emit_event == Some(CallbackEventKind::DidWake)
            ==> sleeping && !sleeping_after(sleeping, power_decision(message_type, sleeping)),
{
}

/// A repeated "will sleep" notification emits no second sleep event.
pub proof fn law_will_sleep_emits_once(sleeping: bool)
    ensures
        power_decision(
            K_IO_MESSAGE_SYSTEM_WILL_SLEEP,
            sleeping_after(sleeping, power_decision(K_IO_MESSAGE_SYSTEM_WILL_SLEEP, sleeping)),
        ).emit_event is None,
{
}

/// Only the sleep query is answered at once; an announced sleep is
/// acknowledged later, once the application has paused its work.
pub proof fn law_only_query_allows_sleep(message_type: u32, sleeping: bool)
    ensures
        power_decision(message_type, sleeping).allow_sleep <==> message_type
            == K_IO_MESSAGE_CAN_SYSTEM_SLEEP,
{
}

/// The lid state a line of `ioreg` output reports: the trimmed line starts
/// with `"AppleClamshellState" =`, and the rest, trimmed, is `Yes` (closed)
/// or `No` (open), in any letter case.
pub open spec fn clamshell_line(line: Seq<char>) -> Option<bool> {
    let t = trim(line);
    let label = "\"AppleClamshellState\" ="@;
    if has_prefix(t, label) {
        let v = trim(t.subrange(label.len() as int, t.len() as int));
        if eq_ignore_ascii_case(v, "Yes"@) {
            Some(true)
        } else if eq_ignore_ascii_case(v, "No"@) {
            Some(false)
        } else {
            None
        }
    } else {
        None
    }
}

/// The lid state reported by the first line that reports one.
pub open spec fn clamshell_state(ls: Seq<Seq<char>>) -> Option<bool>
    decreases ls.len(),
{
    if ls.len() == 0 {
        None
    } else {
        match clamshell_line(ls[0]) {
            Some(b) => Some(b),
            None => clamshell_state(ls.drop_first()),
        }
    }
}

fn clamshell_line_of(line: &[char]) -> (r: Option<bool>)
    ensures
        r == clamshell_line(line@),
{
    let t = trim_chars(line);
    let label = chars_of("\"AppleClamshellState\" =");
    if !starts_with(t.as_slice(), label.as_slice()) {
        return None;
    }
    let rest = skip_chars(t.as_slice(), label.len());
    let v = trim_chars(rest.as_slice());
    if chars_eq_ignore_ascii_case(v.as_slice(), chars_of("Yes").as_slice()) {
        Some(true)
    } else if chars_eq_ignore_ascii_case(v.as_slice(), chars_of("No").as_slice()) {
        Some(false)
    } else {
        None
    }
}

/// Reads the lid state from `ioreg -r -k AppleClamshellState -d 1` output:
/// `Some(true)` when closed, `Some(false)` when open, `None` when no line
/// reports it.
pub fn parse_apple_clamshell_state(output: &str) -> (r: Option<bool>)
    ensures
        r == clamshell_state(lines(output@)),
{
    let text = chars_of(output);
    let ls = lines_chars(text.as_slice());
    let ghost lv = views(ls@);
    let mut i: usize = 0;
    assert(lv.subrange(0, lv.len() as int) == lv);
    while i < ls.len()
        invariant
            i <= ls@.len(),
            lv == views(ls@),
            lv == lines(output@),
            clamshell_state(lv) == clamshell_state(lv.subrange(i as int, lv.len() as int)),
        decreases ls@.len() - i,
    {
        let ghost rest = lv.subrange(i as int, lv.len() as int);
        assert(rest[0] == ls@[i as int]@);
        assert(rest.drop_first() == lv.subrange(i + 1, lv.len() as int));
        let here = clamshell_line_of(ls[i].as_slice());
        if here.is_some() {
            return here;
        }
        i = i + 1;
    }
    assert(lv.subrange(i as int, lv.len() as int).len() == 0);
    None
}

/// Whether the lid is closed. On macOS the state read from `ioreg` decides,
/// and a state that could not be read counts as closed; elsewhere there is
/// no lid.
pub fn is_clamshell_closed(platform: Platform, reading: Option<bool>) -> (r: bool)
    ensures
        r == match platform {
            Platform::MacOs => match reading {
                Some(b) => b,
                None => true,
            },
            Platform::Other => false,
        },
{
    match platform {
        Platform::MacOs => match reading {
            Some(b) => b,
            None => true,
        },
        Platform::Other => false,
    }
}

/// Whether the scheduler may run now: the machine is awake and its lid open.
pub fn can_run_scheduler_now(state: &PowerState, clamshell_closed: bool) -> (r: bool)
    ensures
        r == (!state.sleeping() && !clamshell_closed),
{
    !is_sleeping(state) && !clamshell_closed
}

/// Allows an announced sleep to proceed. The power manager is only present
/// on macOS, where the caller answers it; here this does nothing.
pub fn acknowledge_sleep(_notification_id: isize) {
}

/// Makes sure an announced sleep is acknowledged exactly once, whichever way
/// the sleep handling ends.
#[derive(Debug)]
pub struct SleepAcknowledgeGuard {
    notification_id: isize,
    acknowledged: bool,
}

impl SleepAcknowledgeGuard {
    /// The notification this guard answers.
    pub closed spec fn notification(&self) -> isize {
        self.notification_id
    }

    /// Whether the sleep was acknowledged.
    pub closed spec fn is_acknowledged(&self) -> bool {
        self.acknowledged
    }

    /// A guard for a sleep announcement that is not acknowledged yet.
    pub fn new(notification_id: isize) -> (r: Self)
        ensures
            r.notification() == notification_id,
            !r.is_acknowledged(),
    {
        SleepAcknowledgeGuard { notification_id, acknowledged: false }
    }

    /// Whether the sleep was acknowledged.
    pub fn acknowledged(&self) -> (r: bool)
        ensures
            r == self.is_acknowledged(),
    {
        self.acknowledged
    }

    /// Acknowledges the sleep unless that was done already.
    pub fn acknowledge(&mut self)
        ensures
            final(self).is_acknowledged(),
            final(self).notification() == old(self).notification(),
    {
        if !self.acknowledged {
            acknowledge_sleep(self.notification_id);
            self.acknowledged = true;
        }
    }
}

} // verus!
