//! Door lock state management
//!
//! The door lock state machine: which state changes are allowed, the timeout
//! attached to each state, and the bounded history of changes.

use vstd::prelude::*;

use super::table::{
    change_log_as_slice, change_log_is_full, change_log_new, change_log_push, change_log_remove,
    log_items, now_millis, rule_items, rule_table_as_slice, rule_table_new, rule_table_push,
};
use super::UnlockSource;
use crate::error::LockError;

verus! {

/// Door lock state
#[derive(Debug, Clone, Copy, PartialEq, Eq, Structural)]
pub enum LockState {
    /// Locked state
    Locked,
    /// Unlocked state
    Unlocked,
    /// Unlocking (transition state)
    Unlocking,
    /// Locking (transition state)
    Locking,
    /// Fault state
    Fault(FaultReason),
    /// Maintenance mode
    Maintenance,
    /// Emergency unlock
    Emergency,
    /// Tamper alert
    TamperAlert,
}

/// Fault reason
#[derive(Debug, Clone, Copy, PartialEq, Eq, Structural)]
pub enum FaultReason {
    /// Motor fault
    MotorFault,
    /// Sensor fault
    SensorFault,
    /// Communication fault
    CommunicationFault,
    /// Power fault
    PowerFault,
    /// Mechanical fault
    MechanicalFault,
    /// Unknown fault
    Unknown,
}

/// Door lock working mode
#[derive(Debug, Clone, Copy, PartialEq, Eq, Structural)]
pub enum LockMode {
    /// Normal mode
    Normal,
    /// Always open mode (office hours)
    AlwaysOpen,
    /// Always closed mode (security mode)
    AlwaysClosed,
    /// One-time mode (auto lock after opening)
    OneTime,
    /// Scheduled mode (work by schedule)
    Scheduled,
    /// Double authentication mode
    DoubleAuth,
}

/// Physical door status
#[derive(Debug, Clone, Copy, PartialEq, Eq, Structural)]
pub enum DoorStatus {
    /// Door closed
    Closed,
    /// Door open
    Open,
    /// Door ajar
    Ajar,
    /// Unknown status
    Unknown,
}

/// Complete door lock status information
#[derive(Debug, Clone)]
pub struct LockStatus {
    /// Current state
    pub state: LockState,
    /// Working mode
    pub mode: LockMode,
    /// Last state change time, in milliseconds of the embassy clock
    pub last_change: u64,
    /// Last unlock source
    pub last_unlock_source: Option<UnlockSource>,
    /// Daily unlock count
    pub daily_unlock_count: u32,
    /// Consecutive failed attempts
    pub failed_attempts: u8,
    /// Battery level (percentage)
    pub battery_level: Option<u8>,
    /// Physical door status
    pub door_status: DoorStatus,
}

/// State transition condition
#[derive(Debug, Clone)]
pub enum TransitionCondition {
    /// Authentication success
    AuthSuccess,
    /// Timeout
    Timeout,
    /// Manual trigger
    Manual,
    /// Auto trigger
    Auto,
    /// Emergency
    Emergency,
    /// Fault recovery
    FaultRecovery,
}

/// State transition rule
pub struct StateTransition {
    /// From state
    pub from: LockState,
    /// To state
    pub to: LockState,
    /// Transition condition
    pub condition: TransitionCondition,
}

/// State change record
#[derive(Debug, Clone)]
pub struct StateChange {
    /// State before the change
    pub from: LockState,
    /// State after the change
    pub to: LockState,
    /// When the change happened, in milliseconds of the embassy clock
    pub timestamp: u64,
    /// Why the change happened
    pub reason: TransitionCondition,
}

/// State timeout configuration
#[derive(Debug, Clone, Copy, PartialEq, Eq, Structural)]
pub struct StateTimeout {
    /// The state the timeout belongs to
    pub state: LockState,
    /// How long the state may last, in milliseconds
    pub duration_ms: u64,
    /// The state to go to when the time is up
    pub target_state: LockState,
}

/// State machine manager
pub struct StateMachine {
    current_state: LockState,
    mode: LockMode,
    transitions: heapless::Vec<StateTransition, 32>,
    history: heapless::Vec<StateChange, 100>,
    state_timeout: Option<StateTimeout>,
    state_since: u64,
}

/// What a state machine holds, as the contracts see it.
#[verifier::ext_equal]
pub struct MachineView {
    /// The current state
    pub current: LockState,
    /// The working mode
    pub mode: LockMode,
    /// The recorded changes, oldest first
    pub history: Seq<StateChange>,
    /// The timeout armed for the current state
    pub timeout: Option<StateTimeout>,
    /// When the current state was entered, in milliseconds of the embassy
    /// clock: the time of the last recorded change, and 0 before any
    pub since: u64,
}

/// How many state changes the history keeps.
pub open spec fn history_capacity() -> nat {
    100
}

/// Whether one rule of the table lets the machine go from `current` to
/// `target`: a rule out of a fault state covers every fault state and every
/// target; otherwise the rule's source must be `current`, and its destination
/// `target`, where any fault state stands for any other.
pub open spec fn rule_permits(rule: StateTransition, current: LockState, target: LockState) -> bool {
    if rule.from is Fault && current is Fault {
        true
    } else if rule.from == current {
        (rule.to is Fault && target is Fault) || rule.to == target
    } else {
        false
    }
}

/// Whether some rule of `rules` lets the machine go from `current` to `target`.
pub open spec fn rules_permit(rules: Seq<StateTransition>, current: LockState, target: LockState) -> bool {
    exists|i: int| 0 <= i < rules.len() && #[trigger] rule_permits(rules[i], current, target)
}

/// The transition rules a state machine is created with.
pub open spec fn default_rules() -> Seq<StateTransition> {
    seq![
        StateTransition { from: LockState::Locked, to: LockState::Unlocking, condition: TransitionCondition::AuthSuccess },
        StateTransition { from: LockState::Unlocking, to: LockState::Unlocked, condition: TransitionCondition::Auto },
        StateTransition { from: LockState::Unlocked, to: LockState::Locking, condition: TransitionCondition::Auto },
        StateTransition { from: LockState::Locking, to: LockState::Locked, condition: TransitionCondition::Auto },
        StateTransition { from: LockState::Locked, to: LockState::Emergency, condition: TransitionCondition::Emergency },
        StateTransition { from: LockState::Unlocking, to: LockState::Fault(FaultReason::Unknown), condition: TransitionCondition::Timeout },
        StateTransition { from: LockState::Locking, to: LockState::Fault(FaultReason::Unknown), condition: TransitionCondition::Timeout },
    ]
}

/// The state changes the lock allows: locked to unlocking or to emergency,
/// unlocking to unlocked or to a fault, unlocked to locking, locking to locked
/// or to a fault. No other change is allowed; in particular none out of a
/// fault, out of emergency, out of maintenance or out of a tamper alert.
pub open spec fn transition_allowed(current: LockState, target: LockState) -> bool {
    match current {
        LockState::Locked => target == LockState::Unlocking || target == LockState::Emergency,
        LockState::Unlocking => target == LockState::Unlocked || target is Fault,
        LockState::Unlocked => target == LockState::Locking,
        LockState::Locking => target == LockState::Locked || target is Fault,
        _ => false,
    }
}

/// The timeout armed on entering `state`: five seconds in unlocked, then
/// locking; three seconds in unlocking or locking, then an unknown fault; no
/// timeout in any other state.
pub open spec fn timeout_for(state: LockState) -> Option<StateTimeout> {
    match state {
        LockState::Unlocked => Some(
            StateTimeout { state, duration_ms: 5000, target_state: LockState::Locking },
        ),
        LockState::Unlocking | LockState::Locking => Some(
            StateTimeout {
                state,
                duration_ms: 3000,
                target_state: LockState::Fault(FaultReason::Unknown),
            },
        ),
        _ => None,
    }
}

/// The history after recording `change`: when it already holds as many
/// records as it keeps, the oldest is dropped first.
pub open spec fn history_after(history: Seq<StateChange>, change: StateChange) -> Seq<StateChange> {
    if history.len() >= history_capacity() {
        history.drop_first().push(change)
    } else {
        history.push(change)
    }
}

/// What a pending timeout yields at time `now` (in milliseconds of the
/// embassy clock) for a machine that entered `current` at `since`: the target
/// of `timeout` when the timeout belongs to `current` and at least its
/// duration has passed since then, and nothing otherwise.
pub open spec fn timeout_result(current: LockState, timeout: Option<StateTimeout>, since: u64, now: u64) -> Option<LockState> {
    match timeout {
        Some(t) => if t.state == current && since <= now && now - since >= t.duration_ms {
            Some(t.target_state)
        } else {
            None
        },
        None => None,
    }
}

/// The state a pending timeout leads to from `state`, when the timeout armed
/// on entering `state` runs out.
pub open spec fn timeout_target(state: LockState) -> Option<LockState> {
    match timeout_for(state) {
        Some(t) => Some(t.target_state),
        None => None,
    }
}

/// Whether a state is one of the secure ones: locked, locking or maintenance.
pub open spec fn secure_state(state: LockState) -> bool {
    match state {
        LockState::Locked | LockState::Locking | LockState::Maintenance => true,
        _ => false,
    }
}

/// Whether mode changes are refused in a state: in a fault and in emergency.
pub open spec fn mode_locked_in(state: LockState) -> bool {
    state is Fault || state == LockState::Emergency
}

/// The states a state machine can be in: those that the allowed transitions
/// reach from locked.
pub open spec fn reachable_state(state: LockState) -> bool {
    match state {
        LockState::Locked | LockState::Unlocking | LockState::Unlocked | LockState::Locking
        | LockState::Emergency | LockState::Fault(_) => true,
        _ => false,
    }
}

impl View for StateMachine {
    type V = MachineView;

    closed spec fn view(&self) -> MachineView {
        MachineView {
            current: self.current_state,
            mode: self.mode,
            history: log_items(self.history),
            timeout: self.state_timeout,
            since: self.state_since,
        }
    }
}

/// The view of a newly created state machine.
pub open spec fn initial_view() -> MachineView {
    MachineView {
        current: LockState::Locked,
        mode: LockMode::Normal,
        history: Seq::empty(),
        timeout: None,
        since: 0,
    }
}

/// A call on a state machine, as the contracts see it.
pub enum MachineCall {
    /// `transition_at(target, condition, timestamp)`, or `try_transition`
    /// when the clock read `timestamp`
    Transition { target: LockState, condition: TransitionCondition, timestamp: u64 },
    /// `clear_fault()`
    ClearFault,
    /// `set_mode(mode)`
    SetMode(LockMode),
    /// `check_timeout_at(now)`, or `check_timeout` when the clock read `now`
    CheckTimeout(u64),
}

/// The view after `call` on a machine whose view is `v`: an allowed
/// transition moves to its target, records the change, arms the target's
/// timeout and notes the time; clearing a fault goes back to locked; a mode
/// change outside a fault and outside emergency sets the mode; every refused
/// call and every timeout check changes nothing.
pub open spec fn machine_step(v: MachineView, call: MachineCall) -> MachineView {
    match call {
        MachineCall::Transition { target, condition, timestamp } => if transition_allowed(v.current, target) {
            MachineView {
                current: target,
                mode: v.mode,
                history: history_after(
                    v.history,
                    StateChange { from: v.current, to: target, timestamp, reason: condition },
                ),
                timeout: timeout_for(target),
                since: timestamp,
            }
        } else {
            v
        },
        MachineCall::ClearFault => if v.current is Fault {
            MachineView { current: LockState::Locked, ..v }
        } else {
            v
        },
        MachineCall::SetMode(mode) => if mode_locked_in(v.current) {
            v
        } else {
            MachineView { mode, ..v }
        },
        MachineCall::CheckTimeout(_) => v,
    }
}

/// The view of a new machine after the calls `calls`, in order.
pub open spec fn run_calls(calls: Seq<MachineCall>) -> MachineView
    decreases calls.len(),
{
    if calls.len() == 0 {
        initial_view()
    } else {
        machine_step(run_calls(calls.drop_last()), calls.last())
    }
}

/// Whether the call at `i` changed the state of a new machine run through
/// `calls`: an allowed transition, or clearing a fault.
pub open spec fn changes_state(calls: Seq<MachineCall>, i: int) -> bool {
    step_changes_state(run_calls(calls.take(i)), calls[i])
}

/// Whether `call` changes the state of a machine whose view is `v`: an
/// allowed transition, or clearing a fault.
pub open spec fn step_changes_state(v: MachineView, call: MachineCall) -> bool {
    match call {
        MachineCall::Transition { target, .. } => transition_allowed(v.current, target),
        MachineCall::ClearFault => v.current is Fault,
        _ => false,
    }
}

/// Whether `call` changes the mode of a machine whose view is `v`: a mode
/// change outside a fault and outside emergency.
pub open spec fn step_changes_mode(v: MachineView, call: MachineCall) -> bool {
    call is SetMode && !mode_locked_in(v.current)
}

/// The state a state-changing call moves to.
pub open spec fn state_set_by(call: MachineCall) -> LockState {
    match call {
        MachineCall::Transition { target, .. } => target,
        _ => LockState::Locked,
    }
}

/// Whether the call at `i` changed the mode of a new machine run through
/// `calls`: a mode change outside a fault and outside emergency.
pub open spec fn changes_mode(calls: Seq<MachineCall>, i: int) -> bool {
    step_changes_mode(run_calls(calls.take(i)), calls[i])
}

/// The mode a mode-changing call sets.
pub open spec fn mode_set_by(call: MachineCall) -> LockMode {
    match call {
        MachineCall::SetMode(mode) => mode,
        _ => LockMode::Normal,
    }
}

/// The records of the allowed transitions among `calls` on a new machine, in
/// the order they were made.
pub open spec fn recorded_changes(calls: Seq<MachineCall>) -> Seq<StateChange>
    decreases calls.len(),
{
    if calls.len() == 0 {
        Seq::empty()
    } else {
        let v = run_calls(calls.drop_last());
        let earlier = recorded_changes(calls.drop_last());
        match calls.last() {
            MachineCall::Transition { target, condition, timestamp } => if transition_allowed(v.current, target) {
                earlier.push(StateChange { from: v.current, to: target, timestamp, reason: condition })
            } else {
                earlier
            },
            _ => earlier,
        }
    }
}

/// The latest records of `records` that the history keeps, oldest first.
pub open spec fn latest_records(records: Seq<StateChange>) -> Seq<StateChange> {
    if records.len() <= history_capacity() {
        records
    } else {
        records.skip(records.len() - history_capacity())
    }
}

/// The rule table after the default rules are pushed onto `rules`: the rules
/// that fit in the table's capacity, the others dropped.
pub open spec fn capped_rules(rules: Seq<StateTransition>) -> Seq<StateTransition> {
    if rules.len() <= 32 {
        rules
    } else {
        rules.take(32)
    }
}

impl StateMachine {
    /// What every state machine keeps: the rule table it was created with, no
    /// more records than the history keeps, the timeout of its current state
    /// armed, and a current state that the rules reach.
    pub closed spec fn wf(&self) -> bool {
        &&& rule_items(self.transitions) == default_rules()
        &&& log_items(self.history).len() <= history_capacity()
        &&& self.state_timeout == timeout_for(self.current_state)
        &&& reachable_state(self.current_state)
    }

    /// Create new state machine
    pub fn new() -> (sm: Self)
        ensures
            sm.wf(),
            sm@.current == LockState::Locked,
            sm@.mode == LockMode::Normal,
            sm@.history == Seq::<StateChange>::empty(),
            sm@.timeout == None::<StateTimeout>,
            sm@ == initial_view(),
    {
        let mut sm = Self {
            current_state: LockState::Locked,
            mode: LockMode::Normal,
            transitions: rule_table_new(),
            history: change_log_new(),
            state_timeout: None,
            state_since: 0,
        };
        sm.init_transitions();
        sm
    }

    /// Initialize state transition rules
    fn init_transitions(&mut self)
        requires
            rule_items(old(self).transitions).len() <= 32,
        ensures
            rule_items(final(self).transitions) == capped_rules(rule_items(old(self).transitions) + default_rules()),
            final(self).current_state == old(self).current_state,
            final(self).mode == old(self).mode,
            final(self).history == old(self).history,
            final(self).state_timeout == old(self).state_timeout,
            final(self).state_since == old(self).state_since,
    {
        let ghost start = rule_items(self.transitions);
        assert(start + default_rules().take(0) =~= start);
        // Normal unlock flow
        let _ = rule_table_push(
            &mut self.transitions,
            StateTransition {
                from: LockState::Locked,
                to: LockState::Unlocking,
                condition: TransitionCondition::AuthSuccess,
            },
        );
        proof {
            lemma_capped_push(start + default_rules().take(0), default_rules()[0]);
            assert((start + default_rules().take(0)).push(default_rules()[0]) =~= start + default_rules().take(1));
        }
        let _ = rule_table_push(
            &mut self.transitions,
            StateTransition {
                from: LockState::Unlocking,
                to: LockState::Unlocked,
                condition: TransitionCondition::Auto,
            },
        );
        proof {
            lemma_capped_push(start + default_rules().take(1), default_rules()[1]);
            assert((start + default_rules().take(1)).push(default_rules()[1]) =~= start + default_rules().take(2));
        }
        // Normal lock flow
        let _ = rule_table_push(
            &mut self.transitions,
            StateTransition {
                from: LockState::Unlocked,
                to: LockState::Locking,
                condition: TransitionCondition::Auto,
            },
        );
        proof {
            lemma_capped_push(start + default_rules().take(2), default_rules()[2]);
            assert((start + default_rules().take(2)).push(default_rules()[2]) =~= start + default_rules().take(3));
        }
        let _ = rule_table_push(
            &mut self.transitions,
            StateTransition {
                from: LockState::Locking,
                to: LockState::Locked,
                condition: TransitionCondition::Auto,
            },
        );
        proof {
            lemma_capped_push(start + default_rules().take(3), default_rules()[3]);
            assert((start + default_rules().take(3)).push(default_rules()[3]) =~= start + default_rules().take(4));
        }
        // Emergency unlock
        let _ = rule_table_push(
            &mut self.transitions,
            StateTransition {
                from: LockState::Locked,
                to: LockState::Emergency,
                condition: TransitionCondition::Emergency,
            },
        );
        proof {
            lemma_capped_push(start + default_rules().take(4), default_rules()[4]);
            assert((start + default_rules().take(4)).push(default_rules()[4]) =~= start + default_rules().take(5));
        }
        // Fault handling
        let _ = rule_table_push(
            &mut self.transitions,
            StateTransition {
                from: LockState::Unlocking,
                to: LockState::Fault(FaultReason::Unknown),
                condition: TransitionCondition::Timeout,
            },
        );
        proof {
            lemma_capped_push(start + default_rules().take(5), default_rules()[5]);
            assert((start + default_rules().take(5)).push(default_rules()[5]) =~= start + default_rules().take(6));
        }
        let _ = rule_table_push(
            &mut self.transitions,
            StateTransition {
                from: LockState::Locking,
                to: LockState::Fault(FaultReason::Unknown),
                condition: TransitionCondition::Timeout,
            },
        );
        proof {
            lemma_capped_push(start + default_rules().take(6), default_rules()[6]);
            assert((start + default_rules().take(6)).push(default_rules()[6]) =~= start + default_rules().take(7));
        }
        assert(default_rules().take(7) =~= default_rules());
    }

    /// Whether the rule table lets the machine go from its current state to
    /// `target`.
    fn permits(&self, target: LockState) -> (b: bool)
        requires
            self.wf(),
        ensures
            b == transition_allowed(self.current_state, target),
    {
        let rules = rule_table_as_slice(&self.transitions);
        let current = self.current_state;
        proof {
            lemma_default_rules_are_the_allowed_transitions(current, target);
        }
        let mut i: usize = 0;
        while i < rules.len()
            invariant
                i <= rules@.len(),
                rules@ == default_rules(),
                current == self.current_state,
                forall|j: int| 0 <= j < i ==> !#[trigger] rule_permits(rules@[j], current, target),
            decreases rules@.len() - i,
        {
            if rule_matches(&rules[i], current, target) {
                assert(rule_permits(default_rules()[i as int], current, target));
                return true;
            }
            i = i + 1;
        }
        false
    }

    /// Try state transition
    pub fn try_transition(&mut self, target: LockState, condition: TransitionCondition) -> (r: Result<(), LockError>)
        requires
            old(self).wf(),
        ensures
            final(self).wf(),
            r is Ok <==> transition_allowed(old(self)@.current, target),
            r is Err ==> r == Err::<(), LockError>(LockError::InvalidStateTransition),
            r is Err ==> *final(self) == *old(self),
            r is Ok ==> final(self)@ =~= (MachineView {
                current: target,
                mode: old(self)@.mode,
                history: history_after(
                    old(self)@.history,
                    StateChange {
                        from: old(self)@.current,
                        to: target,
                        timestamp: final(self)@.since,
                        reason: condition,
                    },
                ),
                timeout: timeout_for(target),
                since: final(self)@.since,
            }),
            final(self)@ == machine_step(
                old(self)@,
                MachineCall::Transition { target, condition, timestamp: final(self)@.since },
            ),
    {
        let timestamp = now_millis();
        self.transition_at(target, condition, timestamp)
    }

    /// Try state transition, recording `timestamp` (in milliseconds of the
    /// embassy clock) as the time of the change.
    pub fn transition_at(&mut self, target: LockState, condition: TransitionCondition, timestamp: u64) -> (r: Result<(), LockError>)
        requires
            old(self).wf(),
        ensures
            final(self).wf(),
            r is Ok <==> transition_allowed(old(self)@.current, target),
            r is Err ==> r == Err::<(), LockError>(LockError::InvalidStateTransition),
            r is Err ==> *final(self) == *old(self),
            r is Ok ==> final(self)@ =~= (MachineView {
                current: target,
                mode: old(self)@.mode,
                history: history_after(
                    old(self)@.history,
                    StateChange { from: old(self)@.current, to: target, timestamp, reason: condition },
                ),
                timeout: timeout_for(target),
                since: timestamp,
            }),
            final(self)@ == machine_step(
                old(self)@,
                MachineCall::Transition { target, condition, timestamp },
            ),
    {
        // Check if transition is allowed
        if !self.permits(target) {
            return Err(LockError::InvalidStateTransition);
        }
        // Record state change
        let change = StateChange { from: self.current_state, to: target, timestamp, reason: condition };
        let ghost old_history = log_items(self.history);
        // Save history (circular buffer)
        if change_log_is_full(&self.history) {
            let _ = change_log_remove(&mut self.history, 0);
            assert(log_items(self.history) =~= old_history.drop_first());
        }
        let _ = change_log_push(&mut self.history, change);
        // Update state
        self.current_state = target;
        self.state_since = timestamp;
        // Set state timeout
        self.setup_timeout(target);
        Ok(())
    }

    /// Set state timeout
    fn setup_timeout(&mut self, state: LockState)
        ensures
            final(self).state_timeout == timeout_for(state),
            final(self).current_state == old(self).current_state,
            final(self).mode == old(self).mode,
            final(self).transitions == old(self).transitions,
            final(self).history == old(self).history,
            final(self).state_since == old(self).state_since,
    {
        self.state_timeout = match state {
            LockState::Unlocked => Some(
                StateTimeout { state, duration_ms: 5000, target_state: LockState::Locking },
            ),
            LockState::Unlocking | LockState::Locking => Some(
                StateTimeout {
                    state,
                    duration_ms: 3000,
                    target_state: LockState::Fault(FaultReason::Unknown),
                },
            ),
            _ => None,
        };
    }

    /// Check and handle timeout, reading the clock: the state the armed
    /// timeout leads to, once its duration has passed since the current state
    /// was entered.
    pub fn check_timeout(&mut self) -> (r: Option<LockState>)
        requires
            old(self).wf(),
        ensures
            *final(self) == *old(self),
            exists|now: u64| r == timeout_result(old(self)@.current, old(self)@.timeout, old(self)@.since, now),
            r == None::<LockState> || r == timeout_target(old(self)@.current),
    {
        let now = now_millis();
        self.check_timeout_at(now)
    }

    /// Check and handle timeout at time `now` (in milliseconds of the embassy
    /// clock): the state the armed timeout leads to when it belongs to the
    /// current state and at least its duration has passed since that state was
    /// entered, and nothing otherwise.
    pub fn check_timeout_at(&mut self, now: u64) -> (r: Option<LockState>)
        requires
            old(self).wf(),
        ensures
            *final(self) == *old(self),
            r == timeout_result(old(self)@.current, old(self)@.timeout, old(self)@.since, now),
            r is Some ==> r == timeout_target(old(self)@.current),
            final(self)@ == machine_step(old(self)@, MachineCall::CheckTimeout(now)),
    {
        if let Some(timeout) = self.state_timeout {
            if self.current_state == timeout.state && self.state_since <= now
                && now - self.state_since >= timeout.duration_ms {
                return Some(timeout.target_state);
            }
        }
        None
    }

    /// Get current state
    pub fn current(&self) -> (s: LockState)
        ensures
            s == self@.current,
    {
        self.current_state
    }

    /// Get working mode
    pub fn mode(&self) -> (m: LockMode)
        ensures
            m == self@.mode,
    {
        self.mode
    }

    /// Set working mode
    pub fn set_mode(&mut self, mode: LockMode) -> (r: Result<(), LockError>)
        requires
            old(self).wf(),
        ensures
            final(self).wf(),
            r is Err <==> mode_locked_in(old(self)@.current),
            r is Err ==> r == Err::<(), LockError>(LockError::OperationNotAllowed),
            r is Err ==> *final(self) == *old(self),
            r is Ok ==> final(self)@ =~= (MachineView { mode, ..old(self)@ }),
            final(self)@ == machine_step(old(self)@, MachineCall::SetMode(mode)),
    {
        // Mode switching not allowed in certain states
        match self.current_state {
            LockState::Fault(_) | LockState::Emergency => {
                return Err(LockError::OperationNotAllowed);
            },
            _ => {},
        }
        self.mode = mode;
        Ok(())
    }

    /// Is in secure state (locked)
    pub fn is_secure(&self) -> (b: bool)
        ensures
            b == secure_state(self@.current),
    {
        matches!(self.current_state, LockState::Locked | LockState::Locking | LockState::Maintenance)
    }

    /// Get state history
    pub fn get_history(&self) -> (h: &[StateChange])
        ensures
            h@ == self@.history,
    {
        change_log_as_slice(&self.history)
    }

    /// Clear fault state
    pub fn clear_fault(&mut self) -> (r: Result<(), LockError>)
        requires
            old(self).wf(),
        ensures
            final(self).wf(),
            r is Ok <==> old(self)@.current is Fault,
            r is Err ==> r == Err::<(), LockError>(LockError::InvalidStateTransition),
            r is Err ==> *final(self) == *old(self),
            r is Ok ==> final(self)@ =~= (MachineView { current: LockState::Locked, ..old(self)@ }),
            final(self)@ == machine_step(old(self)@, MachineCall::ClearFault),
    {
        if matches!(self.current_state, LockState::Fault(_)) {
            self.current_state = LockState::Locked;
            Ok(())
        } else {
            Err(LockError::InvalidStateTransition)
        }
    }
}

impl Default for StateMachine {
    fn default() -> (sm: Self)
        ensures
            sm.wf(),
            sm@.current == LockState::Locked,
            sm@.mode == LockMode::Normal,
            sm@.history == Seq::<StateChange>::empty(),
            sm@.timeout == None::<StateTimeout>,
            sm@ == initial_view(),
    {
        Self::new()
    }
}

/// Whether one rule lets the machine go from `current` to `target`.
fn rule_matches(rule: &StateTransition, current: LockState, target: LockState) -> (b: bool)
    ensures
        b == rule_permits(*rule, current, target),
{
    match (rule.from, current) {
        (LockState::Fault(_), LockState::Fault(_)) => true,
        (from, current) if from == current => {
            match (rule.to, target) {
                (LockState::Fault(_), LockState::Fault(_)) => true,
                (to, tgt) => to == tgt,
            }
        },
        _ => false,
    }
}

/// The rule table a state machine is created with allows exactly the
/// transitions of `transition_allowed`.
pub proof fn lemma_default_rules_are_the_allowed_transitions(current: LockState, target: LockState)
    ensures
        rules_permit(default_rules(), current, target) <==> transition_allowed(current, target),
{
    let rules = default_rules();
    assert(rules.len() == 7);
    if transition_allowed(current, target) {
        if current == LockState::Locked && target == LockState::Unlocking {
            assert(rule_permits(rules[0], current, target));
        } else if current == LockState::Unlocking && target == LockState::Unlocked {
            assert(rule_permits(rules[1], current, target));
        } else if current == LockState::Unlocked {
            assert(rule_permits(rules[2], current, target));
        } else if current == LockState::Locking && target == LockState::Locked {
            assert(rule_permits(rules[3], current, target));
        } else if current == LockState::Locked {
            assert(rule_permits(rules[4], current, target));
        } else if current == LockState::Unlocking {
            assert(rule_permits(rules[5], current, target));
        } else {
            assert(rule_permits(rules[6], current, target));
        }
    }
    assert forall|i: int| 0 <= i < rules.len() && #[trigger] rule_permits(rules[i], current, target)
        implies transition_allowed(current, target) by {
        if i == 0 {
        } else if i == 1 {
        } else if i == 2 {
        } else if i == 3 {
        } else if i == 4 {
        } else if i == 5 {
        } else {
        }
    }
}

/// A pending timeout always leads to a state that the rules allow from the
/// state it belongs to: unlocked times out into locking, unlocking and locking
/// time out into a fault.
pub proof fn lemma_timeout_leads_to_allowed_state(state: LockState)
    ensures
        timeout_target(state) matches Some(next) ==> transition_allowed(state, next),
{
}

/// Emergency is final: no transition leaves it, the mode cannot be changed in
/// it, and it is no fault that could be cleared.
pub proof fn lemma_emergency_is_final(target: LockState)
    ensures
        !transition_allowed(LockState::Emergency, target),
        mode_locked_in(LockState::Emergency),
        !(LockState::Emergency is Fault),
        timeout_for(LockState::Emergency) == None::<StateTimeout>,
{
}

/// A fault is left only by clearing it: no transition leaves a fault state,
/// no timeout is armed in it, and the mode cannot be changed in it.
pub proof fn lemma_fault_is_left_only_by_clearing(state: LockState, target: LockState)
    requires
        state is Fault,
    ensures
        !transition_allowed(state, target),
        timeout_for(state) == None::<StateTimeout>,
        mode_locked_in(state),
{
}

/// Every state machine is in a state that the rules reach from locked, has
/// the timeout of that state armed, and keeps at most as many records as the
/// history holds.
pub proof fn lemma_machine_invariant(sm: &StateMachine)
    requires
        sm.wf(),
    ensures
        reachable_state(sm@.current),
        sm@.timeout == timeout_for(sm@.current),
        sm@.history.len() <= history_capacity(),
        sm@.current != LockState::Maintenance,
        sm@.current != LockState::TamperAlert,
{
}

/// The history keeps the latest changes in the order they happened: after a
/// change is recorded it is the newest record, the earlier records are the
/// newest ones held before (all of them, or all but the oldest when the
/// history was full), and the history never holds more than it keeps.
pub proof fn lemma_history_keeps_latest(history: Seq<StateChange>, change: StateChange)
    requires
        history.len() <= history_capacity(),
    ensures
        history_after(history, change).len() <= history_capacity(),
        history_after(history, change).last() == change,
        history.len() < history_capacity() ==> history_after(history, change).len() == history.len() + 1,
        history.len() == history_capacity() ==> history_after(history, change).len() == history_capacity(),
        history_after(history, change).drop_last() == history.subrange(
            history.len() + 1 - history_after(history, change).len(),
            history.len() as int,
        ),
{
    assert(history.push(change).drop_last() =~= history);
    assert(history.drop_first().push(change).drop_last() =~= history.drop_first());
    assert(history.subrange(0, history.len() as int) =~= history);
    assert(history.subrange(1, history.len() as int) =~= history.drop_first());
}

/// Pushing onto a table cut to its capacity does what cutting the longer
/// sequence does: the item is kept when there is room, and dropped otherwise.
proof fn lemma_capped_push(rules: Seq<StateTransition>, rule: StateTransition)
    ensures
        capped_rules(rules).len() <= 32,
        (if capped_rules(rules).len() < 32 {
            capped_rules(rules).push(rule)
        } else {
            capped_rules(rules)
        }) == capped_rules(rules.push(rule)),
{
    if rules.len() >= 32 {
        assert(rules.push(rule).take(32) =~= rules.take(32));
    }
}

/// One call sets the state it moves to when it changes the state, and keeps
/// the state otherwise; it sets the mode it names when it changes the mode,
/// and keeps the mode otherwise.
proof fn lemma_step_current_and_mode(v: MachineView, call: MachineCall)
    ensures
        machine_step(v, call).current == (if step_changes_state(v, call) {
            state_set_by(call)
        } else {
            v.current
        }),
        machine_step(v, call).mode == (if step_changes_mode(v, call) {
            mode_set_by(call)
        } else {
            v.mode
        }),
{
}

/// The calls before the last one change state and mode on the longer run
/// exactly as on the run without the last call.
proof fn lemma_prefix_changes(calls: Seq<MachineCall>)
    requires
        calls.len() > 0,
    ensures
        run_calls(calls) == machine_step(run_calls(calls.drop_last()), calls[calls.len() - 1]),
        changes_state(calls, calls.len() - 1) == step_changes_state(run_calls(calls.drop_last()), calls[calls.len() - 1]),
        changes_mode(calls, calls.len() - 1) == step_changes_mode(run_calls(calls.drop_last()), calls[calls.len() - 1]),
        forall|i: int| 0 <= i < calls.len() - 1 ==> #[trigger] changes_state(calls, i) == changes_state(calls.drop_last(), i),
        forall|i: int| 0 <= i < calls.len() - 1 ==> #[trigger] changes_mode(calls, i) == changes_mode(calls.drop_last(), i),
{
    let prefix = calls.drop_last();
    let n = calls.len() - 1;
    assert(calls.take(n) =~= prefix);
    assert forall|i: int| 0 <= i < n implies #[trigger] changes_state(calls, i) == changes_state(prefix, i) by {
        assert(calls.take(i) =~= prefix.take(i));
        assert(calls[i] == prefix[i]);
    }
    assert forall|i: int| 0 <= i < n implies #[trigger] changes_mode(calls, i) == changes_mode(prefix, i) by {
        assert(calls.take(i) =~= prefix.take(i));
        assert(calls[i] == prefix[i]);
    }
}

/// The current state of a machine is the state set by the last call that
/// changed it (an allowed transition, or clearing a fault), and locked when
/// no call did; refused calls, mode changes and timeout checks never change it.
pub proof fn lemma_current_is_last_state_change(calls: Seq<MachineCall>)
    ensures
        (forall|i: int| 0 <= i < calls.len() ==> !#[trigger] changes_state(calls, i))
            ==> run_calls(calls).current == LockState::Locked,
        forall|i: int|
            0 <= i < calls.len() && #[trigger] changes_state(calls, i) && (forall|j: int|
                i < j < calls.len() ==> !#[trigger] changes_state(calls, j)) ==> run_calls(calls).current
                == state_set_by(calls[i]),
    decreases calls.len(),
{
    if calls.len() > 0 {
        let prefix = calls.drop_last();
        let n = calls.len() - 1;
        lemma_current_is_last_state_change(prefix);
        lemma_prefix_changes(calls);
        lemma_step_current_and_mode(run_calls(prefix), calls[n]);
        if forall|i: int| 0 <= i < calls.len() ==> !#[trigger] changes_state(calls, i) {
            assert forall|i: int| 0 <= i < prefix.len() implies !#[trigger] changes_state(prefix, i) by {
                assert(!changes_state(calls, i));
            }
        }
        assert forall|i: int|
            0 <= i < calls.len() && #[trigger] changes_state(calls, i) && (forall|j: int|
                i < j < calls.len() ==> !#[trigger] changes_state(calls, j)) implies run_calls(calls).current
                == state_set_by(calls[i]) by {
            if i < n {
                assert(!changes_state(calls, n));
                assert(changes_state(prefix, i));
                assert forall|j: int| i < j < prefix.len() implies !#[trigger] changes_state(prefix, j) by {
                    assert(!changes_state(calls, j));
                }
                assert(prefix[i] == calls[i]);
            }
        }
    }
}

/// The mode of a machine is the mode set by the last call that changed it (a
/// mode change outside a fault and outside emergency), and normal when no
/// call did; transitions, clearing a fault, timeout checks and refused mode
/// changes never change it.
pub proof fn lemma_mode_is_last_mode_change(calls: Seq<MachineCall>)
    ensures
        (forall|i: int| 0 <= i < calls.len() ==> !#[trigger] changes_mode(calls, i))
            ==> run_calls(calls).mode == LockMode::Normal,
        forall|i: int|
            0 <= i < calls.len() && #[trigger] changes_mode(calls, i) && (forall|j: int|
                i < j < calls.len() ==> !#[trigger] changes_mode(calls, j)) ==> run_calls(calls).mode
                == mode_set_by(calls[i]),
    decreases calls.len(),
{
    if calls.len() > 0 {
        let prefix = calls.drop_last();
        let n = calls.len() - 1;
        lemma_mode_is_last_mode_change(prefix);
        lemma_prefix_changes(calls);
        lemma_step_current_and_mode(run_calls(prefix), calls[n]);
        if forall|i: int| 0 <= i < calls.len() ==> !#[trigger] changes_mode(calls, i) {
            assert forall|i: int| 0 <= i < prefix.len() implies !#[trigger] changes_mode(prefix, i) by {
                assert(!changes_mode(calls, i));
            }
        }
        assert forall|i: int|
            0 <= i < calls.len() && #[trigger] changes_mode(calls, i) && (forall|j: int|
                i < j < calls.len() ==> !#[trigger] changes_mode(calls, j)) implies run_calls(calls).mode
                == mode_set_by(calls[i]) by {
            if i < n {
                assert(!changes_mode(calls, n));
                assert(changes_mode(prefix, i));
                assert forall|j: int| i < j < prefix.len() implies !#[trigger] changes_mode(prefix, j) by {
                    assert(!changes_mode(calls, j));
                }
                assert(prefix[i] == calls[i]);
            }
        }
    }
}

/// The history of a machine holds the records of its latest allowed
/// transitions, at most as many as it keeps, oldest first; refused calls,
/// clearing a fault, mode changes and timeout checks add no record.
pub proof fn lemma_history_is_latest_changes(calls: Seq<MachineCall>)
    ensures
        run_calls(calls).history == latest_records(recorded_changes(calls)),
        run_calls(calls).history.len() <= history_capacity(),
    decreases calls.len(),
{
    if calls.len() > 0 {
        let prefix = calls.drop_last();
        lemma_history_is_latest_changes(prefix);
        let earlier = recorded_changes(prefix);
        let v = run_calls(prefix);
        match calls.last() {
            MachineCall::Transition { target, condition, timestamp } => {
                if transition_allowed(v.current, target) {
                    let change = StateChange { from: v.current, to: target, timestamp, reason: condition };
                    lemma_latest_after_push(earlier, change);
                }
            },
            _ => {},
        }
    }
}

/// Recording one more change keeps the latest records as the history does.
proof fn lemma_latest_after_push(records: Seq<StateChange>, change: StateChange)
    ensures
        latest_records(records.push(change)) == history_after(latest_records(records), change),
        latest_records(records).len() <= history_capacity(),
{
    if records.len() >= history_capacity() {
        assert(records.push(change).skip(records.len() + 1 - history_capacity()) =~= latest_records(
            records,
        ).drop_first().push(change));
    }
}

/// The rule table a state machine is created with holds exactly the seven
/// rules of the lock, in this order: locked to unlocking, unlocking to
/// unlocked, unlocked to locking, locking to locked, locked to emergency,
/// unlocking to an unknown fault, locking to an unknown fault.
pub proof fn lemma_rule_table_is_the_seven_rules()
    ensures
        default_rules().len() == 7,
        default_rules()[0].from == LockState::Locked && default_rules()[0].to == LockState::Unlocking,
        default_rules()[1].from == LockState::Unlocking && default_rules()[1].to == LockState::Unlocked,
        default_rules()[2].from == LockState::Unlocked && default_rules()[2].to == LockState::Locking,
        default_rules()[3].from == LockState::Locking && default_rules()[3].to == LockState::Locked,
        default_rules()[4].from == LockState::Locked && default_rules()[4].to == LockState::Emergency,
        default_rules()[5].from == LockState::Unlocking && default_rules()[5].to == LockState::Fault(FaultReason::Unknown),
        default_rules()[6].from == LockState::Locking && default_rules()[6].to == LockState::Fault(FaultReason::Unknown),
{
}

/// Out of each state, the lock accepts exactly these targets: from locked,
/// unlocking or emergency; from unlocking, unlocked or any fault; from
/// unlocked, only locking; from locking, locked or any fault; from a fault,
/// maintenance, emergency or a tamper alert, nothing.
pub proof fn lemma_targets_out_of_each_state(target: LockState, reason: FaultReason)
    ensures
        transition_allowed(LockState::Locked, target) <==> (target == LockState::Unlocking || target == LockState::Emergency),
        transition_allowed(LockState::Unlocking, target) <==> (target == LockState::Unlocked || target is Fault),
        transition_allowed(LockState::Unlocked, target) <==> target == LockState::Locking,
        transition_allowed(LockState::Locking, target) <==> (target == LockState::Locked || target is Fault),
        !transition_allowed(LockState::Fault(reason), target),
        !transition_allowed(LockState::Maintenance, target),
        !transition_allowed(LockState::Emergency, target),
        !transition_allowed(LockState::TamperAlert, target),
{
}

/// The lock never skips a phase of its cycle: it becomes locked only out of
/// locking, unlocked only out of unlocking, locking only out of unlocked,
/// unlocking only out of locked, and emergency only out of locked; no state
/// goes to itself, and maintenance and a tamper alert are never entered.
pub proof fn lemma_no_phase_is_skipped(current: LockState, target: LockState)
    requires
        transition_allowed(current, target),
    ensures
        target == LockState::Locked ==> current == LockState::Locking,
        target == LockState::Unlocked ==> current == LockState::Unlocking,
        target == LockState::Locking ==> current == LockState::Unlocked,
        target == LockState::Unlocking ==> current == LockState::Locked,
        target == LockState::Emergency ==> current == LockState::Locked,
        target is Fault ==> (current == LockState::Unlocking || current == LockState::Locking),
        current != target,
        target != LockState::Maintenance,
        target != LockState::TamperAlert,
{
}

/// A mode change is refused exactly in a fault and in emergency: it is taken
/// in locked, unlocking, unlocked, locking, maintenance and a tamper alert,
/// whatever the fault reason is when refused.
pub proof fn lemma_mode_change_refused_only_in_fault_or_emergency(reason: FaultReason)
    ensures
        mode_locked_in(LockState::Fault(reason)),
        mode_locked_in(LockState::Emergency),
        !mode_locked_in(LockState::Locked),
        !mode_locked_in(LockState::Unlocking),
        !mode_locked_in(LockState::Unlocked),
        !mode_locked_in(LockState::Locking),
        !mode_locked_in(LockState::Maintenance),
        !mode_locked_in(LockState::TamperAlert),
{
}

/// Among the states a machine can be in, the mode is locked exactly in those
/// that no transition leaves (a fault, emergency); and a mode change taken
/// there sets the mode and changes nothing else.
pub proof fn lemma_mode_change_follows_dead_ends(v: MachineView, mode: LockMode)
    requires
        reachable_state(v.current),
    ensures
        mode_locked_in(v.current) <==> (forall|t: LockState| !#[trigger] transition_allowed(v.current, t)),
        !mode_locked_in(v.current) ==> machine_step(v, MachineCall::SetMode(mode)).mode == mode,
        machine_step(v, MachineCall::SetMode(mode)).current == v.current,
        machine_step(v, MachineCall::SetMode(mode)).history == v.history,
{
    if !mode_locked_in(v.current) {
        match v.current {
            LockState::Locked => assert(transition_allowed(v.current, LockState::Unlocking)),
            LockState::Unlocking => assert(transition_allowed(v.current, LockState::Unlocked)),
            LockState::Unlocked => assert(transition_allowed(v.current, LockState::Locking)),
            LockState::Locking => assert(transition_allowed(v.current, LockState::Locked)),
            _ => {},
        }
    }
}

/// The secure states are exactly locked, locking and maintenance: no fault,
/// neither unlocking nor unlocked, and neither emergency nor a tamper alert
/// is secure.
pub proof fn lemma_secure_states_are_exactly_locked_locking_maintenance(reason: FaultReason)
    ensures
        secure_state(LockState::Locked),
        secure_state(LockState::Locking),
        secure_state(LockState::Maintenance),
        !secure_state(LockState::Fault(reason)),
        !secure_state(LockState::Unlocking),
        !secure_state(LockState::Unlocked),
        !secure_state(LockState::Emergency),
        !secure_state(LockState::TamperAlert),
{
}

/// Each lock-cycle step moves between a secure and an insecure state exactly
/// at the start of unlocking and at the start of locking: unlocking leaves
/// the secure states, locking re-enters them, and a fault or emergency is
/// never secure.
pub proof fn lemma_security_along_the_cycle(current: LockState, target: LockState)
    requires
        transition_allowed(current, target),
    ensures
        secure_state(target) <==> (target == LockState::Locking || target == LockState::Locked),
        (secure_state(current) && !secure_state(target)) ==> (target == LockState::Unlocking
            || target == LockState::Emergency || target is Fault),
{
}

/// The timeouts of the lock: unlocked turns into locking after 5000 ms,
/// unlocking and locking turn into an unknown fault after 3000 ms, and no
/// other state (whatever the fault reason) has a timeout.
pub proof fn lemma_timeouts_of_the_lock(reason: FaultReason)
    ensures
        timeout_for(LockState::Unlocked) == Some(StateTimeout { state: LockState::Unlocked, duration_ms: 5000, target_state: LockState::Locking }),
        timeout_for(LockState::Unlocking) == Some(StateTimeout { state: LockState::Unlocking, duration_ms: 3000, target_state: LockState::Fault(FaultReason::Unknown) }),
        timeout_for(LockState::Locking) == Some(StateTimeout { state: LockState::Locking, duration_ms: 3000, target_state: LockState::Fault(FaultReason::Unknown) }),
        timeout_for(LockState::Locked) is None,
        timeout_for(LockState::Fault(reason)) is None,
        timeout_for(LockState::Maintenance) is None,
        timeout_for(LockState::Emergency) is None,
        timeout_for(LockState::TamperAlert) is None,
        history_capacity() == 100,
{
}

/// A timeout check on a machine gives the timeout's target exactly when the
/// current state has a timeout and at least its duration has passed since the
/// state was entered; earlier checks, and checks in states without a
/// timeout, give nothing.
pub proof fn lemma_timeout_fires_after_its_duration(v: MachineView, now: u64)
    requires
        v.timeout == timeout_for(v.current),
    ensures
        timeout_result(v.current, v.timeout, v.since, now) is Some <==> (v.timeout is Some && v.since
            <= now && now - v.since >= v.timeout->Some_0.duration_ms),
        timeout_result(v.current, v.timeout, v.since, now) is Some ==> timeout_result(
            v.current,
            v.timeout,
            v.since,
            now,
        ) == timeout_target(v.current),
        (v.since <= now && now - v.since < 3000) ==> timeout_result(v.current, v.timeout, v.since, now) is None,
{
}

} // verus!
