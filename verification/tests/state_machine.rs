use oxidoor::lock::{FaultReason, LockMode, LockState, StateMachine, TransitionCondition};
use oxidoor::LockError;

fn unlock_lock_cycle(sm: &mut StateMachine) {
    assert_eq!(sm.try_transition(LockState::Unlocking, TransitionCondition::AuthSuccess), Ok(()));
    assert_eq!(sm.try_transition(LockState::Unlocked, TransitionCondition::Auto), Ok(()));
    assert_eq!(sm.try_transition(LockState::Locking, TransitionCondition::Auto), Ok(()));
    assert_eq!(sm.try_transition(LockState::Locked, TransitionCondition::Auto), Ok(()));
}

#[test]
fn new_machine_is_locked_in_normal_mode() {
    let sm = StateMachine::new();
    assert_eq!(sm.current(), LockState::Locked);
    assert_eq!(sm.mode(), LockMode::Normal);
    assert!(sm.get_history().is_empty());
    assert!(sm.is_secure());
}

#[test]
fn default_machine_equals_new_machine() {
    let sm = StateMachine::default();
    assert_eq!(sm.current(), LockState::Locked);
    assert_eq!(sm.mode(), LockMode::Normal);
    assert!(sm.get_history().is_empty());
}

#[test]
fn full_unlock_and_lock_cycle_returns_to_locked() {
    let mut sm = StateMachine::new();
    unlock_lock_cycle(&mut sm);
    assert_eq!(sm.current(), LockState::Locked);
    let history = sm.get_history();
    assert_eq!(history.len(), 4);
    assert_eq!(history[0].from, LockState::Locked);
    assert_eq!(history[0].to, LockState::Unlocking);
    assert!(matches!(history[0].reason, TransitionCondition::AuthSuccess));
    assert_eq!(history[1].from, LockState::Unlocking);
    assert_eq!(history[1].to, LockState::Unlocked);
    assert_eq!(history[2].to, LockState::Locking);
    assert_eq!(history[3].from, LockState::Locking);
    assert_eq!(history[3].to, LockState::Locked);
    assert!(matches!(history[3].reason, TransitionCondition::Auto));
}

#[test]
fn disallowed_transition_is_refused_and_changes_nothing() {
    let mut sm = StateMachine::new();
    assert_eq!(
        sm.try_transition(LockState::Unlocked, TransitionCondition::AuthSuccess),
        Err(LockError::InvalidStateTransition)
    );
    assert_eq!(sm.current(), LockState::Locked);
    assert!(sm.get_history().is_empty());
    assert_eq!(
        sm.try_transition(LockState::Maintenance, TransitionCondition::Manual),
        Err(LockError::InvalidStateTransition)
    );
    assert_eq!(
        sm.try_transition(LockState::Locked, TransitionCondition::Auto),
        Err(LockError::InvalidStateTransition)
    );
    assert_eq!(sm.current(), LockState::Locked);
}

#[test]
fn condition_does_not_decide_validity() {
    let mut sm = StateMachine::new();
    assert_eq!(sm.try_transition(LockState::Unlocking, TransitionCondition::Manual), Ok(()));
    assert!(matches!(sm.get_history()[0].reason, TransitionCondition::Manual));
    assert_eq!(sm.try_transition(LockState::Unlocked, TransitionCondition::FaultRecovery), Ok(()));
    assert_eq!(sm.current(), LockState::Unlocked);
}

#[test]
fn emergency_is_final() {
    let mut sm = StateMachine::new();
    assert_eq!(sm.try_transition(LockState::Emergency, TransitionCondition::Emergency), Ok(()));
    assert_eq!(sm.current(), LockState::Emergency);
    assert!(!sm.is_secure());
    for target in [
        LockState::Locked,
        LockState::Unlocked,
        LockState::Unlocking,
        LockState::Locking,
        LockState::Fault(FaultReason::Unknown),
        LockState::Maintenance,
        LockState::Emergency,
        LockState::TamperAlert,
    ] {
        assert_eq!(
            sm.try_transition(target, TransitionCondition::Manual),
            Err(LockError::InvalidStateTransition)
        );
    }
    assert_eq!(sm.set_mode(LockMode::AlwaysOpen), Err(LockError::OperationNotAllowed));
    assert_eq!(sm.mode(), LockMode::Normal);
    assert_eq!(sm.clear_fault(), Err(LockError::InvalidStateTransition));
    assert_eq!(sm.check_timeout(), None);
    assert_eq!(sm.current(), LockState::Emergency);
}

#[test]
fn any_fault_reason_is_reachable_from_unlocking() {
    let mut sm = StateMachine::new();
    sm.try_transition(LockState::Unlocking, TransitionCondition::AuthSuccess).unwrap();
    assert_eq!(
        sm.try_transition(LockState::Fault(FaultReason::MotorFault), TransitionCondition::Timeout),
        Ok(())
    );
    assert_eq!(sm.current(), LockState::Fault(FaultReason::MotorFault));
}

#[test]
fn fault_is_left_only_by_clearing_it() {
    let mut sm = StateMachine::new();
    sm.try_transition(LockState::Unlocking, TransitionCondition::AuthSuccess).unwrap();
    sm.try_transition(LockState::Fault(FaultReason::SensorFault), TransitionCondition::Timeout)
        .unwrap();
    assert_eq!(
        sm.try_transition(LockState::Locked, TransitionCondition::FaultRecovery),
        Err(LockError::InvalidStateTransition)
    );
    assert_eq!(
        sm.try_transition(LockState::Fault(FaultReason::Unknown), TransitionCondition::Timeout),
        Err(LockError::InvalidStateTransition)
    );
    assert_eq!(sm.set_mode(LockMode::DoubleAuth), Err(LockError::OperationNotAllowed));
    assert_eq!(sm.check_timeout(), None);
    assert_eq!(sm.clear_fault(), Ok(()));
    assert_eq!(sm.current(), LockState::Locked);
    assert_eq!(sm.get_history().len(), 2);
    assert_eq!(sm.clear_fault(), Err(LockError::InvalidStateTransition));
    assert_eq!(sm.try_transition(LockState::Unlocking, TransitionCondition::AuthSuccess), Ok(()));
}

#[test]
fn clear_fault_refused_outside_fault() {
    let mut sm = StateMachine::new();
    assert_eq!(sm.clear_fault(), Err(LockError::InvalidStateTransition));
    assert_eq!(sm.current(), LockState::Locked);
}

#[test]
fn timeouts_fire_only_after_their_duration() {
    let mut sm = StateMachine::new();
    assert_eq!(sm.check_timeout_at(1_000_000), None);
    sm.transition_at(LockState::Unlocking, TransitionCondition::AuthSuccess, 1000).unwrap();
    assert_eq!(sm.check_timeout_at(1000), None);
    assert_eq!(sm.check_timeout_at(3999), None);
    assert_eq!(sm.check_timeout_at(4000), Some(LockState::Fault(FaultReason::Unknown)));
    assert_eq!(sm.check_timeout_at(999), None);
    sm.transition_at(LockState::Unlocked, TransitionCondition::Auto, 2000).unwrap();
    assert_eq!(sm.check_timeout_at(6999), None);
    assert_eq!(sm.check_timeout_at(7000), Some(LockState::Locking));
    sm.transition_at(LockState::Locking, TransitionCondition::Auto, 8000).unwrap();
    assert_eq!(sm.check_timeout_at(10_999), None);
    assert_eq!(sm.check_timeout_at(11_000), Some(LockState::Fault(FaultReason::Unknown)));
    sm.transition_at(LockState::Locked, TransitionCondition::Auto, 9000).unwrap();
    assert_eq!(sm.check_timeout_at(1_000_000), None);
    assert_eq!(sm.current(), LockState::Locked);
}

#[test]
fn fresh_state_has_not_timed_out_on_the_clock() {
    let mut sm = StateMachine::new();
    sm.try_transition(LockState::Unlocking, TransitionCondition::AuthSuccess).unwrap();
    assert_eq!(sm.check_timeout(), None);
    assert_eq!(sm.current(), LockState::Unlocking);
}

#[test]
fn timeout_target_is_always_an_allowed_transition() {
    let mut sm = StateMachine::new();
    sm.transition_at(LockState::Unlocking, TransitionCondition::AuthSuccess, 0).unwrap();
    sm.transition_at(LockState::Unlocked, TransitionCondition::Auto, 10).unwrap();
    let next = sm.check_timeout_at(5010).unwrap();
    assert_eq!(sm.transition_at(next, TransitionCondition::Timeout, 5010), Ok(()));
    assert_eq!(sm.current(), LockState::Locking);
    let next = sm.check_timeout_at(8010).unwrap();
    assert_eq!(sm.transition_at(next, TransitionCondition::Timeout, 8010), Ok(()));
    assert_eq!(sm.current(), LockState::Fault(FaultReason::Unknown));
}

#[test]
fn set_mode_is_read_back() {
    let mut sm = StateMachine::new();
    assert_eq!(sm.set_mode(LockMode::Scheduled), Ok(()));
    assert_eq!(sm.mode(), LockMode::Scheduled);
    sm.try_transition(LockState::Unlocking, TransitionCondition::AuthSuccess).unwrap();
    assert_eq!(sm.mode(), LockMode::Scheduled);
    assert_eq!(sm.set_mode(LockMode::OneTime), Ok(()));
    assert_eq!(sm.mode(), LockMode::OneTime);
    assert_eq!(sm.current(), LockState::Unlocking);
}

#[test]
fn secure_states() {
    let mut sm = StateMachine::new();
    assert!(sm.is_secure());
    sm.try_transition(LockState::Unlocking, TransitionCondition::AuthSuccess).unwrap();
    assert!(!sm.is_secure());
    sm.try_transition(LockState::Unlocked, TransitionCondition::Auto).unwrap();
    assert!(!sm.is_secure());
    sm.try_transition(LockState::Locking, TransitionCondition::Auto).unwrap();
    assert!(sm.is_secure());
}

#[test]
fn transition_at_records_the_given_time() {
    let mut sm = StateMachine::new();
    assert_eq!(sm.transition_at(LockState::Unlocking, TransitionCondition::AuthSuccess, 42), Ok(()));
    assert_eq!(sm.transition_at(LockState::Unlocked, TransitionCondition::Auto, 77), Ok(()));
    let history = sm.get_history();
    assert_eq!(history.len(), 2);
    assert_eq!(history[0].timestamp, 42);
    assert_eq!(history[1].timestamp, 77);
    assert_eq!(
        sm.transition_at(LockState::Unlocking, TransitionCondition::Auto, 99),
        Err(LockError::InvalidStateTransition)
    );
    assert_eq!(sm.get_history().len(), 2);
}

#[test]
fn clock_timestamps_do_not_go_backwards() {
    let mut sm = StateMachine::new();
    unlock_lock_cycle(&mut sm);
    let history = sm.get_history();
    for i in 1..history.len() {
        assert!(history[i - 1].timestamp <= history[i].timestamp);
    }
}

#[test]
fn history_keeps_the_latest_hundred_changes() {
    let mut sm = StateMachine::new();
    let mut tick: u64 = 0;
    for _ in 0..26 {
        for (target, reason) in [
            (LockState::Unlocking, TransitionCondition::AuthSuccess),
            (LockState::Unlocked, TransitionCondition::Auto),
            (LockState::Locking, TransitionCondition::Auto),
            (LockState::Locked, TransitionCondition::Auto),
        ] {
            assert_eq!(sm.transition_at(target, reason, tick), Ok(()));
            tick += 1;
        }
        assert!(sm.get_history().len() <= 100);
    }
    let history = sm.get_history();
    assert_eq!(history.len(), 100);
    assert_eq!(history[0].timestamp, 4);
    assert_eq!(history[0].from, LockState::Locked);
    assert_eq!(history[0].to, LockState::Unlocking);
    assert_eq!(history[99].timestamp, 103);
    assert_eq!(history[99].to, LockState::Locked);
    for i in 0..100 {
        assert_eq!(history[i].timestamp, 4 + i as u64);
    }
}

#[test]
fn history_fills_up_to_exactly_one_hundred() {
    let mut sm = StateMachine::new();
    let mut tick: u64 = 0;
    for _ in 0..25 {
        for (target, reason) in [
            (LockState::Unlocking, TransitionCondition::AuthSuccess),
            (LockState::Unlocked, TransitionCondition::Auto),
            (LockState::Locking, TransitionCondition::Auto),
            (LockState::Locked, TransitionCondition::Auto),
        ] {
            sm.transition_at(target, reason, tick).unwrap();
            tick += 1;
        }
    }
    assert_eq!(sm.get_history().len(), 100);
    assert_eq!(sm.get_history()[0].timestamp, 0);
    sm.transition_at(LockState::Unlocking, TransitionCondition::AuthSuccess, 100).unwrap();
    assert_eq!(sm.get_history().len(), 100);
    assert_eq!(sm.get_history()[0].timestamp, 1);
    assert_eq!(sm.get_history()[99].timestamp, 100);
}
