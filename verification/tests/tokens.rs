use moss_tasks::error::ErrorKind;
use moss_tasks::orchestrator::cancel_upscale;
use moss_tasks::registry::ProcessingState;
use moss_tasks::token::{CancelFlags, CancellationToken};

#[test]
fn new_token_is_unset() {
    let mut flags = CancelFlags::new();
    let token = CancellationToken::new(&mut flags);
    assert!(!token.is_cancelled(&flags));
    assert_eq!(flags.len(), 1);
}

#[test]
fn cancel_sets_the_flag_for_every_copy() {
    let mut flags = CancelFlags::new();
    let token = CancellationToken::new(&mut flags);
    let copy = token;
    token.cancel(&mut flags);
    assert!(token.is_cancelled(&flags));
    assert!(copy.is_cancelled(&flags));
}

#[test]
fn cancel_twice_is_the_same_as_once() {
    let mut flags = CancelFlags::new();
    let first = CancellationToken::new(&mut flags);
    let second = CancellationToken::new(&mut flags);
    second.cancel(&mut flags);
    second.cancel(&mut flags);
    assert!(second.is_cancelled(&flags));
    assert!(!first.is_cancelled(&flags));
    assert_eq!(flags.len(), 2);
}

#[test]
fn tokens_are_distinct() {
    let mut flags = CancelFlags::new();
    let first = CancellationToken::new(&mut flags);
    let second = CancellationToken::new(&mut flags);
    assert_ne!(first, second);
    assert_eq!(first.key(), 0);
    assert_eq!(second.key(), 1);
}

#[test]
fn token_of_another_table_reads_unset_and_can_be_set() {
    let mut home = CancelFlags::new();
    let _ = CancellationToken::new(&mut home);
    let _ = CancellationToken::new(&mut home);
    let stranger = CancellationToken::new(&mut home);
    let mut other = CancelFlags::new();
    assert!(!stranger.is_cancelled(&other));
    stranger.cancel(&mut other);
    assert!(stranger.is_cancelled(&other));
    assert_eq!(other.len(), 3);
    assert!(!stranger.is_cancelled(&home));
}

#[test]
fn default_slot_is_empty_and_sound() {
    let state = ProcessingState::default();
    assert_eq!(state.current(), None);
    assert!(!state.is_poisoned());
}

#[test]
fn register_replaces_the_slot_unconditionally() {
    let mut flags = CancelFlags::new();
    let first = CancellationToken::new(&mut flags);
    let second = CancellationToken::new(&mut flags);
    let mut state = ProcessingState::default();
    assert!(state.register(first).is_ok());
    assert_eq!(state.current(), Some(first));
    assert!(state.register(second).is_ok());
    assert_eq!(state.current(), Some(second));
}

#[test]
fn clear_empties_the_slot() {
    let mut flags = CancelFlags::new();
    let token = CancellationToken::new(&mut flags);
    let mut state = ProcessingState::default();
    assert!(state.register(token).is_ok());
    assert!(state.clear().is_ok());
    assert_eq!(state.current(), None);
    assert!(state.clear().is_ok());
    assert_eq!(state.current(), None);
}

#[test]
fn signal_on_empty_slot_reports_no_active_task() {
    let mut flags = CancelFlags::new();
    let bystander = CancellationToken::new(&mut flags);
    let state = ProcessingState::default();
    let error = state.signal_if_present(&mut flags).err().expect("an empty slot refuses");
    assert_eq!(error.kind(), ErrorKind::NoActiveTask);
    assert_eq!(error.detail(), "");
    assert_eq!(error.message(), "no active task");
    assert!(!bystander.is_cancelled(&flags));
    assert_eq!(flags.len(), 1);
}

#[test]
fn signal_on_populated_slot_sets_the_registered_token() {
    let mut flags = CancelFlags::new();
    let bystander = CancellationToken::new(&mut flags);
    let token = CancellationToken::new(&mut flags);
    let mut state = ProcessingState::default();
    assert!(state.register(token).is_ok());
    assert!(state.signal_if_present(&mut flags).is_ok());
    assert!(token.is_cancelled(&flags));
    assert!(!bystander.is_cancelled(&flags));
    assert_eq!(state.current(), Some(token));
    assert!(state.signal_if_present(&mut flags).is_ok());
    assert!(token.is_cancelled(&flags));
    assert!(!bystander.is_cancelled(&flags));
    assert_eq!(flags.len(), 2);
}

#[test]
fn poisoned_slot_refuses_every_operation() {
    let mut flags = CancelFlags::new();
    let held = CancellationToken::new(&mut flags);
    let late = CancellationToken::new(&mut flags);
    let mut state = ProcessingState::default();
    assert!(state.register(held).is_ok());
    state.poison();
    assert!(state.is_poisoned());

    let error = state.register(late).err().expect("a poisoned slot refuses");
    assert_eq!(error.kind(), ErrorKind::LockPoisoned);
    assert_eq!(error.message(), "lock poisoned");
    assert_eq!(state.current(), Some(held));

    let error = state.clear().err().expect("a poisoned slot refuses");
    assert_eq!(error.kind(), ErrorKind::LockPoisoned);
    assert_eq!(state.current(), Some(held));

    let error = state.signal_if_present(&mut flags).err().expect("a poisoned slot refuses");
    assert_eq!(error.kind(), ErrorKind::LockPoisoned);
    assert!(!held.is_cancelled(&flags));
}

#[test]
fn cancel_with_no_task_is_an_ordinary_error() {
    let mut flags = CancelFlags::new();
    let state = ProcessingState::default();
    assert_eq!(cancel_upscale(&state, &mut flags), Err("no active task".to_string()));
    assert_eq!(cancel_upscale(&state, &mut flags), Err("no active task".to_string()));
    assert_eq!(flags.len(), 0);
}

#[test]
fn cancel_with_a_poisoned_lock_reports_the_poisoned_lock() {
    let mut flags = CancelFlags::new();
    let token = CancellationToken::new(&mut flags);
    let mut state = ProcessingState::default();
    assert!(state.register(token).is_ok());
    state.poison();
    assert_eq!(cancel_upscale(&state, &mut flags), Err("lock poisoned".to_string()));
    assert!(!token.is_cancelled(&flags));
    assert_eq!(flags.len(), 1);
}

#[test]
fn cancel_with_a_poisoned_lock_and_an_empty_slot_reports_the_poisoned_lock() {
    let mut flags = CancelFlags::new();
    let mut state = ProcessingState::default();
    state.poison();
    let reply = cancel_upscale(&state, &mut flags);
    assert_eq!(reply, Err("lock poisoned".to_string()));
    assert_ne!(reply, Err("no active task".to_string()));
    assert_eq!(flags.len(), 0);
}

#[test]
fn cancel_reaches_the_registered_token_and_is_idempotent() {
    let mut flags = CancelFlags::new();
    let token = CancellationToken::new(&mut flags);
    let mut state = ProcessingState::default();
    assert!(state.register(token).is_ok());
    assert_eq!(cancel_upscale(&state, &mut flags), Ok(()));
    assert!(token.is_cancelled(&flags));
    assert_eq!(cancel_upscale(&state, &mut flags), Ok(()));
    assert!(token.is_cancelled(&flags));
    assert_eq!(flags.len(), 1);
}
