use web_ui_primitives_leptos::scroll_lock::{self, ScrollLockState};
use web_ui_primitives_leptos::{
    scroll_lock_acquire, scroll_lock_release, ScrollLockError, ScrollLockGuard,
};

fn styles(top: &str) -> (String, String, String, String) {
    ("auto".to_string(), "static".to_string(), top.to_string(), "auto".to_string())
}

#[test]
fn scroll_lock_guard_updates_count() {
    let mut state = ScrollLockState::new();
    assert_eq!(state.count(), 0);
    let guard = scroll_lock::scroll_lock_acquire(&mut state, Some(Ok(styles("0px")))).expect("lock");
    assert_eq!(state.count(), 1);
    assert_eq!(state.drop_guard(guard), Some(styles("0px")));
    assert_eq!(state.count(), 0);
}

#[test]
fn scroll_lock_release_is_idempotent() {
    let mut state = ScrollLockState::<(String, String, String, String)>::new();
    assert_eq!(scroll_lock::scroll_lock_release(&mut state), None);
    assert_eq!(state.count(), 0);
}

#[test]
fn scroll_lock_applies_once_and_restores_on_last_release() {
    let mut state = ScrollLockState::new();
    assert!(state.needs_apply());
    let first = scroll_lock::scroll_lock_acquire(&mut state, Some(Ok(styles("-10px")))).expect("lock");
    assert!(!state.needs_apply());
    let second = scroll_lock::scroll_lock_acquire(&mut state, Some(Err(ScrollLockError::BodyUnavailable)))
        .expect("already locked");
    let third = scroll_lock::scroll_lock_acquire(&mut state, Some(Ok(styles("mid-lock")))).expect("already locked");
    let fourth = scroll_lock::scroll_lock_acquire(&mut state, None).expect("already locked");
    assert_eq!(state.count(), 4);
    assert_eq!(state.drop_guard(second), None);
    assert_eq!(state.drop_guard(fourth), None);
    assert_eq!(scroll_lock::scroll_lock_release(&mut state), None);
    assert_eq!(state.count(), 1);
    assert_eq!(state.drop_guard(first), Some(styles("-10px")));
    assert_eq!(state.count(), 0);
    assert_eq!(state.drop_guard(third), None);
    assert_eq!(state.count(), 0);
}

#[test]
fn scroll_lock_failed_apply_holds_nothing() {
    let mut state = ScrollLockState::<(String, String, String, String)>::new();
    assert_eq!(
        scroll_lock::scroll_lock_acquire(&mut state, Some(Err(ScrollLockError::WindowUnavailable))).err(),
        Some(ScrollLockError::WindowUnavailable)
    );
    assert_eq!(state.count(), 0);
    assert!(state.needs_apply());
    assert_eq!(scroll_lock::scroll_lock_release(&mut state), None);
}

#[test]
fn scroll_lock_without_snapshot_restores_nothing() {
    let mut state = ScrollLockState::<(String, String, String, String)>::new();
    let guard = scroll_lock::scroll_lock_acquire(&mut state, None).expect("lock");
    assert_eq!(state.count(), 1);
    assert_eq!(state.drop_guard(guard), None);
    assert_eq!(state.count(), 0);
}

#[test]
fn native_scroll_lock_guards_are_stateless_across_requests() {
    assert_eq!(core::mem::size_of::<ScrollLockGuard>(), 0);
    for _ in 0..16 {
        let _guard = scroll_lock_acquire().expect("lock");
        scroll_lock_release().expect("release");
    }
}
