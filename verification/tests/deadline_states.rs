use health_monitor::deadline_state::{DeadlineState, DeadlineStateSnapshot};

#[test]
fn deadline_state_default_and_snapshot() {
    let state = DeadlineState::new();
    let snap = state.snapshot();
    assert!(snap.is_stopped());
    assert!(!snap.is_running());
    assert!(!snap.is_underrun());
}

#[test]
fn deadline_state_update_success() {
    let mut state = DeadlineState::new();
    // Set running and timestamp
    let res = state.update(|mut snap| {
        snap.set_running();
        snap.set_timestamp_ms(1234);
        Some(snap)
    });
    assert!(res.is_ok());
    let snap = state.snapshot();
    assert!(snap.is_running());
    assert_eq!(snap.timestamp_ms(), 1234);
}

#[test]
fn deadline_state_update_none_returns_err() {
    let mut state = DeadlineState::new();
    // Closure returns None, so state should not change
    let res = state.update(|_snap| None);
    assert!(res.is_err());
    let snap = state.snapshot();
    assert!(snap.is_stopped());
}

#[test]
fn default_state() {
    let snap = DeadlineStateSnapshot::default();
    assert!(snap.is_stopped());
    assert!(!snap.is_running());
    assert!(!snap.is_underrun());
    assert_eq!(snap.timestamp_ms(), 0);
}

#[test]
fn set_and_get_timestamp_ms() {
    let mut snap = DeadlineStateSnapshot::default();
    snap.set_timestamp_ms(0x12345678);
    assert_eq!(snap.timestamp_ms(), 0x12345678);
    assert!(!snap.is_running());
    assert!(snap.is_stopped()); // Default is stopped, running is set as a flag
    assert!(!snap.is_underrun());
}

#[test]
fn set_running() {
    let mut snap = DeadlineStateSnapshot::default();
    snap.set_running();
    assert!(snap.is_running());
    assert!(snap.is_stopped()); // Default is stopped, running is set as a flag
    assert!(!snap.is_underrun());
}

#[test]
fn set_underrun() {
    let mut snap = DeadlineStateSnapshot::default();
    snap.set_underrun();
    assert!(snap.is_underrun());
    assert!(!snap.is_running());
    assert!(snap.is_stopped()); // Default is stopped, running is set as a flag
}

#[test]
fn as_u64_and_new() {
    let mut snap = DeadlineStateSnapshot::default();
    snap.set_timestamp_ms(42);
    snap.set_running();
    let val = snap.as_u64();
    let snap2 = DeadlineStateSnapshot::new(val);
    assert_eq!(snap2.timestamp_ms(), 42);
    assert!(snap2.is_running());
}

#[test]
fn default_word_is_stopped_bit() {
    let snap = DeadlineStateSnapshot::default();
    assert_eq!(snap.as_u64(), 0x01);
}

#[test]
fn timestamp_keeps_flag_bits() {
    let mut snap = DeadlineStateSnapshot::default();
    snap.set_running();
    snap.set_underrun();
    snap.set_timestamp_ms(u32::MAX);
    assert_eq!(snap.timestamp_ms(), u32::MAX);
    assert!(snap.is_running());
    assert!(snap.is_underrun());
    assert!(snap.is_stopped());
}
