use castle::hinge::Hinge;
use castle::hinge::HingeState;
use castle::level::Level;
use castle::lock::Lock;
use castle::lock::LockBusy;
use castle::lock::LockError;
use castle::lock::LockState;
use castle::lock::DEBOUNCE_MS;
use std::cell::RefCell;

fn recording(log: &RefCell<Vec<Level>>) -> impl FnOnce(Level) -> Result<(), String> + '_ {
    move |l| {
        log.borrow_mut().push(l);
        Ok(())
    }
}

fn failing(log: &RefCell<Vec<Level>>) -> impl FnOnce(Level) -> Result<(), String> + '_ {
    move |l| {
        log.borrow_mut().push(l);
        Err("bus fault".to_string())
    }
}

#[test]
fn lock_levels_map_to_states() {
    let lock = Lock::unforced();
    assert_eq!(lock.read_state(Level::Low), LockState::Locked);
    assert_eq!(lock.read_state(Level::High), LockState::Unlocked);
    assert_eq!(LockState::Locked.level(), Level::Low);
    assert_eq!(LockState::Unlocked.level(), Level::High);
    for s in [LockState::Locked, LockState::Unlocked] {
        assert_eq!(lock.read_state(s.level()), s);
    }
}

#[test]
fn hinge_levels_map_to_states() {
    let hinge = Hinge::new();
    assert_eq!(hinge.read_state(Level::Low), HingeState::Open);
    assert_eq!(hinge.read_state(Level::High), HingeState::Closed);
}

#[test]
fn new_forces_locked() {
    let log = RefCell::new(Vec::new());
    let lock = Lock::new_at(1_000, recording(&log)).unwrap();
    assert_eq!(*log.borrow(), vec![Level::Low]);
    assert_eq!(lock.read_state(log.borrow()[0]), LockState::Locked);
    assert_eq!(lock.last_change(), 1_000);
}

#[test]
fn new_at_epoch_is_busy() {
    let log = RefCell::new(Vec::new());
    let r = Lock::new_at(DEBOUNCE_MS - 1, recording(&log));
    assert!(matches!(r, Err(LockError::Busy(LockBusy {}))));
    assert!(log.borrow().is_empty());
    assert!(Lock::new_at(DEBOUNCE_MS, recording(&log)).is_ok());
}

#[test]
fn new_fails_when_write_fails() {
    let log = RefCell::new(Vec::new());
    let r = Lock::new_at(5_000, failing(&log));
    assert!(matches!(r, Err(LockError::Io(ref e)) if e == "bus fault"));
    assert_eq!(*log.borrow(), vec![Level::Low]);
}

#[test]
fn new_with_system_clock_records_now() {
    let log = RefCell::new(Vec::new());
    let mut lock = Lock::new(recording(&log)).unwrap();
    assert!(lock.last_change() >= 1_600_000_000_000);
    assert_eq!(lock.last_change_secs(), lock.last_change() / 1000);
    let before = lock.last_change();
    let r = lock.set_state(LockState::Unlocked, recording(&log));
    assert!(matches!(r, Err(LockError::Busy(_))));
    assert_eq!(lock.last_change(), before);
    assert_eq!(*log.borrow(), vec![Level::Low]);
}

#[test]
fn second_change_within_window_is_busy() {
    let log = RefCell::new(Vec::new());
    let mut lock = Lock::new_at(10_000, recording(&log)).unwrap();
    let r = lock.set_state_at(LockState::Unlocked, 10_249, recording(&log));
    assert!(matches!(r, Err(LockError::Busy(LockBusy {}))));
    assert_eq!(lock.last_change(), 10_000);
    assert_eq!(*log.borrow(), vec![Level::Low]);
}

#[test]
fn second_change_after_window_succeeds() {
    let log = RefCell::new(Vec::new());
    let mut lock = Lock::new_at(10_000, recording(&log)).unwrap();
    assert!(lock.set_state_at(LockState::Unlocked, 10_250, recording(&log)).is_ok());
    assert_eq!(lock.last_change(), 10_250);
    assert!(lock.set_state_at(LockState::Locked, 10_600, recording(&log)).is_ok());
    assert_eq!(lock.last_change(), 10_600);
    assert_eq!(*log.borrow(), vec![Level::Low, Level::High, Level::Low]);
}

#[test]
fn failed_write_keeps_last_change() {
    let log = RefCell::new(Vec::new());
    let mut lock = Lock::new_at(10_000, recording(&log)).unwrap();
    let r = lock.set_state_at(LockState::Unlocked, 20_000, failing(&log));
    assert!(matches!(r, Err(LockError::Io(ref e)) if e == "bus fault"));
    assert_eq!(lock.last_change(), 10_000);
    assert!(lock.set_state_at(LockState::Unlocked, 20_001, recording(&log)).is_ok());
    assert_eq!(lock.last_change(), 20_001);
}

#[test]
fn toggle_writes_the_other_level() {
    let log = RefCell::new(Vec::new());
    let mut lock = Lock::new_at(1_000, recording(&log)).unwrap();
    let before = lock.read_state(Level::Low);
    assert!(lock.toggle_at(Level::Low, 2_000, recording(&log)).is_ok());
    let written = *log.borrow().last().unwrap();
    assert_eq!(written, Level::High);
    assert_eq!(lock.read_state(written), before.toggled());
    assert!(lock.toggle_at(Level::High, 3_000, recording(&log)).is_ok());
    assert_eq!(*log.borrow().last().unwrap(), Level::Low);
}

#[test]
fn toggle_within_window_changes_nothing() {
    let log = RefCell::new(Vec::new());
    let mut lock = Lock::new_at(1_000, recording(&log)).unwrap();
    let r = lock.toggle_at(Level::Low, 1_100, recording(&log));
    assert!(matches!(r, Err(LockError::Busy(_))));
    assert_eq!(lock.last_change(), 1_000);
    assert_eq!(*log.borrow(), vec![Level::Low]);
}

#[test]
fn toggled_is_an_involution() {
    assert_eq!(LockState::Locked.toggled(), LockState::Unlocked);
    assert_eq!(LockState::Unlocked.toggled(), LockState::Locked);
    assert_eq!(LockState::Locked.toggled().toggled(), LockState::Locked);
}

#[test]
fn last_change_in_seconds() {
    let log = RefCell::new(Vec::new());
    let lock = Lock::new_at(1_700_000_123_999, recording(&log)).unwrap();
    assert_eq!(lock.last_change_secs(), 1_700_000_123);
}

#[test]
fn busy_message() {
    assert_eq!(LockBusy {}.message(), "Lock is busy");
}

#[test]
fn large_times_do_not_overflow() {
    let log = RefCell::new(Vec::new());
    let mut lock = Lock::new_at(u64::MAX - 10, recording(&log)).unwrap();
    let r = lock.set_state_at(LockState::Unlocked, u64::MAX, recording(&log));
    assert!(matches!(r, Err(LockError::Busy(_))));
}
