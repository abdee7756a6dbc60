use castle::hinge::Hinge;
use castle::hinge::HingeState;
use castle::level::Level;
use castle::lock::Lock;
use castle::lock::LockBusy;
use castle::lock::LockError;
use castle::lock::LockState;
use castle::server::hinge_output;
use castle::server::lock_output;
use castle::server::put_lock_at;
use castle::server::status_of;
use castle::server::LockOutput;
use castle::server::ServerSettings;
use std::cell::Cell;

#[test]
fn status_codes() {
    assert_eq!(status_of::<String>(&Ok(())), 204);
    assert_eq!(status_of::<String>(&Err(LockError::Busy(LockBusy {}))), 429);
    assert_eq!(status_of(&Err(LockError::Io("x".to_string()))), 500);
}

#[test]
fn put_without_state_does_nothing() {
    let mut lock = Lock::new_at(1_000, |_l| Ok::<(), String>(())).unwrap();
    let r = put_lock_at(&mut lock, None, 1_001, |_l| Err::<(), String>("no".to_string()));
    assert!(r.is_ok());
    assert_eq!(lock.last_change(), 1_000);
}

#[test]
fn get_lock_then_put_unlocked() {
    // lock on pin 0, hinge on pin 1; the lock is driven at start-up.
    let pin = Cell::new(Level::High);
    let t0: u64 = 1_700_000_000_000;
    let mut lock = Lock::new_at(t0, |l| {
        pin.set(l);
        Ok::<(), String>(())
    })
    .unwrap();
    assert_eq!(
        lock_output(&lock, pin.get()),
        LockOutput { state: LockState::Locked, last_change: 1_700_000_000 }
    );
    let write = |l| {
        pin.set(l);
        Ok::<(), String>(())
    };
    let r = put_lock_at(&mut lock, Some(LockState::Unlocked), t0 + 100, write);
    assert_eq!(status_of(&r), 429);
    assert_eq!(lock_output(&lock, pin.get()).state, LockState::Locked);
    let write = |l| {
        pin.set(l);
        Ok::<(), String>(())
    };
    let r = put_lock_at(&mut lock, Some(LockState::Unlocked), t0 + 250, write);
    assert_eq!(status_of(&r), 204);
    assert_eq!(
        lock_output(&lock, pin.get()),
        LockOutput { state: LockState::Unlocked, last_change: 1_700_000_000 }
    );
}

#[test]
fn get_hinge_reports_door() {
    let hinge = Hinge::new();
    assert_eq!(hinge_output(&hinge, Level::Low).state, HingeState::Open);
    assert_eq!(hinge_output(&hinge, Level::High).state, HingeState::Closed);
}

#[test]
fn settings_hold_values() {
    let s = ServerSettings { mount_point: "/castle".to_string(), port: 8000 };
    assert_eq!(s.mount_point, "/castle");
    assert_eq!(s.port, 8000);
}

#[test]
fn put_lock_with_system_clock() {
    let pin = Cell::new(Level::High);
    let mut lock = Lock::new(|l| {
        pin.set(l);
        Ok::<(), String>(())
    })
    .unwrap();
    assert_eq!(pin.get(), Level::Low);
    let before = lock.last_change();
    let r = castle::server::put_lock(&mut lock, Some(LockState::Unlocked), |l| {
        pin.set(l);
        Ok::<(), String>(())
    });
    assert_eq!(status_of(&r), 429);
    assert_eq!(pin.get(), Level::Low);
    assert_eq!(lock.last_change(), before);
    assert!(castle::server::put_lock(&mut lock, None, |_l| Err::<(), String>("x".to_string())).is_ok());
}
