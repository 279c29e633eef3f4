use dde_audio::manager::coordinator::{SwitchCoordinator, SwitchKind};

#[test]
fn acquire_rejects_concurrent() {
    let mut c = SwitchCoordinator::new();
    let _g = c.acquire(SwitchKind::ManualSetPort).unwrap();
    // already held by a manual port change: a second acquire is refused
    assert!(c.acquire(SwitchKind::PriorityAuto).is_err());
}

#[test]
fn guard_drop_releases() {
    let mut c = SwitchCoordinator::new();
    {
        let g = c.acquire(SwitchKind::ManualSetPort).unwrap();
        assert!(c.acquire(SwitchKind::PriorityAuto).is_err());
        c.release(g);
    }
    assert!(c.acquire(SwitchKind::PriorityAuto).is_ok());
}

#[test]
fn interrupt_auto_only_auto() {
    let mut c = SwitchCoordinator::new();
    // a manual operation is not an automatic switch: nothing is interrupted
    let _g = c.acquire(SwitchKind::ManualSetPort).unwrap();
    assert!(!c.interrupt_auto());
    assert!(!c.reprioritize_needed());
}

#[test]
fn interrupt_auto_interrupts() {
    let mut c = SwitchCoordinator::new();
    let _g = c.acquire(SwitchKind::PriorityAuto).unwrap();
    assert!(c.interrupt_auto());
    assert!(c.cancel_requested());
    assert!(c.reprioritize_needed());
}

#[test]
fn acquire_busy_message() {
    let mut c = SwitchCoordinator::new();
    let g = c.acquire(SwitchKind::PriorityAuto).unwrap();
    assert_eq!(g.kind(), SwitchKind::PriorityAuto);
    let e = c.acquire(SwitchKind::ManualSetPort).err().unwrap();
    assert_eq!(e, "a switch operation is already in progress");
}

#[test]
fn acquire_clears_earlier_cancel() {
    let mut c = SwitchCoordinator::new();
    c.request_cancel();
    assert!(c.cancel_requested());
    let _g = c.acquire(SwitchKind::ManualSetPort).unwrap();
    assert!(!c.cancel_requested());
}

#[test]
fn reprioritize_survives_until_cleared() {
    let mut c = SwitchCoordinator::new();
    let g = c.acquire(SwitchKind::PriorityAuto).unwrap();
    assert!(c.interrupt_auto());
    c.release(g);
    let g2 = c.acquire(SwitchKind::ManualSetPort).unwrap();
    assert!(c.reprioritize_needed());
    assert!(!c.cancel_requested());
    c.clear_reprioritize();
    assert!(!c.reprioritize_needed());
    c.release(g2);
}

#[test]
fn interrupt_when_idle_does_nothing() {
    let mut c = SwitchCoordinator::new();
    assert!(!c.interrupt_auto());
    assert!(!c.cancel_requested());
    assert!(!c.reprioritize_needed());
}

#[test]
fn in_progress_reports_the_holder() {
    let mut c = SwitchCoordinator::new();
    assert_eq!(c.in_progress(), None);
    let g = c.acquire(SwitchKind::PriorityAuto).unwrap();
    assert_eq!(c.in_progress(), Some(SwitchKind::PriorityAuto));
    c.release(g);
    assert_eq!(c.in_progress(), None);
}
