use proximity_alarm::mailbox::{ActuatorCommand, CommandMailbox};

#[test]
fn send_into_empty_succeeds() {
    let mut m = CommandMailbox::new();
    assert!(m.try_send(ActuatorCommand { active: true }));
}

#[test]
fn send_into_full_fails_and_preserves_pending() {
    let mut m = CommandMailbox::new();
    assert!(m.try_send(ActuatorCommand { active: true }));
    // The slot is full: the newer command is discarded, not stored.
    assert!(!m.try_send(ActuatorCommand { active: false }));
    // The pending command is exactly the one sent first.
    assert_eq!(m.try_receive(), Some(ActuatorCommand { active: true }));
}

#[test]
fn receive_takes_pending_and_empties() {
    let mut m = CommandMailbox::new();
    assert!(m.try_send(ActuatorCommand { active: false }));
    assert_eq!(m.try_receive(), Some(ActuatorCommand { active: false }));
    assert_eq!(m.try_receive(), None);
}

#[test]
fn receive_on_empty_reports_nothing() {
    let mut m = CommandMailbox::new();
    assert_eq!(m.try_receive(), None);
}
