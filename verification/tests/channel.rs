use klaver_wintertc::channel::{MessagePort, PortError};

#[test]
fn ports_cannot_be_constructed_directly() {
    let r = MessagePort::new();
    assert!(matches!(r, Err(PortError::NotConstructible)));
    assert_eq!(PortError::NotConstructible.message(), "MessagePort cannot be constructed directly");
}

#[test]
fn post_message_needs_the_channel_end() {
    let mut port = MessagePort::create();
    assert_eq!(port.post_message(), Ok(()));
    assert_eq!(port.detach(), Ok(()));
    assert_eq!(port.post_message(), Err(PortError::Detached));
    assert_eq!(port.detach(), Err(PortError::AlreadyDetached));
    assert_eq!(PortError::Detached.message(), "MessagePort is detached");
    assert_eq!(PortError::AlreadyDetached.message(), "MessagePort already detached");
}

#[test]
fn start_runs_the_receive_loop_once() {
    let mut port = MessagePort::from_channel();
    assert_eq!(port.start_native(), Ok(true));
    assert_eq!(port.start_native(), Ok(false));
    assert!(port.close());
    assert!(!port.close());
    assert_eq!(port.start_native(), Ok(true));
}

#[test]
fn start_on_a_detached_port_is_refused_unless_running() {
    let mut idle = MessagePort::create();
    idle.detach().unwrap();
    assert_eq!(idle.start_native(), Err(PortError::Detached));

    let mut running = MessagePort::create();
    running.start_native().unwrap();
    running.detach().unwrap();
    assert_eq!(running.start_native(), Ok(false));
}
