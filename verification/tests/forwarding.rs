use whisper::control::ControlSignal;
use whisper::forward::{
    describe, Accepted, ConnectionDescriptor, ExitReason, ForwardAction, ForwardEvent,
    ForwardLoop, LoopStatus, ProtocolKind,
};
use whisper::session::{Provisioning, Session};

fn tcp(host: &str, port: u16) -> Accepted {
    Accepted::Tcp { peer_host: host.to_string(), peer_port: port }
}

fn udp(host: &str, port: u16) -> Accepted {
    Accepted::Udp { peer_host: host.to_string(), peer_port: port }
}

#[test]
fn new_loop_is_accepting() {
    let forward = ForwardLoop::new();
    assert_eq!(forward.status(), LoopStatus::Accepting);
}

#[test]
fn tcp_connection_opens_a_stream_for_its_peer() {
    let mut forward = ForwardLoop::new();
    let action = forward.step(ForwardEvent::Connection(tcp("93.184.216.34", 443)));
    assert_eq!(
        action,
        ForwardAction::OpenStream(ConnectionDescriptor {
            kind: ProtocolKind::Tcp,
            host: "93.184.216.34".to_string(),
            port: 443,
        })
    );
    assert_eq!(forward.status(), LoopStatus::Accepting);
}

#[test]
fn udp_connection_opens_a_stream_for_its_peer() {
    let mut forward = ForwardLoop::new();
    let action = forward.step(ForwardEvent::Connection(udp("2001:db8::53", 53)));
    assert_eq!(
        action,
        ForwardAction::OpenStream(ConnectionDescriptor {
            kind: ProtocolKind::Udp,
            host: "2001:db8::53".to_string(),
            port: 53,
        })
    );
    assert_eq!(forward.status(), LoopStatus::Accepting);
}

#[test]
fn other_connections_are_passed_over() {
    let mut forward = ForwardLoop::new();
    assert_eq!(forward.step(ForwardEvent::Connection(Accepted::Other)), ForwardAction::Continue);
    assert_eq!(forward.status(), LoopStatus::Accepting);
    assert!(matches!(
        forward.step(ForwardEvent::Connection(tcp("93.184.216.34", 80))),
        ForwardAction::OpenStream(_)
    ));
}

#[test]
fn describe_keeps_kind_host_and_port() {
    assert_eq!(
        describe(tcp("93.184.216.34", 443)),
        Some(ConnectionDescriptor {
            kind: ProtocolKind::Tcp,
            host: "93.184.216.34".to_string(),
            port: 443,
        })
    );
    assert_eq!(
        describe(udp("10.0.10.1", 0)),
        Some(ConnectionDescriptor {
            kind: ProtocolKind::Udp,
            host: "10.0.10.1".to_string(),
            port: 0,
        })
    );
    assert_eq!(describe(udp("", 65535)).map(|d| d.port), Some(65535));
    assert_eq!(describe(Accepted::Other), None);
}

#[test]
fn shutdown_signal_ends_the_loop() {
    let mut forward = ForwardLoop::new();
    assert!(matches!(
        forward.step(ForwardEvent::Connection(tcp("93.184.216.34", 443))),
        ForwardAction::OpenStream(_)
    ));
    assert_eq!(
        forward.step(ForwardEvent::Signal(ControlSignal::Shutdown)),
        ForwardAction::Exit(ExitReason::Shutdown)
    );
    assert_eq!(forward.status(), LoopStatus::Stopped(ExitReason::Shutdown));
}

#[test]
fn stopped_loop_accepts_nothing_more() {
    let mut forward = ForwardLoop::new();
    assert_eq!(
        forward.step(ForwardEvent::Signal(ControlSignal::Shutdown)),
        ForwardAction::Exit(ExitReason::Shutdown)
    );
    let later = vec![
        ForwardEvent::Connection(tcp("93.184.216.34", 443)),
        ForwardEvent::Connection(udp("9.9.9.9", 53)),
        ForwardEvent::Connection(Accepted::Other),
        ForwardEvent::AcceptFailed,
        ForwardEvent::ControlClosed,
        ForwardEvent::Signal(ControlSignal::Shutdown),
    ];
    for event in later {
        assert_eq!(forward.step(event), ForwardAction::Exit(ExitReason::Shutdown));
        assert_eq!(forward.status(), LoopStatus::Stopped(ExitReason::Shutdown));
    }
}

#[test]
fn accept_failure_is_fatal() {
    let mut forward = ForwardLoop::new();
    assert_eq!(forward.step(ForwardEvent::AcceptFailed), ForwardAction::Exit(ExitReason::Fatal));
    assert_eq!(forward.status(), LoopStatus::Stopped(ExitReason::Fatal));
    assert_eq!(
        forward.step(ForwardEvent::Signal(ControlSignal::Shutdown)),
        ForwardAction::Exit(ExitReason::Fatal)
    );
    assert_eq!(
        forward.step(ForwardEvent::Connection(tcp("93.184.216.34", 443))),
        ForwardAction::Exit(ExitReason::Fatal)
    );
}

#[test]
fn closed_control_channel_ends_the_loop() {
    let mut forward = ForwardLoop::new();
    assert_eq!(
        forward.step(ForwardEvent::ControlClosed),
        ForwardAction::Exit(ExitReason::Shutdown)
    );
    assert_eq!(forward.status(), LoopStatus::Stopped(ExitReason::Shutdown));
}

#[test]
fn stop_reaches_a_loop_that_is_accepting() {
    let mut session: Session<u8, u8> = Session::new();
    let report = Provisioning::Ready {
        mux: 1,
        device: 2,
        remote_address: Some("203.0.113.5:443".to_string()),
    };
    assert_eq!(session.initialize(1500, report), Ok(()));
    let mut task = session.start().expect("an initialized session starts");
    let mut forward = ForwardLoop::new();
    assert!(matches!(
        forward.step(ForwardEvent::Connection(tcp("93.184.216.34", 443))),
        ForwardAction::OpenStream(_)
    ));
    assert_eq!(session.stop(), Ok(()));
    let signal = task.control.try_recv().expect("stop queued a signal");
    assert_eq!(forward.step(ForwardEvent::Signal(signal)), ForwardAction::Exit(ExitReason::Shutdown));
    assert_eq!(
        forward.step(ForwardEvent::Connection(tcp("93.184.216.34", 443))),
        ForwardAction::Exit(ExitReason::Shutdown)
    );
}
