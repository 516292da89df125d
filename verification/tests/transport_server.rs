use rstream_server::actuation::PointerAction;
use rstream_server::codec::DecodeError;
use rstream_server::gamepad::{GamepadState, PadButton};
use rstream_server::transport::{
    idle_pause, InputServer, Reaction, TransportEvent, ENET_CHANNEL_INPUT, ENET_CHANNEL_LIMIT,
    ENET_PEER_LIMIT, ENET_PORT, IDLE_SLEEP_MILLIS,
};

fn receive(bytes: &[u8]) -> TransportEvent {
    TransportEvent::Receive { peer: 0, channel: ENET_CHANNEL_INPUT, payload: bytes.to_vec() }
}

fn packet(discriminant: u8, x: f32, y: f32) -> Vec<u8> {
    let mut p = vec![discriminant];
    p.extend_from_slice(&x.to_bits().to_le_bytes());
    p.extend_from_slice(&y.to_bits().to_le_bytes());
    p
}

#[test]
fn the_endpoint_is_one_peer_on_port_7777_with_two_channels() {
    assert_eq!(ENET_PORT, 7777);
    assert_eq!(ENET_PEER_LIMIT, 1);
    assert_eq!(ENET_CHANNEL_LIMIT, 2);
    assert_eq!(ENET_CHANNEL_INPUT, 0);
    assert_eq!(IDLE_SLEEP_MILLIS, 10);
}

#[test]
fn the_loop_sleeps_only_after_an_empty_pass() {
    assert_eq!(idle_pause(0), Some(10));
    assert_eq!(idle_pause(1), None);
    assert_eq!(idle_pause(usize::MAX), None);
    let mut server = InputServer::new();
    assert_eq!(server.end_pass(), Some(10));
    server.on_event(&TransportEvent::Connect { peer: 0 });
    assert_eq!(server.drained, 1);
    assert_eq!(server.end_pass(), None);
    assert_eq!(server.drained, 0);
    assert_eq!(server.end_pass(), Some(10));
    server.on_event(&receive(&[1, 2, 3]));
    server.on_event(&receive(&packet(4, 1.0, 1.0)));
    assert_eq!(server.drained, 2);
    assert_eq!(server.end_pass(), None);
    assert_eq!(server.end_pass(), Some(10));
}

#[test]
fn connects_and_disconnects_are_only_noted() {
    let mut server = InputServer::new();
    server.on_event(&receive(&packet(8, 1.0, 0.0)));
    let before = server.dispatcher.snapshot();
    assert!(matches!(
        server.on_event(&TransportEvent::Connect { peer: 3 }),
        Reaction::PeerConnected { peer: 3 }
    ));
    assert!(matches!(
        server.on_event(&TransportEvent::Disconnect { peer: 3 }),
        Reaction::PeerDisconnected { peer: 3 }
    ));
    assert_eq!(server.dispatcher.snapshot(), before);
    assert!(before.is_pressed(PadButton::A));
}

#[test]
fn packets_are_applied_in_order_and_bad_ones_dropped() {
    let mut server = InputServer::new();
    match server.on_event(&receive(&packet(4, 10.0, 20.0))) {
        Reaction::Applied { actuation } => {
            assert_eq!(actuation.pointer, vec![PointerAction::MoveTo { x: 10, y: 20 }]);
            assert_eq!(actuation.push, None);
        }
        _ => panic!("the packet is a command"),
    }
    match server.on_event(&receive(&vec![0u8; 10])) {
        Reaction::Dropped { error } => {
            assert_eq!(error, DecodeError::MalformedPacket { length: 10 })
        }
        _ => panic!("ten bytes are no packet"),
    }
    match server.on_event(&receive(&packet(200, 1.0, 1.0))) {
        Reaction::Dropped { error } => {
            assert_eq!(error, DecodeError::UnknownCommand { discriminant: 200 })
        }
        _ => panic!("200 is no command"),
    }
    assert_eq!(server.dispatcher.snapshot(), GamepadState::new());
    for (discriminant, field) in [(6u8, 1.0f32), (7, 1.0), (6, 0.0)] {
        match server.on_event(&receive(&packet(discriminant, field, 0.0))) {
            Reaction::Applied { actuation } => {
                assert_eq!(actuation.push, Some(server.dispatcher.snapshot()))
            }
            _ => panic!("the packet is a command"),
        }
    }
    assert_eq!(server.dispatcher.snapshot().buttons, 0x8000);
    assert_eq!(server.drained, 6);
}

#[test]
fn dropped_packets_do_not_disturb_the_packets_around_them() {
    let good: Vec<Vec<u8>> = vec![
        packet(6, 1.0, 0.0),
        packet(18, 0.5, -0.5),
        packet(12, 0.75, 0.0),
        packet(8, 1.0, 0.0),
        packet(6, 0.0, 0.0),
        packet(19, -1.0, 1.0),
    ];
    let bad: Vec<Vec<u8>> = vec![vec![], vec![6; 8], vec![6; 10], packet(22, 1.0, 1.0)];
    let mut clean = InputServer::new();
    for p in &good {
        clean.on_event(&receive(p));
    }
    let mut noisy = InputServer::new();
    for (i, p) in good.iter().enumerate() {
        noisy.on_event(&receive(&bad[i % bad.len()]));
        noisy.on_event(&receive(p));
        noisy.on_event(&receive(&bad[(i + 1) % bad.len()]));
    }
    assert_eq!(noisy.dispatcher.snapshot(), clean.dispatcher.snapshot());
    assert_eq!(
        clean.dispatcher.snapshot(),
        GamepadState {
            buttons: 0x1000,
            left_trigger: 192,
            right_trigger: 0,
            thumb_lx: 16383,
            thumb_ly: 16383,
            thumb_rx: -32767,
            thumb_ry: -32767,
        }
    );
}
