use rstream_server::pipeline::{
    pipeline_description, PipelineAction, PipelineController, PipelineFailure, AUDIO_PORT,
    VIDEO_PORT,
};
use rstream_server::registry::{PeerAddr, PeerRecord, PeerRegistry};
use rstream_server::session::{
    ConnectionEvent, ConnectionState, FrameKind, SignalingSession, DEFAULT_SIGNALING_PORT,
};

fn v4(last: u8, port: u16) -> PeerAddr {
    PeerAddr::V4 { ip: 0xc0a8_0100 + last as u32, port }
}

fn started(action: &PipelineAction) -> Option<&str> {
    match action {
        PipelineAction::Start { description } => Some(description.as_str()),
        _ => None,
    }
}

fn is_nothing(action: &PipelineAction) -> bool {
    matches!(action, PipelineAction::Nothing)
}

fn is_stop(action: &PipelineAction) -> bool {
    matches!(action, PipelineAction::Stop)
}

/// The description as the engine has always been given it.
fn reference_description(host: &str) -> String {
    format!(
        "rtpbin name=rtpbin \
        d3d11screencapturesrc show-cursor=true ! videoconvert ! queue ! \
        x264enc name=enc tune=zerolatency sliced-threads=true speed-preset=ultrafast bframes=0 bitrate=20000 key-int-max=120 ! \
        video/x-h264,profile=main ! rtph264pay config-interval=-1 aggregate-mode=zero-latency ! \
        application/x-rtp,encoding-name=H264,clock-rate=90000,media=video,payload=96 ! \
        rtpbin.send_rtp_sink_0 \
        rtpbin. ! \
        udpsink host={} port=5601 sync=false \
        wasapi2src loopback=true low-latency=true ! \
        queue ! \
        audioconvert ! \
        audioresample ! \
        queue ! \
        opusenc perfect-timestamp=false ! \
        rtpopuspay ! \
        application/x-rtp,encoding-name=OPUS,media=audio,payload=127 !
        rtpbin.send_rtp_sink_1 \
        rtpbin. ! \
        udpsink host={} port=5602 sync=false",
        host, host
    )
}

#[test]
fn the_description_names_the_host_twice_and_both_ports() {
    for host in ["192.168.1.20", "::1", "10.0.0.7", ""] {
        assert_eq!(pipeline_description(host), reference_description(host));
    }
    let d = pipeline_description("192.168.1.20");
    assert!(d.contains(&format!("udpsink host=192.168.1.20 port={VIDEO_PORT} sync=false")));
    assert!(d.ends_with(&format!("udpsink host=192.168.1.20 port={AUDIO_PORT} sync=false")));
    assert_eq!((VIDEO_PORT, AUDIO_PORT), (5601, 5602));
    assert_eq!(DEFAULT_SIGNALING_PORT, 5600);
}

#[test]
fn first_viewer_starts_the_pipeline_and_its_leaving_stops_it() {
    let mut s = SignalingSession::new();
    assert!(!s.pipeline.is_started());
    let viewer = v4(20, 50123);
    let action = s.on_connect(viewer, "192.168.1.20", 1_700_000_000);
    assert_eq!(started(&action), Some(reference_description("192.168.1.20").as_str()));
    assert!(s.pipeline.is_started());
    assert_eq!(s.pipeline.destination, Some(viewer));
    assert_eq!(s.peers(), vec![PeerRecord { addr: viewer, connected_at: 1_700_000_000 }]);
    let action = s.on_disconnect(viewer);
    assert!(is_stop(&action));
    assert!(!s.pipeline.is_started());
    assert!(s.peers().is_empty());
}

#[test]
fn the_pipeline_is_started_exactly_while_a_peer_is_registered() {
    let mut s = SignalingSession::new();
    let mut seed: u32 = 7;
    let mut starts = 0;
    let mut stops = 0;
    for step in 0..5000 {
        seed = seed.wrapping_mul(1664525).wrapping_add(1013904223);
        let peer = v4(((seed >> 8) % 6) as u8, 4000);
        let was_empty = s.registry.is_empty();
        if (seed >> 20) % 2 == 0 {
            let action = s.on_connect(peer, "h", step);
            assert_eq!(started(&action).is_some(), was_empty);
            if was_empty {
                starts += 1;
            }
        } else {
            let action = s.on_disconnect(peer);
            let emptied = !was_empty && s.registry.is_empty();
            assert_eq!(is_stop(&action), emptied);
            assert_eq!(is_nothing(&action), !emptied);
            if emptied {
                stops += 1;
            }
        }
        assert_eq!(s.pipeline.is_started(), !s.registry.is_empty());
        assert!(starts == stops || starts == stops + 1);
    }
    assert!(starts > 10);
}

#[test]
fn a_second_viewer_finds_the_pipeline_and_does_not_restart_it() {
    let mut s = SignalingSession::new();
    let (a, b) = (v4(1, 1000), v4(2, 1000));
    assert!(started(&s.on_connect(a, "192.168.1.1", 10)).is_some());
    assert!(is_nothing(&s.on_connect(b, "192.168.1.2", 11)));
    assert_eq!(s.pipeline.destination, Some(a));
    assert!(is_nothing(&s.on_disconnect(a)));
    assert!(s.pipeline.is_started());
    assert_eq!(s.pipeline.destination, Some(a));
    assert!(is_stop(&s.on_disconnect(b)));
    assert!(is_nothing(&s.on_disconnect(b)));
}

#[test]
fn a_failed_start_is_forgotten_so_that_the_next_viewer_tries_again() {
    for failure in [PipelineFailure::PipelineParseFailure, PipelineFailure::PipelineStateFailure] {
        let mut s = SignalingSession::new();
        let (a, b) = (v4(1, 1000), v4(2, 1000));
        assert!(started(&s.on_connect(a, "192.168.1.1", 10)).is_some());
        s.on_start_failed(failure);
        assert!(!s.pipeline.is_started());
        assert_eq!(s.peers().len(), 1);
        let again = s.on_connect(b, "192.168.1.2", 11);
        assert_eq!(started(&again), Some(reference_description("192.168.1.2").as_str()));
        assert_eq!(s.pipeline.destination, Some(b));
    }
}

#[test]
fn the_controller_alone_starts_once_and_stops_once() {
    let mut c = PipelineController::new();
    assert!(is_nothing(&c.on_last_peer_gone()));
    assert!(started(&c.on_first_peer(v4(1, 1), "a")).is_some());
    assert!(is_nothing(&c.on_first_peer(v4(2, 1), "b")));
    assert_eq!(c.destination, Some(v4(1, 1)));
    assert!(is_stop(&c.on_last_peer_gone()));
    assert!(is_nothing(&c.on_last_peer_gone()));
    assert!(!c.is_started());
}

#[test]
fn a_frame_goes_to_every_other_peer_and_never_back() {
    let mut s = SignalingSession::new();
    let peers: Vec<PeerAddr> = (0..5).map(|i| v4(i, 9000 + i as u16)).collect();
    for (i, p) in peers.iter().enumerate() {
        s.on_connect(*p, "h", i as i64);
    }
    for sender in &peers {
        for kind in [FrameKind::Text, FrameKind::Binary, FrameKind::Ping, FrameKind::Pong] {
            let routing = s.route_frame(*sender, kind);
            assert_eq!(routing.try_command, kind == FrameKind::Text);
            let expected: Vec<PeerAddr> = peers.iter().copied().filter(|p| p != sender).collect();
            assert_eq!(routing.recipients, expected);
            assert_eq!(routing.recipients.len(), 4);
            assert!(!routing.recipients.contains(sender));
        }
        let routing = s.route_frame(*sender, FrameKind::Close);
        assert!(!routing.try_command);
        assert!(routing.recipients.is_empty());
    }
    let stranger = v4(99, 1);
    assert_eq!(s.route_frame(stranger, FrameKind::Binary).recipients, peers);
    let alone = {
        let mut only = SignalingSession::new();
        only.on_connect(peers[0], "h", 0);
        only.route_frame(peers[0], FrameKind::Text)
    };
    assert!(alone.try_command);
    assert!(alone.recipients.is_empty());
}

#[test]
fn the_same_ip_on_another_port_is_another_peer() {
    let mut r = PeerRegistry::new();
    r.insert(PeerRecord { addr: v4(1, 1000), connected_at: 1 });
    r.insert(PeerRecord { addr: v4(1, 1001), connected_at: 2 });
    r.insert(PeerRecord {
        addr: PeerAddr::V6 { ip: 1, port: 1000, flowinfo: 0, scope_id: 0 },
        connected_at: 3,
    });
    r.insert(PeerRecord {
        addr: PeerAddr::V6 { ip: 1, port: 1000, flowinfo: 0, scope_id: 4 },
        connected_at: 4,
    });
    assert_eq!(r.len(), 4);
    assert_eq!(r.recipients(v4(1, 1000)).len(), 3);
}

#[test]
fn the_registry_keeps_one_record_for_one_address_in_order_of_arrival() {
    let mut r = PeerRegistry::new();
    assert!(r.is_empty());
    assert_eq!(r.first(), None);
    let (a, b, c) = (v4(1, 1), v4(2, 2), v4(3, 3));
    r.insert(PeerRecord { addr: a, connected_at: 1 });
    r.insert(PeerRecord { addr: b, connected_at: 2 });
    r.insert(PeerRecord { addr: c, connected_at: 3 });
    r.insert(PeerRecord { addr: b, connected_at: 20 });
    assert_eq!(r.len(), 3);
    assert_eq!(
        r.snapshot(),
        vec![
            PeerRecord { addr: a, connected_at: 1 },
            PeerRecord { addr: b, connected_at: 20 },
            PeerRecord { addr: c, connected_at: 3 },
        ]
    );
    assert_eq!(r.first(), Some(PeerRecord { addr: a, connected_at: 1 }));
    assert_eq!(r.get(b), Some(PeerRecord { addr: b, connected_at: 20 }));
    assert!(r.contains(c));
    assert!(r.remove(a));
    assert!(!r.remove(a));
    assert!(!r.contains(a));
    assert_eq!(r.get(a), None);
    assert_eq!(r.first(), Some(PeerRecord { addr: b, connected_at: 20 }));
    assert_eq!(r.recipients(c), vec![b]);
    assert!(r.remove(c));
    assert!(r.remove(b));
    assert!(r.is_empty());
    assert!(r.recipients(a).is_empty());
}

#[test]
fn a_connection_goes_through_its_stages_in_order() {
    let connecting = ConnectionState::Connecting;
    let established = ConnectionState::Established;
    let closing = ConnectionState::Closing;
    let removed = ConnectionState::Removed;
    assert_eq!(connecting.advance(ConnectionEvent::HandshakeSucceeded), established);
    assert_eq!(connecting.advance(ConnectionEvent::HandshakeFailed), removed);
    for end in [
        ConnectionEvent::InboundEnded,
        ConnectionEvent::TransportError,
        ConnectionEvent::OutboundClosed,
    ] {
        assert_eq!(established.advance(end), closing);
        assert_eq!(connecting.advance(end), connecting);
        assert_eq!(closing.advance(end), closing);
    }
    assert_eq!(closing.advance(ConnectionEvent::RegistryCleared), removed);
    assert_eq!(established.advance(ConnectionEvent::RegistryCleared), established);
    assert_eq!(established.advance(ConnectionEvent::HandshakeFailed), established);
    for event in [
        ConnectionEvent::HandshakeSucceeded,
        ConnectionEvent::HandshakeFailed,
        ConnectionEvent::InboundEnded,
        ConnectionEvent::TransportError,
        ConnectionEvent::OutboundClosed,
        ConnectionEvent::RegistryCleared,
    ] {
        assert_eq!(removed.advance(event), removed);
    }
}
