use async_kcp::addr::PeerAddr;
use async_kcp::channel::{OfferQueue, Polled, Verdict};
use async_kcp::dispatcher::{DispatchAction, DispatchEvent, Dispatcher, RECV_RETRY_NS};
use async_kcp::listener::{AcceptError, KcpListener, ACCEPT_BACKLOG};
use async_kcp::session::KcpSession;

fn peer(port: u16) -> PeerAddr {
    PeerAddr::V4 { ipv4: 0x7f00_0001, port }
}

/// A packet with conversation number `conv` and sequence number `sn`.
fn packet(conv: u32, sn: u32) -> Vec<u8> {
    let mut bytes: Vec<u8> = (0..40).collect();
    bytes[0..4].copy_from_slice(&conv.to_le_bytes());
    bytes[12..16].copy_from_slice(&sn.to_le_bytes());
    bytes
}

fn received(conv: u32, sn: u32, port: u16) -> DispatchEvent<&'static str, Vec<u8>> {
    DispatchEvent::Received { packet: packet(conv, sn), peer: peer(port) }
}

/// A dispatcher in which `peer(1)` has the session `"old"`.
fn with_session(conv: u32) -> Dispatcher<&'static str> {
    let mut dispatcher = Dispatcher::new();
    dispatcher.step(received(conv, 0, 1));
    dispatcher.step(DispatchEvent::Created(Some("old")));
    dispatcher.step(DispatchEvent::Offered(Verdict::Taken));
    dispatcher
}

fn delivered(action: DispatchAction<Vec<u8>>) -> (PeerAddr, Vec<u8>) {
    match action {
        DispatchAction::Deliver { peer, packet } => (peer, packet),
        other => panic!("nothing was delivered: {:?}", other),
    }
}

fn asks_conv(action: &DispatchAction<Vec<u8>>, port: u16) -> bool {
    matches!(action, DispatchAction::ReadConv { peer: asked } if *asked == peer(port))
}

fn offers(action: &DispatchAction<Vec<u8>>, port: u16) -> bool {
    matches!(action, DispatchAction::Offer { peer: offered } if *offered == peer(port))
}

#[test]
fn first_packet_creates_offers_and_is_delivered() {
    let mut dispatcher: Dispatcher<&str> = Dispatcher::new();
    let (action, released) = dispatcher.step(received(0x0403_0201, 3, 1));
    assert!(matches!(action, DispatchAction::Create { conv: 0x0403_0201, peer: p } if p == peer(1)));
    assert_eq!(released, None);
    assert_eq!(dispatcher.session(&peer(1)), None);
    let (action, released) = dispatcher.step(DispatchEvent::Created(Some("new")));
    assert!(offers(&action, 1));
    assert_eq!(released, None);
    assert_eq!(dispatcher.session(&peer(1)), Some(&"new"));
    let (action, released) = dispatcher.step(DispatchEvent::Offered(Verdict::Taken));
    assert_eq!(delivered(action), (peer(1), packet(0x0403_0201, 3)));
    assert_eq!(released, None);
    assert_eq!(dispatcher.session(&peer(1)), Some(&"new"));
}

#[test]
fn packet_without_conversation_is_given_one() {
    let mut dispatcher: Dispatcher<&str> = Dispatcher::new();
    let (action, _) = dispatcher.step_with(received(0, 0, 1), 0x0a0b_0c0d);
    assert!(matches!(action, DispatchAction::Create { conv: 0x0a0b_0c0d, peer: p } if p == peer(1)));
    dispatcher.step(DispatchEvent::Created(Some("new")));
    let (action, _) = dispatcher.step(DispatchEvent::Offered(Verdict::Taken));
    let (_, bytes) = delivered(action);
    assert_eq!(bytes[0..4], [0x0d, 0x0c, 0x0b, 0x0a]);
    assert_eq!(bytes, packet(0x0a0b_0c0d, 0));
}

#[test]
fn conversations_are_allocated_at_random() {
    let mut convs: Vec<u32> = Vec::new();
    for _ in 0..16 {
        let mut dispatcher: Dispatcher<&str> = Dispatcher::new();
        let (action, _) = dispatcher.step(received(0, 0, 1));
        if let DispatchAction::Create { conv, .. } = action {
            convs.push(conv);
        }
        dispatcher.step(DispatchEvent::Created(Some("new")));
        let (action, _) = dispatcher.step(DispatchEvent::Offered(Verdict::Taken));
        assert_eq!(delivered(action).1, packet(convs[convs.len() - 1], 0));
    }
    assert_eq!(convs.len(), 16);
    assert!(convs.iter().any(|conv| *conv != convs[0]));
}

#[test]
fn fresh_conversation_does_not_replace_one_in_the_packet() {
    let mut dispatcher: Dispatcher<&str> = Dispatcher::new();
    let (action, _) = dispatcher.step_with(received(5, 0, 1), 6);
    assert!(matches!(action, DispatchAction::Create { conv: 5, .. }));
}

#[test]
fn later_packet_goes_to_the_session_of_its_peer() {
    let mut dispatcher = with_session(7);
    let (action, released) = dispatcher.step(received(7, 4, 1));
    assert!(asks_conv(&action, 1));
    assert_eq!(released, None);
    let (action, released) = dispatcher.step(DispatchEvent::ConvRead(7));
    assert_eq!(delivered(action), (peer(1), packet(7, 4)));
    assert_eq!(released, None);
    assert_eq!(dispatcher.session(&peer(1)), Some(&"old"));
}

#[test]
fn later_packet_of_another_conversation_is_dropped() {
    let mut dispatcher = with_session(7);
    dispatcher.step(received(8, 4, 1));
    let (action, released) = dispatcher.step(DispatchEvent::ConvRead(7));
    assert!(matches!(action, DispatchAction::AwaitNext));
    assert_eq!(released, None);
    assert_eq!(dispatcher.session(&peer(1)), Some(&"old"));
}

#[test]
fn repeated_first_packet_keeps_the_session() {
    let mut dispatcher = with_session(7);
    let (action, _) = dispatcher.step(received(7, 0, 1));
    assert!(asks_conv(&action, 1));
    let (action, _) = dispatcher.step(DispatchEvent::ConvRead(7));
    assert!(asks_conv(&action, 1));
    let (action, released) = dispatcher.step(DispatchEvent::ConvRead(7));
    assert_eq!(delivered(action), (peer(1), packet(7, 0)));
    assert_eq!(released, None);
    assert_eq!(dispatcher.session(&peer(1)), Some(&"old"));
}

#[test]
fn conversation_that_changed_between_the_looks_drops_the_packet() {
    let mut dispatcher = with_session(7);
    dispatcher.step(received(7, 0, 1));
    dispatcher.step(DispatchEvent::ConvRead(7));
    let (action, _) = dispatcher.step(DispatchEvent::ConvRead(8));
    assert!(matches!(action, DispatchAction::AwaitNext));
}

#[test]
fn first_packet_of_another_conversation_replaces_the_session() {
    let mut dispatcher = with_session(7);
    let (action, _) = dispatcher.step(received(8, 0, 1));
    assert!(asks_conv(&action, 1));
    let (action, released) = dispatcher.step(DispatchEvent::ConvRead(7));
    assert!(matches!(action, DispatchAction::Create { conv: 8, peer: p } if p == peer(1)));
    assert_eq!(released, None);
    let (action, released) = dispatcher.step(DispatchEvent::Created(Some("new")));
    assert!(offers(&action, 1));
    assert_eq!(released, Some("old"));
    let (action, released) = dispatcher.step(DispatchEvent::Offered(Verdict::Taken));
    assert_eq!(delivered(action), (peer(1), packet(8, 0)));
    assert_eq!(released, None);
    assert_eq!(dispatcher.session(&peer(1)), Some(&"new"));
}

#[test]
fn failed_creation_changes_nothing() {
    let mut dispatcher = with_session(7);
    dispatcher.step(received(8, 0, 1));
    dispatcher.step(DispatchEvent::ConvRead(7));
    let (action, released) = dispatcher.step(DispatchEvent::Created(None));
    assert!(matches!(action, DispatchAction::AwaitNext));
    assert_eq!(released, None);
    assert_eq!(dispatcher.session(&peer(1)), Some(&"old"));
    dispatcher.step(received(8, 0, 2));
    let (action, _) = dispatcher.step(DispatchEvent::Created(None));
    assert!(matches!(action, DispatchAction::AwaitNext));
    assert_eq!(dispatcher.session(&peer(2)), None);
}

#[test]
fn refused_session_leaves_the_table() {
    for verdict in [Verdict::Full, Verdict::Disconnected] {
        let mut dispatcher = with_session(7);
        dispatcher.step(received(8, 0, 2));
        dispatcher.step(DispatchEvent::Created(Some("new")));
        let (action, released) = dispatcher.step(DispatchEvent::Offered(verdict));
        assert!(matches!(action, DispatchAction::AwaitNext));
        assert_eq!(released, Some("new"));
        assert_eq!(dispatcher.session(&peer(2)), None);
        assert_eq!(dispatcher.session(&peer(1)), Some(&"old"));
    }
}

#[test]
fn closed_peer_leaves_the_table() {
    let mut dispatcher = with_session(7);
    let (action, released) = dispatcher.step(DispatchEvent::PeerClosed(peer(2)));
    assert!(matches!(action, DispatchAction::AwaitNext));
    assert_eq!(released, None);
    assert_eq!(dispatcher.session(&peer(1)), Some(&"old"));
    let (action, released) = dispatcher.step(DispatchEvent::PeerClosed(peer(1)));
    assert!(matches!(action, DispatchAction::AwaitNext));
    assert_eq!(released, Some("old"));
    assert_eq!(dispatcher.session(&peer(1)), None);
}

#[test]
fn failed_read_backs_off() {
    let mut dispatcher = with_session(7);
    let (action, released) = dispatcher.step(DispatchEvent::RecvFailed);
    assert!(matches!(action, DispatchAction::Backoff { delay_ns: RECV_RETRY_NS }));
    assert_eq!(RECV_RETRY_NS, 1_000_000_000);
    assert_eq!(released, None);
    assert_eq!(dispatcher.session(&peer(1)), Some(&"old"));
}

#[test]
fn shortest_packet_has_just_a_header() {
    let mut dispatcher: Dispatcher<&str> = Dispatcher::new();
    let bytes: Vec<u8> = packet(9, 1)[0..24].to_vec();
    let event = DispatchEvent::Received { packet: bytes, peer: peer(1) };
    let (action, _) = dispatcher.step(event);
    assert!(matches!(action, DispatchAction::Create { conv: 9, .. }));
}

#[test]
fn offered_sessions_are_accepted_in_order() {
    let (mut accept_tx, mut listener) = KcpListener::new();
    assert_eq!(listener.accept(3), None);
    let mut dispatcher: Dispatcher<&str> = Dispatcher::new();
    for port in 1..3 {
        dispatcher.step(received(7, 0, port));
        dispatcher.step(DispatchEvent::Created(Some("new")));
        let stream = if port == 1 { "first" } else { "second" };
        let (action, released) = dispatcher.offer(&mut accept_tx, stream);
        assert_eq!(delivered(action), (peer(port), packet(7, 0)));
        assert_eq!(released, None);
    }
    assert_eq!(listener.accept(0), None);
    assert_eq!(listener.accept(1), Some(Ok(("first", peer(1)))));
    assert_eq!(listener.accept(1), Some(Ok(("second", peer(2)))));
    assert_eq!(listener.accept(5), None);
    drop(accept_tx);
    assert_eq!(listener.accept(5), Some(Err(AcceptError::ChannelClosed)));
}

#[test]
fn session_that_nobody_can_accept_is_refused() {
    let (mut accept_tx, listener) = KcpListener::new();
    drop(listener);
    let mut dispatcher: Dispatcher<&str> = Dispatcher::new();
    dispatcher.step(received(7, 0, 1));
    dispatcher.step(DispatchEvent::Created(Some("new")));
    let (action, released) = dispatcher.offer(&mut accept_tx, "stream");
    assert!(matches!(action, DispatchAction::AwaitNext));
    assert_eq!(released, Some("new"));
    assert_eq!(dispatcher.session(&peer(1)), None);
}

#[test]
fn accepting_depends_on_what_the_channel_holds() {
    assert_eq!(KcpListener::<u8>::accept_polled(Polled::Empty), None);
    assert_eq!(KcpListener::<u8>::accept_polled(Polled::Message(5)), Some(Ok(5)));
    let closed = KcpListener::<u8>::accept_polled(Polled::Closed);
    assert_eq!(closed, Some(Err(AcceptError::ChannelClosed)));
    assert_eq!(AcceptError::ChannelClosed.message(), "accept channel closed unexpectly");
}

#[test]
fn every_created_session_serves_a_peer_or_is_handed_back_once() {
    let mut dispatcher: Dispatcher<&str> = Dispatcher::new();
    let mut handed_back: Vec<&str> = Vec::new();
    let events = vec![
        received(7, 0, 1),
        DispatchEvent::Created(Some("a")),
        DispatchEvent::Offered(Verdict::Taken),
        received(7, 0, 2),
        DispatchEvent::Created(Some("b")),
        DispatchEvent::Offered(Verdict::Full),
        received(8, 0, 1),
        DispatchEvent::ConvRead(7),
        DispatchEvent::Created(Some("c")),
        DispatchEvent::Offered(Verdict::Taken),
        received(9, 0, 3),
        DispatchEvent::Created(Some("d")),
        DispatchEvent::Offered(Verdict::Taken),
        DispatchEvent::PeerClosed(peer(3)),
        DispatchEvent::PeerClosed(peer(3)),
    ];
    for event in events {
        let (_, released) = dispatcher.step(event);
        handed_back.extend(released);
    }
    assert_eq!(handed_back, vec!["b", "a", "d"]);
    assert_eq!(dispatcher.session(&peer(1)), Some(&"c"));
    assert_eq!(dispatcher.session(&peer(2)), None);
    assert_eq!(dispatcher.session(&peer(3)), None);
}

#[test]
fn stamping_the_same_conversation_changes_nothing() {
    let mut dispatcher: Dispatcher<&str> = Dispatcher::new();
    let (action, _) = dispatcher.step_with(received(0, 2, 1), 0);
    assert!(matches!(action, DispatchAction::Create { conv: 0, .. }));
    dispatcher.step(DispatchEvent::Created(Some("new")));
    let (action, _) = dispatcher.step(DispatchEvent::Offered(Verdict::Taken));
    assert_eq!(delivered(action), (peer(1), packet(0, 2)));
}

/// Offers a new session of each port in `ports`, and tells for each whether it was taken
/// over.
fn offer_sessions(
    dispatcher: &mut Dispatcher<u16>,
    accept_tx: &mut OfferQueue<(u16, PeerAddr)>,
    ports: std::ops::RangeInclusive<u16>,
) -> Vec<bool> {
    let mut taken: Vec<bool> = Vec::new();
    for port in ports {
        dispatcher.step(DispatchEvent::Received { packet: packet(7, 0), peer: peer(port) });
        dispatcher.step(DispatchEvent::Created(Some(port)));
        let (action, released) = dispatcher.offer(accept_tx, port);
        match action {
            DispatchAction::Deliver { peer: delivered_to, .. } => {
                assert_eq!(delivered_to, peer(port));
                assert_eq!(released, None);
                assert_eq!(dispatcher.session(&peer(port)), Some(&port));
                taken.push(true);
            }
            _ => {
                assert!(matches!(action, DispatchAction::AwaitNext));
                assert_eq!(released, Some(port));
                assert_eq!(dispatcher.session(&peer(port)), None);
                taken.push(false);
            }
        }
    }
    taken
}

#[test]
fn sessions_within_the_backlog_are_accepted_in_order() {
    assert_eq!(ACCEPT_BACKLOG, 1024);
    let (mut accept_tx, mut listener) = KcpListener::new();
    let mut dispatcher: Dispatcher<u16> = Dispatcher::new();
    let taken = offer_sessions(&mut dispatcher, &mut accept_tx, 1..=1024);
    assert_eq!(taken, vec![true; 1024]);
    for port in 1..=1024 {
        assert_eq!(listener.accept(1), Some(Ok((port, peer(port)))));
    }
    assert_eq!(listener.accept(1), None);
}

#[test]
fn refused_session_is_not_accepted() {
    // One sending end has room for one message more than the channel was made for.
    let (mut accept_tx, mut listener) = KcpListener::new();
    let mut dispatcher: Dispatcher<u16> = Dispatcher::new();
    let taken = offer_sessions(&mut dispatcher, &mut accept_tx, 1..=1027);
    assert_eq!(taken[0..1025], vec![true; 1025]);
    assert_eq!(taken[1025..1027], [false, false]);
    for port in 1..=1025 {
        assert_eq!(listener.accept(9), Some(Ok((port, peer(port)))));
    }
    assert_eq!(listener.accept(9), None);
    // There is room again once sessions were accepted.
    assert_eq!(offer_sessions(&mut dispatcher, &mut accept_tx, 1028..=1028), vec![true]);
    assert_eq!(listener.accept(9), Some(Ok((1028, peer(1028)))));
}

#[test]
fn no_peer_has_two_open_sessions() {
    // A new conversation takes the place of the session of its peer, which is closed, and
    // closing a session leaves the peer with none once that is reported.
    let mut sessions: Vec<KcpSession> = Vec::new();
    let mut dispatcher: Dispatcher<usize> = Dispatcher::new();
    for conv in 7..9 {
        let event = DispatchEvent::Received { packet: packet(conv, 0), peer: peer(1) };
        if let (DispatchAction::ReadConv { .. }, _) = dispatcher.step(event) {
            dispatcher.step(DispatchEvent::ConvRead(7));
        }
        let number = sessions.len();
        sessions.push(KcpSession::new_shared(90, Some(peer(1))).0);
        let (_, released) = dispatcher.step(DispatchEvent::Created(Some(number)));
        for number in released {
            sessions[number].close();
        }
        dispatcher.step(DispatchEvent::Offered(Verdict::Taken));
    }
    assert_eq!(dispatcher.session(&peer(1)), Some(&1));
    assert!(sessions[0].is_closed());
    assert!(!sessions[1].is_closed());
    let (_, released) = dispatcher.step(DispatchEvent::PeerClosed(peer(1)));
    for number in released {
        sessions[number].close();
    }
    assert_eq!(dispatcher.session(&peer(1)), None);
    assert!(sessions[1].is_closed());
}
