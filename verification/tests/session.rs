use async_kcp::addr::PeerAddr;
use async_kcp::session::{
    IoAction, IoEvent, KcpSession, SessionSignal, SocketStatus, Updater, UpdaterAction,
    UpdaterEvent, MAX_SPAN_NS, UPDATE_RETRY_NS,
};

const SECOND: u128 = 1_000_000_000;

fn peer() -> PeerAddr {
    PeerAddr::V4 { ipv4: 0x7f00_0001, port: 4000 }
}

fn status(idle_ns: u128) -> SocketStatus {
    SocketStatus { conv: 7, waiting_conv: false, can_close: false, need_flush: false, idle_ns }
}

fn server(expire_ns: u128) -> (KcpSession, Updater) {
    KcpSession::new_shared(expire_ns, Some(peer()))
}

fn client(expire_ns: u128) -> (KcpSession, Updater) {
    KcpSession::new_shared(expire_ns, None)
}

/// A packet with conversation number `conv` and sequence number `sn`.
fn packet(conv: u32, sn: u32) -> Vec<u8> {
    let mut bytes: Vec<u8> = vec![0; 24];
    bytes[0..4].copy_from_slice(&conv.to_le_bytes());
    bytes[12..16].copy_from_slice(&sn.to_le_bytes());
    bytes.push(0xab);
    bytes
}

#[test]
fn new_session_is_open() {
    let (session, updater) = server(5 * SECOND);
    assert!(!session.is_closed());
    assert!(!session.is_client());
    assert_eq!(updater, Updater::Starting);
    let (session, _) = client(5 * SECOND);
    assert!(session.is_client());
}

#[test]
fn close_closes_and_wakes() {
    let (mut session, _) = server(5 * SECOND);
    assert_eq!(session.notify(), SessionSignal::WakeUpdater);
    assert!(!session.is_closed());
    assert_eq!(session.close(), SessionSignal::WakeUpdater);
    assert!(session.is_closed());
    assert_eq!(session.close(), SessionSignal::WakeUpdater);
    assert!(session.is_closed());
}

#[test]
fn updater_works_round_after_round() {
    let (mut session, updater) = server(5 * SECOND);
    let (updater, action) = updater.step(&mut session, UpdaterEvent::Started);
    assert_eq!(action, UpdaterAction::Inspect);
    let mut full = status(SECOND);
    full.need_flush = true;
    let (updater, action) = updater.step(&mut session, UpdaterEvent::Inspected(full));
    assert_eq!(action, UpdaterAction::Update { flush: true });
    let (updater, action) = updater.step(&mut session, UpdaterEvent::Updated(Some(123)));
    assert_eq!(action, UpdaterAction::Wait { delay_ns: 123 });
    let (updater, action) = updater.step(&mut session, UpdaterEvent::Woken);
    assert_eq!(action, UpdaterAction::Inspect);
    let (updater, action) = updater.step(&mut session, UpdaterEvent::Inspected(status(SECOND)));
    assert_eq!(action, UpdaterAction::Update { flush: false });
    let (updater, action) = updater.step(&mut session, UpdaterEvent::Updated(None));
    assert_eq!(action, UpdaterAction::Wait { delay_ns: UPDATE_RETRY_NS });
    assert_eq!(UPDATE_RETRY_NS, 10_000_000);
    assert_eq!(updater, Updater::Waiting);
    assert!(!session.is_closed());
}

#[test]
fn closed_server_session_shuts_down_in_order() {
    let (mut session, _) = server(5 * SECOND);
    session.close();
    let (updater, action) = Updater::Waiting.step(&mut session, UpdaterEvent::Woken);
    assert_eq!(action, UpdaterAction::CloseSocket);
    let (updater, action) = updater.step(&mut session, UpdaterEvent::SocketClosed);
    assert_eq!(action, UpdaterAction::NotifyClosed { peer: peer() });
    let (updater, action) = updater.step(&mut session, UpdaterEvent::Notified);
    assert_eq!(action, UpdaterAction::CancelIo);
    let (updater, action) = updater.step(&mut session, UpdaterEvent::IoCancelled);
    assert_eq!(action, UpdaterAction::Finish);
    assert_eq!(updater, Updater::Finished);
    assert!(session.is_closed());
}

#[test]
fn closed_client_session_reports_to_nobody() {
    let (mut session, updater) = client(5 * SECOND);
    session.close();
    let (updater, action) = updater.step(&mut session, UpdaterEvent::Started);
    assert_eq!(action, UpdaterAction::CloseSocket);
    let (updater, action) = updater.step(&mut session, UpdaterEvent::SocketClosed);
    assert_eq!(action, UpdaterAction::CancelIo);
    let (_, action) = updater.step(&mut session, UpdaterEvent::IoCancelled);
    assert_eq!(action, UpdaterAction::Finish);
}

#[test]
fn session_closed_between_the_two_looks_stops_if_nothing_is_left() {
    let (mut session, updater) = client(5 * SECOND);
    let (updater, action) = updater.step(&mut session, UpdaterEvent::Started);
    assert_eq!(action, UpdaterAction::Inspect);
    session.close();
    let (_, action) = updater.step(&mut session, UpdaterEvent::Inspected(status(0)));
    assert_eq!(action, UpdaterAction::Update { flush: false });
    let mut drained = status(0);
    drained.can_close = true;
    let (_, action) = updater.step(&mut session, UpdaterEvent::Inspected(drained));
    assert_eq!(action, UpdaterAction::CloseSocket);
}

#[test]
fn open_session_with_nothing_to_send_goes_on() {
    let (mut session, _) = server(5 * SECOND);
    let mut drained = status(SECOND);
    drained.can_close = true;
    let (_, action) = Updater::Inspecting.step(&mut session, UpdaterEvent::Inspected(drained));
    assert_eq!(action, UpdaterAction::Update { flush: false });
    assert!(!session.is_closed());
}

#[test]
fn server_session_expires_just_after_its_time() {
    let (mut session, _) = server(5 * SECOND);
    let at = UpdaterEvent::Inspected(status(5 * SECOND));
    let (_, action) = Updater::Inspecting.step(&mut session, at);
    assert_eq!(action, UpdaterAction::Update { flush: false });
    assert!(!session.is_closed());
    let after = UpdaterEvent::Inspected(status(5 * SECOND + 1));
    let (updater, action) = Updater::Inspecting.step(&mut session, after);
    assert_eq!(action, UpdaterAction::Update { flush: false });
    assert!(session.is_closed());
    let (updater, action) = updater.step(&mut session, UpdaterEvent::Updated(Some(1)));
    assert_eq!(action, UpdaterAction::Wait { delay_ns: 1 });
    let (_, action) = updater.step(&mut session, UpdaterEvent::Woken);
    assert_eq!(action, UpdaterAction::CloseSocket);
}

#[test]
fn abandoned_server_session_is_cut_off() {
    let (mut session, _) = server(5 * SECOND);
    let at = UpdaterEvent::Inspected(status(10 * SECOND));
    let (_, action) = Updater::Inspecting.step(&mut session, at);
    assert_eq!(action, UpdaterAction::Update { flush: false });
    let after = UpdaterEvent::Inspected(status(10 * SECOND + 1));
    let (updater, action) = Updater::Inspecting.step(&mut session, after);
    assert_eq!(action, UpdaterAction::CloseSocket);
    assert_eq!(updater, Updater::Closing);
}

#[test]
fn client_session_never_expires() {
    let (mut session, _) = client(5 * SECOND);
    let long = UpdaterEvent::Inspected(status(MAX_SPAN_NS));
    let (_, action) = Updater::Inspecting.step(&mut session, long);
    assert_eq!(action, UpdaterAction::Update { flush: false });
    assert!(!session.is_closed());
}

#[test]
fn longest_expiry_is_kept() {
    let (mut session, _) = server(MAX_SPAN_NS);
    let long = UpdaterEvent::Inspected(status(MAX_SPAN_NS));
    let (_, action) = Updater::Inspecting.step(&mut session, long);
    assert_eq!(action, UpdaterAction::Update { flush: false });
    assert!(!session.is_closed());
    assert_eq!(std::time::Duration::MAX.as_nanos(), MAX_SPAN_NS);
}

fn input(action: IoAction) -> (Option<u32>, Vec<u8>) {
    match action {
        IoAction::Input { set_conv, packet } => (set_conv, packet),
        IoAction::Ignore => panic!("the packet was ignored"),
    }
}

#[test]
fn client_follows_the_conversation_of_the_server() {
    let (session, _) = client(SECOND);
    let event = IoEvent::Datagram(Some(packet(0x0102_0304, 9)));
    let (set_conv, bytes) = input(session.io_step(event, &status(0)));
    assert_eq!(set_conv, Some(0x0102_0304));
    assert_eq!(bytes, packet(0x0102_0304, 9));
    let event = IoEvent::Datagram(Some(packet(7, 0)));
    let (set_conv, bytes) = input(session.io_step(event, &status(0)));
    assert_eq!(set_conv, None);
    assert_eq!(bytes, packet(7, 0));
}

#[test]
fn waiting_client_takes_the_conversation_from_the_packet() {
    let (session, _) = client(SECOND);
    let mut waiting = status(0);
    waiting.waiting_conv = true;
    let event = IoEvent::Datagram(Some(packet(9, 0)));
    let (set_conv, bytes) = input(session.io_step(event, &waiting));
    assert_eq!(set_conv, None);
    assert_eq!(bytes, packet(9, 0));
}

#[test]
fn server_session_ignores_its_own_reads() {
    let (session, _) = server(SECOND);
    let event = IoEvent::Datagram(Some(packet(9, 0)));
    assert!(matches!(session.io_step(event, &status(0)), IoAction::Ignore));
    let short = IoEvent::Datagram(Some(vec![1, 2, 3]));
    assert!(matches!(session.io_step(short, &status(0)), IoAction::Ignore));
}

#[test]
fn failed_reads_and_ended_channels_are_ignored() {
    let (session, _) = client(SECOND);
    assert!(matches!(session.io_step(IoEvent::Datagram(None), &status(0)), IoAction::Ignore));
    assert!(matches!(session.io_step(IoEvent::Forwarded(None), &status(0)), IoAction::Ignore));
}

#[test]
fn forwarded_packets_go_in_unchanged() {
    let (session, _) = server(SECOND);
    let event = IoEvent::Forwarded(Some(packet(9, 3)));
    let (set_conv, bytes) = input(session.io_step(event, &status(0)));
    assert_eq!(set_conv, None);
    assert_eq!(bytes, packet(9, 3));
}

#[test]
fn expiry_out_of_range_is_told() {
    let (mut session, _) = server(MAX_SPAN_NS / 2);
    assert!(session.expiry_in_range(&status(MAX_SPAN_NS)));
    let (session_long, _) = server(MAX_SPAN_NS / 2 + 1);
    assert!(session_long.expiry_in_range(&status(MAX_SPAN_NS / 2 + 1)));
    assert!(!session_long.expiry_in_range(&status(MAX_SPAN_NS / 2 + 2)));
    let (client_long, _) = client(MAX_SPAN_NS);
    assert!(client_long.expiry_in_range(&status(MAX_SPAN_NS)));
    let at = UpdaterEvent::Inspected(status(MAX_SPAN_NS));
    let (_, action) = Updater::Inspecting.step(&mut session, at);
    assert_eq!(action, UpdaterAction::CloseSocket);
}
