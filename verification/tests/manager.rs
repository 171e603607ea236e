use async_kcp::addr::PeerAddr;
use async_kcp::manager::{KcpSessionManager, Resolution};

fn v4(ipv4: u32, port: u16) -> PeerAddr {
    PeerAddr::V4 { ipv4, port }
}

fn v6(ipv6: u128, port: u16, flowinfo: u32, scope_id: u32) -> PeerAddr {
    PeerAddr::V6 { ipv6, port, flowinfo, scope_id }
}

#[test]
fn empty_manager_has_no_session() {
    let mut manager: KcpSessionManager<u8> = KcpSessionManager::new();
    assert_eq!(manager.get(&v4(1, 1)), None);
    assert_eq!(manager.close_peer(v4(1, 1)), None);
}

#[test]
fn sessions_are_found_replaced_and_removed_by_peer() {
    let mut manager: KcpSessionManager<u8> = KcpSessionManager::new();
    assert_eq!(manager.insert(v4(1, 1), 10), None);
    assert_eq!(manager.insert(v4(1, 2), 20), None);
    assert_eq!(manager.insert(v4(2, 1), 30), None);
    assert_eq!(manager.get(&v4(1, 1)), Some(&10));
    assert_eq!(manager.insert(v4(1, 1), 11), Some(10));
    assert_eq!(manager.get(&v4(1, 1)), Some(&11));
    assert_eq!(manager.close_peer(v4(1, 1)), Some(11));
    assert_eq!(manager.close_peer(v4(1, 1)), None);
    assert_eq!(manager.get(&v4(1, 1)), None);
    assert_eq!(manager.get(&v4(1, 2)), Some(&20));
    assert_eq!(manager.get(&v4(2, 1)), Some(&30));
}

#[test]
fn every_part_of_an_address_tells_peers_apart() {
    let peers: Vec<PeerAddr> = vec![
        v4(1, 1),
        v4(1, 2),
        v4(2, 1),
        v6(1, 1, 0, 0),
        v6(2, 1, 0, 0),
        v6(1, 2, 0, 0),
        v6(1, 1, 1, 0),
        v6(1, 1, 0, 1),
        v6(1, 0, 0, u32::MAX),
        v6(1, u16::MAX, 0, 0),
        v6(u128::MAX, u16::MAX, u32::MAX, u32::MAX),
    ];
    let mut manager: KcpSessionManager<usize> = KcpSessionManager::new();
    for i in 0..peers.len() {
        assert_eq!(manager.insert(peers[i], i), None);
    }
    for i in 0..peers.len() {
        assert_eq!(manager.get(&peers[i]), Some(&i));
    }
    for i in 0..peers.len() {
        assert_eq!(manager.close_peer(peers[i]), Some(i));
        assert_eq!(manager.get(&peers[i]), None);
    }
}

#[test]
fn packet_of_an_unknown_peer_creates() {
    let manager: KcpSessionManager<u8> = KcpSessionManager::new();
    assert_eq!(manager.get_or_create(7, 0, &v4(1, 1), None), Resolution::Create);
    assert_eq!(manager.get_or_create(7, 5, &v4(1, 1), None), Resolution::Create);
    assert_eq!(manager.get_or_create(7, 5, &v4(1, 1), Some(7)), Resolution::Create);
}

#[test]
fn packet_of_a_known_peer_is_resolved_by_sequence_and_conversation() {
    let mut manager: KcpSessionManager<u8> = KcpSessionManager::new();
    manager.insert(v4(1, 1), 10);
    assert_eq!(manager.get_or_create(7, 1, &v4(1, 1), None), Resolution::Existing);
    assert_eq!(manager.get_or_create(7, 1, &v4(1, 1), Some(8)), Resolution::Existing);
    assert_eq!(manager.get_or_create(7, 0, &v4(1, 1), None), Resolution::ReadConv);
    assert_eq!(manager.get_or_create(7, 0, &v4(1, 1), Some(7)), Resolution::Existing);
    assert_eq!(manager.get_or_create(7, 0, &v4(1, 1), Some(8)), Resolution::Create);
    assert_eq!(manager.get(&v4(1, 1)), Some(&10));
}

#[test]
fn allocated_conversations_differ() {
    let mut manager: KcpSessionManager<u8> = KcpSessionManager::new();
    manager.insert(v4(1, 1), 10);
    let first = manager.alloc_conv();
    let differs = (0..16).any(|_| manager.alloc_conv() != first);
    assert!(differs);
    assert_eq!(manager.get(&v4(1, 1)), Some(&10));
}
