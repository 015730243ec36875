use rips::core_types::BlockHash;
use rips::network::{
    BlockPropagator, ConnectionState, Endpoint, Message, NetworkError, NetworkManager,
    NodeCapabilities, PeerId, PeerInfo,
};
use sha2::Digest;

fn peer_info(key: &[u8], address: &str) -> PeerInfo {
    PeerInfo {
        peer_id: PeerId::from_public_key(key),
        address: address.to_string(),
        port: 8085,
        capabilities: NodeCapabilities::default(),
        last_seen: 0,
        is_vintage: false,
    }
}

#[test]
fn test_peer_id_generation() {
    let public_key = b"test_public_key_12345";
    let peer_id = PeerId::from_public_key(public_key);
    assert_eq!(peer_id.0.len(), 32);
    let mut hasher = sha2::Sha256::new();
    hasher.update(b"rustchain-peer-id:");
    hasher.update(public_key);
    let expected: [u8; 32] = hasher.finalize().into();
    assert_eq!(peer_id.0, expected);
    assert_eq!(peer_id.to_hex(), hex::encode(&expected[..16]));
}

#[test]
fn test_network_manager_add_peer() {
    let mut manager = NetworkManager::new(b"test_key", NodeCapabilities::default());

    let peer_info = PeerInfo {
        peer_id: PeerId::from_public_key(b"peer_key"),
        address: "192.168.1.100".to_string(),
        port: 8085,
        capabilities: NodeCapabilities::default(),
        last_seen: 0,
        is_vintage: false,
    };

    assert!(manager.add_peer(peer_info).is_ok());
    assert_eq!(manager.peers.len(), 1);
}

#[test]
fn test_reputation_system() {
    let mut manager = NetworkManager::new(b"test_key", NodeCapabilities::default());

    let peer_id = PeerId::from_public_key(b"peer_key");
    let peer_info = PeerInfo {
        peer_id: peer_id.clone(),
        address: "192.168.1.100".to_string(),
        port: 8085,
        capabilities: NodeCapabilities::default(),
        last_seen: 0,
        is_vintage: false,
    };

    manager.add_peer(peer_info).unwrap();

    manager.update_reputation(&peer_id, 10);
    assert_eq!(manager.get_peer(&peer_id).unwrap().reputation, 60);

    manager.update_reputation(&peer_id, -20);
    assert_eq!(manager.get_peer(&peer_id).unwrap().reputation, 40);
}

#[test]
fn test_block_propagator() {
    let mut propagator = BlockPropagator::new();

    let hash = BlockHash::from_bytes([1u8; 32]);

    assert!(!propagator.has_seen(&hash));
    propagator.mark_seen(hash.clone());
    assert!(propagator.has_seen(&hash));
}

#[test]
fn test_message_ping_pong() {
    let mut manager = NetworkManager::new(b"test_key", NodeCapabilities::default());

    let peer_id = PeerId::from_public_key(b"peer_key");
    let peer_info = PeerInfo {
        peer_id: peer_id.clone(),
        address: "192.168.1.100".to_string(),
        port: 8085,
        capabilities: NodeCapabilities::default(),
        last_seen: 0,
        is_vintage: false,
    };

    manager.add_peer(peer_info).unwrap();

    let response = manager.handle_message(&peer_id, Message::Ping(12345)).unwrap();
    assert!(matches!(response, Some(Message::Pong(12345))));
}

#[test]
fn reputation_bottoming_out_bans_the_peer() {
    let mut manager = NetworkManager::new(b"me", NodeCapabilities::default());
    let info = peer_info(b"bad", "10.0.0.1");
    let id = info.peer_id;
    manager.add_peer_at(info, 0).unwrap();
    manager.update_reputation(&id, 100);
    assert_eq!(manager.get_peer(&id).unwrap().reputation, 100);
    manager.update_reputation(&id, -1000);
    assert!(manager.get_peer(&id).is_none());
    assert_eq!(manager.banned_peers.len(), 1);
    match manager.add_peer_at(peer_info(b"bad", "10.0.0.1"), 5) {
        Err(NetworkError::PeerBanned(b)) => assert_eq!(b, id),
        _ => panic!("expected a ban"),
    }
}

#[test]
fn too_many_peers_refused() {
    let mut manager = NetworkManager::new(b"me", NodeCapabilities::default());
    for i in 0..50u32 {
        let key = i.to_le_bytes();
        assert!(manager.add_peer_at(peer_info(&key, "10.0.0.2"), 0).is_ok());
    }
    assert!(matches!(
        manager.add_peer_at(peer_info(b"one more", "10.0.0.3"), 0),
        Err(NetworkError::TooManyPeers)
    ));
    assert_eq!(manager.known_peers.len(), 1);
}

#[test]
fn broadcast_only_to_ready_peers() {
    let mut manager = NetworkManager::new(b"me", NodeCapabilities::default());
    let a = peer_info(b"a", "10.0.0.4");
    let b = peer_info(b"b", "10.0.0.5");
    let (ida, idb) = (a.peer_id, b.peer_id);
    manager.add_peer_at(a, 0).unwrap();
    manager.add_peer_at(b, 0).unwrap();
    assert!(manager.get_broadcast_peers(None).is_empty());
    for p in manager.peers.iter_mut() {
        p.state = ConnectionState::Ready;
    }
    assert_eq!(manager.get_broadcast_peers(None), vec![ida, idb]);
    assert_eq!(manager.get_broadcast_peers(Some(&ida)), vec![idb]);
    let peers = manager.handle_message_at(&ida, Message::GetPeers, 3).unwrap();
    match peers {
        Some(Message::Peers(v)) => assert_eq!(v.len(), 2),
        _ => panic!("expected peers"),
    }
    assert_eq!(manager.get_peer(&ida).unwrap().messages_received, 1);
    manager.handle_message_at(&ida, Message::Goodbye("bye".to_string()), 4).unwrap();
    assert_eq!(manager.get_broadcast_peers(None), vec![idb]);
}

#[test]
fn stale_peers_are_dropped() {
    let mut manager = NetworkManager::new(b"me", NodeCapabilities::default());
    manager.add_peer_at(peer_info(b"old", "10.0.0.6"), 100).unwrap();
    manager.add_peer_at(peer_info(b"new", "10.0.0.7"), 200).unwrap();
    manager.cleanup_stale_peers_at(220);
    assert_eq!(manager.peers.len(), 2);
    manager.cleanup_stale_peers_at(221);
    assert_eq!(manager.peers.len(), 1);
    assert_eq!(manager.peers[0].info.address, "10.0.0.7");
}

#[test]
fn message_ids_count_up() {
    let mut manager = NetworkManager::new(b"me", NodeCapabilities::default());
    assert_eq!(manager.next_message_id(), 1);
    assert_eq!(manager.next_message_id(), 2);
}

#[test]
fn seen_blocks_expire_after_an_hour() {
    let mut propagator = BlockPropagator::new();
    let h = BlockHash::from_bytes([9u8; 32]);
    propagator.mark_seen_at(h.clone(), 1_000);
    propagator.cleanup_at(4_599);
    assert!(propagator.has_seen(&h));
    propagator.cleanup_at(4_600);
    assert!(!propagator.has_seen(&h));
}

#[test]
fn endpoint_paths() {
    assert_eq!(Endpoint::Stats.path(), "/api/stats");
    assert_eq!(Endpoint::BlockByHash("abc".to_string()).path(), "/api/block/abc");
    assert_eq!(Endpoint::Badges("RTC1".to_string()).path(), "/api/badges/RTC1");
    assert_eq!(Endpoint::HardwareVerify.path(), "/api/hardware/verify");
}
