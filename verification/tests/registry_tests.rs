use mcp_protocol_sdk::registry::PeerRegistry;

#[test]
fn accept_hands_out_fresh_ids() {
    let mut registry = PeerRegistry::new();
    let a = registry.accept();
    let b = registry.accept();
    let c = registry.accept();
    assert_eq!((a, b, c), (0, 1, 2));
    assert_eq!(registry.len(), 3);
    assert!(registry.contains(a));
    assert!(registry.contains(c));
    assert_eq!(registry.peer_ids(), vec![0, 1, 2]);
}

#[test]
fn removal_is_idempotent() {
    // a disconnect observed from two places removes the peer exactly once:
    // the second remover finds nothing left
    let mut registry = PeerRegistry::new();
    let a = registry.accept();
    let b = registry.accept();

    assert!(registry.remove_peer(a));
    assert!(!registry.remove_peer(a));
    assert!(!registry.contains(a));
    assert!(registry.contains(b));
    assert_eq!(registry.len(), 1);

    // a fresh accept never reuses a removed id
    let c = registry.accept();
    assert_ne!(c, a);
    assert_ne!(c, b);
}

#[test]
fn broadcast_with_one_closed_peer_removes_exactly_that_peer() {
    // broadcasting to three peers where the middle peer's channel is closed
    // still delivers to the other two and removes exactly the failed peer
    let mut registry = PeerRegistry::new();
    let a = registry.accept();
    let b = registry.accept();
    let c = registry.accept();

    let targets = registry.peer_ids();
    assert_eq!(targets, vec![a, b, c]);

    // the host attempted a send to each target; the send to `b` failed
    let results = vec![true, false, true];
    let delivered = registry.apply_broadcast_results(&results);

    assert_eq!(delivered, 2);
    assert!(registry.contains(a));
    assert!(!registry.contains(b));
    assert!(registry.contains(c));
    assert_eq!(registry.len(), 2);
}

#[test]
fn broadcast_where_every_send_fails_empties_the_registry() {
    let mut registry = PeerRegistry::new();
    registry.accept();
    registry.accept();
    let delivered = registry.apply_broadcast_results(&vec![false, false]);
    assert_eq!(delivered, 0);
    assert_eq!(registry.len(), 0);
}

#[test]
fn broadcast_to_nobody_delivers_nothing() {
    let mut registry = PeerRegistry::new();
    let delivered = registry.apply_broadcast_results(&Vec::new());
    assert_eq!(delivered, 0);
}
