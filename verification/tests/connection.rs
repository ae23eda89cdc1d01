use pomodoro_sync::connection::ConnectionSet;
use pomodoro_sync::connection::PeerAddr;

fn peer(n: u128) -> PeerAddr {
    PeerAddr { ip: n, port: 4000, is_v6: false }
}

#[test]
fn broadcast_failure_evicts_only_the_failed_peer() {
    // Three connected peers; the write to the second fails: the first and
    // third stay, the set holds exactly two entries, and the failure list
    // names only the second.
    let mut set = ConnectionSet::new();
    set.insert(peer(1));
    set.insert(peer(2));
    set.insert(peer(3));

    let failed = vec![peer(2)];
    let evicted = set.evict_failed(&failed);

    assert_eq!(evicted, vec![peer(2)]);
    assert_eq!(set.clients(), vec![peer(1), peer(3)]);
    assert_eq!(set.len(), 2);
    assert!(set.contains(&peer(1)));
    assert!(!set.contains(&peer(2)));
    assert!(set.contains(&peer(3)));
}

#[test]
fn broadcast_with_no_failures_evicts_nobody() {
    let mut set = ConnectionSet::new();
    set.insert(peer(1));
    set.insert(peer(2));
    let evicted = set.evict_failed(&Vec::new());
    assert!(evicted.is_empty());
    assert_eq!(set.clients(), vec![peer(1), peer(2)]);
}

#[test]
fn eviction_handles_several_failures_in_one_pass() {
    let mut set = ConnectionSet::new();
    for n in 1..=5 {
        set.insert(peer(n));
    }
    let failed = vec![peer(5), peer(1), peer(3)];
    let evicted = set.evict_failed(&failed);
    assert_eq!(evicted, vec![peer(1), peer(3), peer(5)]);
    assert_eq!(set.clients(), vec![peer(2), peer(4)]);
}

#[test]
fn reinserting_a_live_address_does_not_duplicate_it() {
    let mut set = ConnectionSet::new();
    set.insert(peer(7));
    set.insert(peer(7));
    assert_eq!(set.len(), 1);
    assert_eq!(set.clients(), vec![peer(7)]);
}

#[test]
fn peers_are_listed_in_acceptance_order() {
    let mut set = ConnectionSet::new();
    set.insert(peer(3));
    set.insert(peer(1));
    set.insert(peer(2));
    assert_eq!(set.clients(), vec![peer(3), peer(1), peer(2)]);
}

#[test]
fn disconnect_all_empties_the_set() {
    let mut set = ConnectionSet::new();
    set.insert(peer(1));
    set.insert(peer(2));
    assert!(!set.is_empty());
    set.disconnect_all();
    assert!(set.is_empty());
    assert_eq!(set.len(), 0);
    assert!(set.clients().is_empty());
}

#[test]
fn addresses_differ_by_ip_port_and_family() {
    let mut set = ConnectionSet::new();
    set.insert(PeerAddr { ip: 1, port: 4000, is_v6: false });
    set.insert(PeerAddr { ip: 1, port: 4001, is_v6: false });
    set.insert(PeerAddr { ip: 1, port: 4000, is_v6: true });
    assert_eq!(set.len(), 3);
}
