use homesec_bootstrap::address::{Address, HostId};
use homesec_bootstrap::election::Election;
use homesec_bootstrap::message::{AppearanceMessage, Message};
use homesec_bootstrap::node::ElectionError;

fn peer(last: u8) -> Address {
    Address::v4(192, 168, 0, last, 43000)
}

fn host(n: u128) -> HostId {
    HostId::new(n)
}

fn announce(election: &mut Election, addr: Address, hid: HostId, priority: i32, now: u64) {
    let msg = AppearanceMessage { priority, is_master: false, hid };
    assert_eq!(election.handle_appearance_at(addr, &msg, now), Ok(()));
}

#[test]
fn three_nodes_elect_the_highest_priority() {
    let (a, b, c) = (peer(100), peer(102), peer(103));
    let (ha, hb, hc) = (host(1), host(2), host(3));
    // Each of the three nodes runs its own engine and sees the same peers.
    let mut engines: Vec<Election> = Vec::new();
    for own in [10, 50, 30] {
        let mut election = Election::new_at(0, own);
        announce(&mut election, a, ha, 10, 100);
        announce(&mut election, b, hb, 50, 200);
        announce(&mut election, c, hc, 30, 300);
        engines.push(election);
    }
    // Within the grace period nobody votes; after it all vote for priority 50.
    let mut ballots = Vec::new();
    for election in engines.iter_mut() {
        assert_eq!(election.check_vote_at(9_999), None);
        let ballot = election.check_vote_at(10_000);
        assert_eq!(ballot, Some((b, hb)));
        assert_eq!(election.check_vote_at(10_001), None);
        ballots.push(ballot.unwrap());
    }
    // Every engine observes the three ballots.
    let voters = [a, b, c];
    for election in engines.iter_mut() {
        for (voter, (addr, hid)) in voters.iter().zip(ballots.iter()) {
            assert_eq!(election.cast_vote_at(*addr, *hid, *voter, 10_500), Ok(()));
        }
        // Ballots are still settling for one grace period after the last one.
        assert_eq!(election.check_result_at(20_499, 0), (None, false));
        assert_eq!(election.check_result_at(20_500, 0), (Some((b, hb)), false));
        assert_eq!(election.nodes.len(), 3);
        assert_eq!(election.nodes[1].votes.len(), 3);
    }
}

#[test]
fn two_pairs_without_quorum_stay_undecided() {
    let (a, b, c, d) = (peer(1), peer(2), peer(3), peer(4));
    let mut election = Election::new_at(0, 5);
    announce(&mut election, a, host(1), 40, 10);
    announce(&mut election, b, host(2), 40, 20);
    announce(&mut election, c, host(3), 7, 30);
    announce(&mut election, d, host(4), 7, 40);
    assert_eq!(election.quorum(), 3);
    // Two candidates get two ballots each.
    assert_eq!(election.cast_vote_at(a, host(1), a, 11_000), Ok(()));
    assert_eq!(election.cast_vote_at(a, host(1), c, 11_000), Ok(()));
    assert_eq!(election.cast_vote_at(b, host(2), b, 11_000), Ok(()));
    assert_eq!(election.cast_vote_at(b, host(2), d, 11_000), Ok(()));
    for now in [21_000u64, 30_000, 100_000, 10_000_000, u64::MAX] {
        assert_eq!(election.check_result_at(now, 0), (None, false));
        assert_eq!(election.nodes.len(), 4);
    }
    // A third ballot for one of them reaches the quorum of three.
    assert_eq!(election.cast_vote_at(b, host(2), a, 40_000), Ok(()));
    assert_eq!(election.check_result_at(49_999, 0), (None, false));
    assert_eq!(election.check_result_at(50_000, 0), (Some((b, host(2))), false));
    // A fifth peer raises the quorum to four, and the election is open again.
    announce(&mut election, peer(5), host(5), 1, 50_001);
    assert_eq!(election.quorum(), 4);
    assert_eq!(election.check_result_at(60_000, 0), (None, false));
}

#[test]
fn changed_host_identity_is_rejected() {
    let a = peer(9);
    let mut election = Election::new_at(0, 5);
    announce(&mut election, a, host(0xAAAA), 11, 100);
    assert_eq!(election.cast_vote_at(a, host(0xAAAA), peer(1), 150), Ok(()));
    let other = AppearanceMessage { priority: 99, is_master: true, hid: host(0xBBBB) };
    assert_eq!(
        election.handle_appearance_at(a, &other, 200),
        Err(ElectionError::IdentityMismatch {
            addr: a,
            known: host(0xAAAA),
            claimed: host(0xBBBB),
        })
    );
    assert_eq!(election.nodes.len(), 1);
    let node = &election.nodes[0];
    assert_eq!(node.addr, a);
    assert_eq!(node.hid, host(0xAAAA));
    assert_eq!(node.priority, 11);
    assert!(!node.is_master);
    assert_eq!(node.last_seen, 100);
    assert_eq!(node.votes, vec![peer(1)]);
    // The same goes through the message dispatch.
    let res = election.process_message_at(a, &Message::Appearance(other), 300, 0);
    assert!(matches!(res, Err(ElectionError::IdentityMismatch { .. })));
    assert_eq!(election.nodes[0].priority, 11);
}

#[test]
fn reset_message_rewinds_the_election() {
    let mut election = Election::new_at(0, 1234);
    announce(&mut election, peer(1), host(1), 10, 100);
    announce(&mut election, peer(2), host(2), 20, 200);
    assert_eq!(election.check_vote_at(10_000), Some((peer(2), host(2))));
    assert!(election.voted);
    assert_eq!(election.process_message_at(peer(2), &Message::Reset, 12_000, 4321), Ok(()));
    assert!(election.nodes.is_empty());
    assert!(!election.voted);
    assert_eq!(election.priority, 4321);
    assert_eq!(election.start_time, 12_000);
    assert_eq!(election.delay, 10_000);
    // The grace period runs anew from the reset.
    announce(&mut election, peer(1), host(1), 10, 12_100);
    assert_eq!(election.check_vote_at(21_999), None);
    assert_eq!(election.check_vote_at(22_000), Some((peer(1), host(1))));
}

#[test]
fn reset_by_the_system_draws_a_new_priority() {
    let mut election = Election::new();
    let first = election.priority;
    assert!((0..=65_535).contains(&first));
    announce(&mut election, peer(1), host(1), 10, 100);
    let mut seen_other = false;
    for _ in 0..16 {
        assert_eq!(election.process_message(peer(1), &Message::Reset), Ok(()));
        assert!(election.nodes.is_empty());
        assert!(!election.voted);
        assert!((0..=65_535).contains(&election.priority));
        if election.priority != first {
            seen_other = true;
        }
    }
    assert!(seen_other);
}
