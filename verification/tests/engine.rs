use homesec_bootstrap::address::{Address, HostId};
use homesec_bootstrap::election::{Election, GRACE_PERIOD_MILLIS};
use homesec_bootstrap::message::{
    AppearanceMessage, CastVote, ConnectionDetails, ElectionResult, Message,
};
use homesec_bootstrap::node::{ElectionError, Node, Query};
use homesec_bootstrap::system::{
    current_time, gen_priority, priority_from_draw, time_from_reading,
};

fn endpoint(last: u8) -> Address {
    Address::v4(10, 0, 0, last, 43000)
}

fn id(n: u128) -> HostId {
    HostId::new(n)
}

fn appearance(priority: i32, is_master: bool, hid: HostId) -> AppearanceMessage {
    AppearanceMessage { priority, is_master, hid }
}

fn table(priorities: &[i32]) -> Election {
    let mut election = Election::new_at(1_000, 77);
    for (i, priority) in priorities.iter().enumerate() {
        let n = (i + 1) as u8;
        let msg = appearance(*priority, false, id(n as u128));
        assert_eq!(election.handle_appearance_at(endpoint(n), &msg, 1_000 + n as u64), Ok(()));
    }
    election
}

#[test]
fn address_packs_octets_big_endian() {
    assert_eq!(
        Address::v4(192, 168, 0, 100, 43000),
        Address::V4 { ip: 0xC0A8_0064, port: 43000 }
    );
    assert_eq!(Address::v4(0, 0, 0, 0, 0), Address::V4 { ip: 0, port: 0 });
    assert_eq!(Address::v4(255, 255, 255, 255, 65535), Address::V4 { ip: u32::MAX, port: 65535 });
    assert_ne!(Address::v4(10, 0, 0, 1, 1), Address::v4(10, 0, 0, 1, 2));
    assert_ne!(Address::v4(1, 0, 0, 0, 1), Address::v4(0, 0, 0, 1, 1));
    let v6 = Address::V6 { ip6: 1, port: 43000, flowinfo: 0, scope_id: 4 };
    assert_eq!(v6.port(), 43000);
    assert_eq!(Address::v4(10, 0, 0, 1, 17).port(), 17);
    assert_ne!(v6, Address::V6 { ip6: 1, port: 43000, flowinfo: 0, scope_id: 5 });
}

#[test]
fn new_election_starts_empty() {
    let election = Election::new_at(500, 9);
    assert!(election.nodes.is_empty());
    assert_eq!(election.start_time, 500);
    assert_eq!(election.last_vote, 500);
    assert!(!election.voted);
    assert_eq!(election.delay, 10_000);
    assert_eq!(GRACE_PERIOD_MILLIS, 10_000);
    assert_eq!(election.priority, 9);
}

#[test]
fn new_election_by_the_system_reads_clock_and_randomness() {
    let before = current_time();
    let election = Election::new();
    let after = current_time();
    // The clock reads a time of this century.
    assert!(before > 1_577_836_800_000);
    assert!(before <= election.start_time && election.start_time <= after);
    assert_eq!(election.last_vote, election.start_time);
    assert!((0..=65_535).contains(&election.priority));
    assert!(election.too_early());
}

#[test]
fn priorities_are_sixteen_bit_and_vary() {
    let first = gen_priority();
    let mut varied = false;
    for _ in 0..64 {
        let p = gen_priority();
        assert!((0..=65_535).contains(&p));
        if p != first {
            varied = true;
        }
    }
    assert!(varied);
}

#[test]
fn priority_is_the_draw_itself() {
    assert_eq!(priority_from_draw(0), 0);
    assert_eq!(priority_from_draw(1), 1);
    assert_eq!(priority_from_draw(32_768), 32_768);
    assert_eq!(priority_from_draw(u16::MAX), 65_535);
}

#[test]
fn clock_reading_becomes_milliseconds() {
    assert_eq!(time_from_reading(None), 0);
    assert_eq!(time_from_reading(Some(0)), 0);
    assert_eq!(time_from_reading(Some(1_577_836_800_000)), 1_577_836_800_000);
    assert_eq!(time_from_reading(Some(u64::MAX as u128)), u64::MAX);
    assert_eq!(time_from_reading(Some(u64::MAX as u128 + 1)), u64::MAX);
    assert_eq!(time_from_reading(Some(u128::MAX)), u64::MAX);
}

#[test]
fn grace_period_edges() {
    let election = Election::new_at(1_000, 0);
    assert!(election.too_early_at(1_000));
    assert!(election.too_early_at(10_999));
    assert!(!election.too_early_at(11_000));
    assert!(!election.too_early_at(u64::MAX));
    // A clock that has gone back is still within the grace period.
    assert!(election.too_early_at(0));
}

#[test]
fn appearance_updates_a_known_peer() {
    let mut election = table(&[10, 20]);
    let msg = appearance(99, true, id(1));
    assert_eq!(election.handle_appearance_at(endpoint(1), &msg, 5_000), Ok(()));
    assert_eq!(election.nodes.len(), 2);
    assert_eq!(election.nodes[0].priority, 99);
    assert!(election.nodes[0].is_master);
    assert_eq!(election.nodes[0].last_seen, 5_000);
    assert_eq!(election.nodes[1].priority, 20);
    assert_eq!(election.nodes[1].last_seen, 1_002);
}

#[test]
fn appearance_keeps_the_ballots_of_a_known_peer() {
    let mut election = table(&[10, 20]);
    assert_eq!(election.cast_vote_at(endpoint(1), id(1), endpoint(2), 2_000), Ok(()));
    let msg = appearance(11, false, id(1));
    assert_eq!(election.handle_appearance_at(endpoint(1), &msg, 3_000), Ok(()));
    assert_eq!(election.nodes[0].votes, vec![endpoint(2)]);
}

#[test]
fn appearance_by_the_system_stamps_the_time() {
    let mut election = Election::new();
    let before = current_time();
    assert_eq!(election.handle_appearance(endpoint(1), &appearance(3, false, id(1))), Ok(()));
    let after = current_time();
    assert_eq!(election.nodes.len(), 1);
    assert!(before <= election.nodes[0].last_seen && election.nodes[0].last_seen <= after);
}

#[test]
fn same_host_at_two_endpoints_is_two_records() {
    let mut election = table(&[10]);
    let msg = appearance(5, false, id(1));
    assert_eq!(election.handle_appearance_at(endpoint(200), &msg, 2_000), Ok(()));
    assert_eq!(election.nodes.len(), 2);
    assert_eq!(election.nodes[1].addr, endpoint(200));
    assert_eq!(election.nodes[1].hid, id(1));
}

#[test]
fn repeated_ballot_counts_once() {
    let mut election = table(&[10, 20, 30]);
    assert_eq!(election.cast_vote_at(endpoint(3), id(3), endpoint(1), 2_000), Ok(()));
    assert_eq!(election.nodes[2].votes.len(), 1);
    assert_eq!(election.last_vote, 2_000);
    assert_eq!(election.cast_vote_at(endpoint(3), id(3), endpoint(1), 2_500), Ok(()));
    assert_eq!(election.nodes[2].votes.len(), 1);
    assert_eq!(election.nodes[2].vote_count(), 1);
    assert_eq!(election.last_vote, 2_500);
    assert_eq!(election.cast_vote_at(endpoint(3), id(3), endpoint(2), 2_600), Ok(()));
    assert_eq!(election.nodes[2].vote_count(), 2);
    assert_eq!(election.nodes[2].votes, vec![endpoint(1), endpoint(2)]);
    assert!(election.nodes[0].votes.is_empty());
    assert!(election.nodes[1].votes.is_empty());
}

#[test]
fn node_counts_each_voter_once() {
    let mut node = Node::from_appearance(endpoint(1), &appearance(4, false, id(1)), 10);
    assert_eq!(node.vote_count(), 0);
    assert!(!node.has_vote_of(endpoint(2)));
    node.cast_vote(endpoint(2));
    node.cast_vote(endpoint(2));
    node.cast_vote(endpoint(3));
    node.cast_vote(endpoint(2));
    assert_eq!(node.vote_count(), 2);
    assert!(node.has_vote_of(endpoint(2)));
    assert!(node.has_vote_of(endpoint(3)));
    assert!(!node.has_vote_of(endpoint(1)));
}

#[test]
fn node_answers_queries() {
    let node = Node::from_appearance(endpoint(1), &appearance(4, true, id(8)), 10);
    assert!(node.answers(&Query::Master));
    assert!(node.answers(&Query::Endpoint(endpoint(1))));
    assert!(!node.answers(&Query::Endpoint(endpoint(2))));
    assert!(node.answers(&Query::Host(id(8))));
    assert!(!node.answers(&Query::Host(id(9))));
    assert!(node.answers(&Query::Candidate(endpoint(1), id(8))));
    assert!(!node.answers(&Query::Candidate(endpoint(1), id(9))));
    assert!(!node.answers(&Query::Candidate(endpoint(2), id(8))));
}

#[test]
fn node_rejects_another_host_identity() {
    let mut node = Node::from_appearance(endpoint(1), &appearance(4, false, id(8)), 10);
    assert_eq!(
        node.process_appearance(&appearance(5, true, id(9)), 20),
        Err(ElectionError::IdentityMismatch { addr: endpoint(1), known: id(8), claimed: id(9) })
    );
    assert_eq!(node.priority, 4);
    assert!(!node.is_master);
    assert_eq!(node.last_seen, 10);
    assert_eq!(node.process_appearance(&appearance(5, true, id(8)), 20), Ok(()));
    assert_eq!(node.priority, 5);
    assert!(node.is_master);
    assert_eq!(node.last_seen, 20);
}

#[test]
fn ballot_for_unknown_candidate_is_dropped() {
    let mut election = table(&[10, 20]);
    assert_eq!(
        election.cast_vote_at(endpoint(9), id(9), endpoint(1), 2_000),
        Err(ElectionError::UnknownCandidate { addr: endpoint(9), hid: id(9) })
    );
    // Endpoint and host identity must both match.
    assert_eq!(
        election.cast_vote_at(endpoint(1), id(2), endpoint(1), 2_000),
        Err(ElectionError::UnknownCandidate { addr: endpoint(1), hid: id(2) })
    );
    assert_eq!(election.last_vote, 1_000);
    assert!(election.nodes.iter().all(|node| node.votes.is_empty()));
    let vote = Message::CastVote(CastVote { addr: endpoint(9), hid: id(9) });
    assert_eq!(
        election.process_message_at(endpoint(1), &vote, 2_000, 0),
        Err(ElectionError::UnknownCandidate { addr: endpoint(9), hid: id(9) })
    );
}

#[test]
fn ballot_by_the_system_stamps_the_time() {
    let mut election = table(&[10]);
    let before = current_time();
    assert_eq!(election.cast_vote(endpoint(1), id(1), endpoint(5)), Ok(()));
    let after = current_time();
    assert!(before <= election.last_vote && election.last_vote <= after);
    assert_eq!(election.nodes[0].votes, vec![endpoint(5)]);
}

#[test]
fn ballot_message_counts_the_sender_as_voter() {
    let mut election = table(&[10, 20]);
    let vote = Message::CastVote(CastVote { addr: endpoint(2), hid: id(2) });
    assert_eq!(election.process_message_at(endpoint(1), &vote, 3_000, 0), Ok(()));
    assert_eq!(election.nodes[1].votes, vec![endpoint(1)]);
    assert_eq!(election.last_vote, 3_000);
}

#[test]
fn announced_result_changes_nothing() {
    let mut election = table(&[10, 20]);
    let msg = Message::ElectionResult(ElectionResult { addr: endpoint(2), hid: id(2) });
    assert_eq!(election.process_message_at(endpoint(1), &msg, 9_000, 5), Ok(()));
    assert_eq!(election.nodes.len(), 2);
    assert_eq!(election.start_time, 1_000);
    assert_eq!(election.last_vote, 1_000);
    assert!(!election.voted);
    assert_eq!(election.priority, 77);
    assert!(!election.nodes[1].is_master);
}

#[test]
fn connection_details_mark_the_known_host_as_leader() {
    let mut election = table(&[10, 20]);
    let msg = Message::ConnectionDetails(
        ConnectionDetails { hid: id(2), token: String::from("K10::server:abc") },
    );
    // The details may come from any endpoint: the host identity decides.
    assert_eq!(election.process_message_at(endpoint(77), &msg, 4_000, 0), Ok(()));
    assert_eq!(election.nodes.len(), 2);
    assert!(!election.nodes[0].is_master);
    assert!(election.nodes[1].is_master);
    assert_eq!(election.nodes[1].priority, 20);
}

#[test]
fn connection_details_of_an_unknown_host_add_a_leader() {
    let mut election = table(&[10]);
    assert_eq!(election.handle_connection_details_at(endpoint(50), id(50), 4_000), Ok(()));
    assert_eq!(election.nodes.len(), 2);
    let node = &election.nodes[1];
    assert_eq!(node.addr, endpoint(50));
    assert_eq!(node.hid, id(50));
    assert!(node.is_master);
    assert_eq!(node.priority, -1);
    assert_eq!(node.last_seen, 4_000);
    assert!(node.votes.is_empty());
}

#[test]
fn connection_details_from_an_endpoint_under_another_identity_are_rejected() {
    let mut election = table(&[10]);
    assert_eq!(
        election.handle_connection_details_at(endpoint(1), id(50), 4_000),
        Err(ElectionError::IdentityMismatch { addr: endpoint(1), known: id(1), claimed: id(50) })
    );
    assert_eq!(election.nodes.len(), 1);
    assert!(!election.nodes[0].is_master);
}

#[test]
fn find_gives_the_first_match() {
    let mut election = table(&[10, 20, 30]);
    assert_eq!(election.find(&Query::Master), None);
    assert_eq!(election.find(&Query::Endpoint(endpoint(2))), Some(1));
    assert_eq!(election.find(&Query::Endpoint(endpoint(9))), None);
    assert_eq!(election.find(&Query::Host(id(3))), Some(2));
    assert_eq!(election.find(&Query::Candidate(endpoint(3), id(3))), Some(2));
    assert_eq!(election.find(&Query::Candidate(endpoint(3), id(2))), None);
    election.nodes[2].is_master = true;
    election.nodes[1].is_master = true;
    assert_eq!(election.find(&Query::Master), Some(1));
}

#[test]
fn vote_waits_for_peers_and_grace_period() {
    let mut election = Election::new_at(0, 1);
    // An empty table gives nothing to vote for, however late it is.
    assert_eq!(election.check_vote_at(1_000_000), None);
    assert!(!election.voted);
    let msg = appearance(10, false, id(1));
    assert_eq!(election.handle_appearance_at(endpoint(1), &msg, 1), Ok(()));
    assert_eq!(election.check_vote_at(9_999), None);
    assert!(!election.voted);
    assert_eq!(election.check_vote_at(10_000), Some((endpoint(1), id(1))));
    assert!(election.voted);
    assert_eq!(election.check_vote_at(10_000), None);
}

#[test]
fn vote_goes_to_the_last_of_equal_top_priorities() {
    let mut election = table(&[50, 7, 50, 3]);
    assert_eq!(election.top_priority_index(), 2);
    assert_eq!(election.check_vote_at(20_000), Some((endpoint(3), id(3))));
    let mut single = table(&[-5]);
    assert_eq!(single.top_priority_index(), 0);
    assert_eq!(single.check_vote_at(20_000), Some((endpoint(1), id(1))));
    let descending = table(&[9, 8, 7]);
    assert_eq!(descending.top_priority_index(), 0);
    let ascending = table(&[7, 8, 9]);
    assert_eq!(ascending.top_priority_index(), 2);
}

#[test]
fn vote_by_the_system_waits_for_the_grace_period() {
    let mut election = Election::new();
    assert_eq!(election.handle_appearance(endpoint(1), &appearance(3, false, id(1))), Ok(()));
    assert_eq!(election.check_vote(), None);
    assert!(!election.voted);
    // With the grace period switched off the ballot is cast at once.
    election.delay = 0;
    assert_eq!(election.check_vote(), Some((endpoint(1), id(1))));
    assert!(election.voted);
}

#[test]
fn known_leader_wins_at_once() {
    let mut election = table(&[10, 20, 30]);
    let claim = appearance(1, true, id(2));
    assert_eq!(election.handle_appearance_at(endpoint(2), &claim, 1_500), Ok(()));
    // Still within the grace period, and without any ballot.
    assert_eq!(election.check_result_at(1_600, 0), (Some((endpoint(2), id(2))), false));
    assert_eq!(election.check_vote_at(1_600), Some((endpoint(2), id(2))));
    assert_eq!(election.check_vote_at(1_700), None);
    assert_eq!(election.check_result_at(1_000_000, 0), (Some((endpoint(2), id(2))), false));
    assert_eq!(election.nodes.len(), 3);
    // Ballots for others do not change the outcome.
    for voter in 1..=3 {
        assert_eq!(election.cast_vote_at(endpoint(3), id(3), endpoint(voter), 2_000), Ok(()));
    }
    assert_eq!(election.check_result_at(50_000, 0), (Some((endpoint(2), id(2))), false));
    assert_eq!(election.check_result(), (Some((endpoint(2), id(2))), false));
}

#[test]
fn first_of_several_leaders_is_named() {
    let mut election = table(&[10, 20, 30]);
    election.nodes[2].is_master = true;
    election.nodes[1].is_master = true;
    assert_eq!(election.check_result_at(0, 0), (Some((endpoint(2), id(2))), false));
    assert_eq!(election.check_vote_at(0), Some((endpoint(2), id(2))));
}

#[test]
fn no_winner_below_quorum() {
    let mut election = table(&[10, 20, 30]);
    assert_eq!(election.check_result_at(100_000, 0), (None, false));
    assert_eq!(election.cast_vote_at(endpoint(3), id(3), endpoint(1), 2_000), Ok(()));
    assert_eq!(election.check_result_at(100_000, 0), (None, false));
    assert_eq!(election.cast_vote_at(endpoint(3), id(3), endpoint(2), 2_000), Ok(()));
    assert_eq!(election.check_result_at(100_000, 0), (Some((endpoint(3), id(3))), false));
}

#[test]
fn result_waits_for_grace_period_and_settled_ballots() {
    let mut election = table(&[10]);
    assert_eq!(election.cast_vote_at(endpoint(1), id(1), endpoint(1), 1_000), Ok(()));
    assert_eq!(election.check_result_at(10_999, 0), (None, false));
    assert_eq!(election.check_result_at(11_000, 0), (Some((endpoint(1), id(1))), false));
    // A late ballot reopens the wait.
    assert_eq!(election.cast_vote_at(endpoint(1), id(1), endpoint(2), 30_000), Ok(()));
    assert_eq!(election.check_result_at(39_999, 0), (None, false));
    assert_eq!(election.check_result_at(40_000, 0), (Some((endpoint(1), id(1))), false));
    // A clock that has gone back decides nothing.
    assert_eq!(election.check_result_at(500, 0), (None, false));
}

#[test]
fn more_ballots_beat_fewer_above_quorum() {
    let mut election = table(&[10, 20, 30]);
    for voter in 1..=2 {
        assert_eq!(election.cast_vote_at(endpoint(1), id(1), endpoint(voter), 2_000), Ok(()));
    }
    for voter in 1..=3 {
        assert_eq!(election.cast_vote_at(endpoint(2), id(2), endpoint(voter), 2_000), Ok(()));
    }
    assert_eq!(election.tally(), Some((1, false)));
    assert_eq!(election.check_result_at(50_000, 0), (Some((endpoint(2), id(2))), false));
    assert_eq!(election.nodes.len(), 3);
}

#[test]
fn tie_at_the_top_resets_the_election() {
    let mut election = table(&[10, 20, 30]);
    assert_eq!(election.check_vote_at(50_000), Some((endpoint(3), id(3))));
    for voter in 1..=2 {
        assert_eq!(election.cast_vote_at(endpoint(1), id(1), endpoint(voter), 2_000), Ok(()));
        assert_eq!(election.cast_vote_at(endpoint(3), id(3), endpoint(voter), 2_000), Ok(()));
    }
    assert_eq!(election.tally(), Some((0, true)));
    // Within the grace period the tie is not looked at yet.
    assert_eq!(election.check_result_at(5_000, 4242), (None, false));
    assert_eq!(election.nodes.len(), 3);
    assert_eq!(election.check_result_at(60_000, 4242), (None, true));
    assert!(election.nodes.is_empty());
    assert!(!election.voted);
    assert_eq!(election.priority, 4242);
    assert_eq!(election.start_time, 60_000);
    assert_eq!(election.check_result_at(120_000, 1), (None, false));
}

#[test]
fn tie_below_the_top_does_not_split() {
    let mut election = table(&[10, 20, 30, 40]);
    // Quorum is three: two peers tie at three ballots, a third has four.
    for voter in 1..=3 {
        assert_eq!(election.cast_vote_at(endpoint(1), id(1), endpoint(voter), 2_000), Ok(()));
        assert_eq!(election.cast_vote_at(endpoint(2), id(2), endpoint(voter), 2_000), Ok(()));
    }
    for voter in 1..=4 {
        assert_eq!(election.cast_vote_at(endpoint(4), id(4), endpoint(voter), 2_000), Ok(()));
    }
    assert_eq!(election.tally(), Some((3, false)));
    assert_eq!(election.check_result_at(50_000, 0), (Some((endpoint(4), id(4))), false));
}

#[test]
fn split_found_by_the_system_resets_with_a_random_priority() {
    let mut election = table(&[10, 20]);
    election.start_time = 0;
    election.last_vote = 0;
    election.delay = 0;
    for voter in 1..=2 {
        election.nodes[0].cast_vote(endpoint(voter));
        election.nodes[1].cast_vote(endpoint(voter));
    }
    assert_eq!(election.check_result(), (None, true));
    assert!(election.nodes.is_empty());
    assert!((0..=65_535).contains(&election.priority));
    assert!(election.start_time > 1_577_836_800_000);
}

#[test]
fn well_formed_tables_have_one_record_per_endpoint() {
    let mut election = table(&[10, 20, 30]);
    assert!(election.is_well_formed());
    assert_eq!(election.cast_vote_at(endpoint(1), id(1), endpoint(2), 2_000), Ok(()));
    assert!(election.is_well_formed());
    let twin = Node::from_appearance(endpoint(2), &appearance(1, false, id(99)), 5);
    election.nodes.push(twin);
    assert!(!election.is_well_formed());
    election.nodes.pop();
    assert!(election.is_well_formed());
    election.nodes[2].votes = vec![endpoint(1), endpoint(2), endpoint(1)];
    assert!(!election.nodes[2].is_well_formed());
    assert!(!election.is_well_formed());
    election.nodes[2].votes = vec![endpoint(1), endpoint(2)];
    assert!(election.nodes[2].is_well_formed());
    assert!(election.is_well_formed());
    assert!(Election::new_at(0, 0).is_well_formed());
}

#[test]
fn reset_keeps_grace_period_and_last_ballot_time() {
    let mut election = table(&[10]);
    assert_eq!(election.cast_vote_at(endpoint(1), id(1), endpoint(1), 7_000), Ok(()));
    election.reset_to(8_000, 3);
    assert!(election.nodes.is_empty());
    assert_eq!(election.start_time, 8_000);
    assert_eq!(election.last_vote, 7_000);
    assert_eq!(election.delay, 10_000);
    assert!(!election.voted);
    assert_eq!(election.priority, 3);
    election.reset();
    assert!(election.nodes.is_empty());
    assert!(election.start_time > 1_577_836_800_000);
}
