//! The decisions of the bootstrap coordinator.
//!
//! The coordinator owns the socket and the clock; what it should do with what
//! it has received is decided here, one step at a time. Each step takes what
//! arrived since the last one and says what to send and whether to go on.
//! Times and periods are in milliseconds.

use vstd::prelude::*;
use crate::address::{Address, HostId};
use crate::election::Election;
use crate::message::{AppearanceMessage, CastVote, ConnectionDetails, ElectionResult, Message};
use crate::model::ElectionView;
use crate::node::ElectionError;
use crate::system::{current_time, gen_priority};

verus! {

/// The port that nodes talk on unless another is configured.
pub const DEFAULT_PORT: u16 = 43_000;

/// The pause between two rounds of an election.
pub const ELECTION_TICK_MILLIS: u64 = 1_000;

/// How long a starting node listens for a leader that is already there.
pub const LISTEN_WINDOW_MILLIS: u64 = 5_000;

/// The pause between two looks at the socket while listening.
pub const LISTEN_POLL_MILLIS: u64 = 100;

/// How long a follower waits for the leader's connection details.
pub const DETAILS_TIMEOUT_MILLIS: u64 = 150_000;

/// The pause between two broadcasts of the leader's connection details.
pub const DETAILS_INTERVAL_MILLIS: u64 = 100;

/// What a node is once the leader is known.
#[derive(Clone, Copy, Debug, PartialEq, Eq, Structural)]
pub enum Role {
    /// This node leads: it sets up the control plane and hands out its
    /// connection details.
    Leader,
    /// Another node leads: this node waits for connection details and joins.
    Follower,
}

/// The outcome of one round of an election.
#[derive(Debug)]
pub struct Round {
    /// What to broadcast, in this order.
    pub outbound: Vec<Message>,
    /// The leader, once the election is decided.
    pub elected: Option<(Address, HostId)>,
}

/// Where a node stands that waits for something to arrive.
#[derive(Debug)]
pub enum Wait<T> {
    /// What was waited for has arrived.
    Done(T),
    /// The time allowed has run out.
    TimedOut,
    /// Nothing yet: pause and look again.
    Pending,
}

/// Whether more than `limit` has passed at `now` since `started`.
pub open spec fn expired(started: u64, now: u64, limit: u64) -> bool {
    now - started > limit
}

/// The leader that a message gives away: its sender, if the message is an
/// appearance that claims leadership.
pub open spec fn leader_in(source: Address, msg: Message) -> Option<(Address, HostId)> {
    match msg {
        Message::Appearance(appearance) => if appearance.is_master {
            Some((source, appearance.hid))
        } else {
            None
        },
        _ => None,
    }
}

/// The ballot message for a candidate, if there is one.
pub open spec fn ballot_messages(ballot: Option<(Address, HostId)>) -> Seq<Message> {
    match ballot {
        Some((addr, hid)) => seq![Message::CastVote(CastVote { addr, hid })],
        None => seq![],
    }
}

/// What a node broadcasts in a round of the election that starts in `state`.
///
/// A decided election is announced and nothing else is sent. Otherwise the
/// node announces a reset if the vote was split, casts its ballot if it has
/// one to cast, and in any case announces itself with its current priority.
pub open spec fn round_messages(
    state: ElectionView,
    hid: HostId,
    is_master: bool,
    now: u64,
    priority: i32,
) -> Seq<Message> {
    match state.winner(now) {
        Some((addr, winner)) => seq![
            Message::ElectionResult(ElectionResult { addr, hid: winner }),
        ],
        None => {
            let settled = state.after_result(now, priority);
            let reset = if state.split(now) {
                seq![Message::Reset]
            } else {
                seq![]
            };
            reset + ballot_messages(settled.ballot(now)) + seq![
                Message::Appearance(
                    AppearanceMessage { priority: settled.priority, is_master, hid },
                ),
            ]
        },
    }
}

/// The state of the election after a round that starts in `state`.
pub open spec fn after_round(state: ElectionView, now: u64, priority: i32) -> ElectionView {
    if state.winner(now) is Some {
        state
    } else {
        state.after_result(now, priority).after_ballot(now)
    }
}

/// The state after the messages of `batch` have been taken in at `now`, one
/// after the other; a message that is an anomaly leaves the state as it was.
pub open spec fn after_batch(
    state: ElectionView,
    batch: Seq<(Address, Message)>,
    now: u64,
    priority: i32,
) -> ElectionView
    decreases batch.len(),
{
    if batch.len() == 0 {
        state
    } else {
        let before = after_batch(state, batch.drop_last(), now, priority);
        match before.on_message(batch.last().0, batch.last().1, now, priority) {
            Ok(next) => next,
            Err(_) => before,
        }
    }
}

/// The anomalies met while the messages of `batch` are taken in at `now`,
/// in the order of the messages.
pub open spec fn batch_anomalies(
    state: ElectionView,
    batch: Seq<(Address, Message)>,
    now: u64,
    priority: i32,
) -> Seq<ElectionError>
    decreases batch.len(),
{
    if batch.len() == 0 {
        seq![]
    } else {
        let earlier = batch_anomalies(state, batch.drop_last(), now, priority);
        let before = after_batch(state, batch.drop_last(), now, priority);
        match before.on_message(batch.last().0, batch.last().1, now, priority) {
            Ok(_) => earlier,
            Err(error) => earlier.push(error),
        }
    }
}

/// Takes in at `now` everything that has arrived since the last round, each
/// message with its sender, in the order of arrival. An anomaly drops the
/// message it came with and is handed back; it never stops the round.
pub fn take_in(election: &mut Election, batch: &Vec<(Address, Message)>, now: u64, priority: i32) -> (anomalies:
    Vec<ElectionError>)
    requires
        old(election).wf(),
    ensures
        final(election).wf(),
        final(election)@ == after_batch(old(election)@, batch@, now, priority),
        anomalies@ == batch_anomalies(old(election)@, batch@, now, priority),
{
    let ghost start = election@;
    let mut anomalies: Vec<ElectionError> = Vec::new();
    let mut i: usize = 0;
    while i < batch.len()
        invariant
            election.wf(),
            i <= batch.len(),
            election@ == after_batch(start, batch@.take(i as int), now, priority),
            anomalies@ == batch_anomalies(start, batch@.take(i as int), now, priority),
        decreases batch.len() - i,
    {
        proof {
            assert(batch@.take(i + 1).drop_last() =~= batch@.take(i as int));
            assert(batch@.take(i + 1).last() == batch@[i as int]);
        }
        match election.process_message_at(batch[i].0, &batch[i].1, now, priority) {
            Ok(()) => {},
            Err(error) => {
                anomalies.push(error);
            },
        }
        i += 1;
    }
    proof {
        assert(batch@.take(batch.len() as int) =~= batch@);
    }
    anomalies
}

/// Whether more than `limit` has passed at `now` since `started`. A clock
/// that has gone back counts as no time passed.
pub fn has_expired(started: u64, now: u64, limit: u64) -> (gone: bool)
    ensures
        gone == expired(started, now, limit),
{
    now > started && now - started > limit
}

/// Where a node broadcasts to on `port` unless another target is configured:
/// the broadcast address of the network `10.0.0.0/24`.
pub fn default_broadcast_target(port: u16) -> (target: Address)
    ensures
        target == (Address::V4 { ip: Address::pack_v4(10, 0, 0, 255), port }),
{
    Address::v4(10, 0, 0, 255, port)
}

/// The role of the node with host identity `own` once `leader` leads.
pub fn role_for(own: HostId, leader: HostId) -> (role: Role)
    ensures
        role == Role::Leader <==> own == leader,
        role == Role::Follower <==> own != leader,
{
    if own == leader {
        Role::Leader
    } else {
        Role::Follower
    }
}

/// One step of listening for a leader that is already there.
///
/// The window is checked first: once more than `window` has passed since
/// `started`, the node gives up and holds an election. Within the window, an
/// appearance that claims leadership names the leader.
pub fn listen_step(started: u64, now: u64, window: u64, inbound: Option<(Address, Message)>) -> (step:
    Wait<(Address, HostId)>)
    ensures
        expired(started, now, window) ==> step is TimedOut,
        !expired(started, now, window) ==> match inbound {
            Some((source, msg)) => match leader_in(source, msg) {
                Some(leader) => step == Wait::Done(leader),
                None => step is Pending,
            },
            None => step is Pending,
        },
{
    if has_expired(started, now, window) {
        return Wait::TimedOut;
    }
    match inbound {
        Some((source, Message::Appearance(appearance))) => {
            if appearance.is_master {
                Wait::Done((source, appearance.hid))
            } else {
                Wait::Pending
            }
        },
        _ => Wait::Pending,
    }
}

/// One round of the election at `now`, after what has arrived was taken in.
///
/// Evaluates the result, then the own ballot, and says what to broadcast;
/// `priority` is the own priority to go on with if the vote was split.
pub fn elect_step(election: &mut Election, hid: HostId, is_master: bool, now: u64, priority: i32) -> (round:
    Round)
    requires
        old(election).wf(),
    ensures
        final(election).wf(),
        round.elected == old(election)@.winner(now),
        round.outbound@ == round_messages(old(election)@, hid, is_master, now, priority),
        final(election)@ == after_round(old(election)@, now, priority),
{
    let mut outbound: Vec<Message> = Vec::new();
    let (winner, split) = election.check_result_at(now, priority);
    match winner {
        Some((addr, winner_hid)) => {
            outbound.push(Message::ElectionResult(ElectionResult { addr, hid: winner_hid }));
            assert(outbound@ =~= round_messages(old(election)@, hid, is_master, now, priority));
            Round { outbound, elected: winner }
        },
        None => {
            if split {
                outbound.push(Message::Reset);
            }
            let ballot = election.check_vote_at(now);
            match ballot {
                Some((addr, candidate)) => {
                    outbound.push(Message::CastVote(CastVote { addr, hid: candidate }));
                },
                None => {},
            }
            outbound.push(
                Message::Appearance(
                    AppearanceMessage { priority: election.priority, is_master, hid },
                ),
            );
            assert(outbound@ =~= round_messages(old(election)@, hid, is_master, now, priority));
            Round { outbound, elected: None }
        },
    }
}

/// One round of the election by the system clock; a split vote goes on with
/// a random own priority.
pub fn elect_round(election: &mut Election, hid: HostId, is_master: bool) -> (round: Round)
    requires
        old(election).wf(),
    ensures
        final(election).wf(),
        exists|now: u64, priority: i32|
            {
                &&& 0 <= priority <= u16::MAX
                &&& round.elected == old(election)@.winner(now)
                &&& round.outbound@ == #[trigger] round_messages(
                    old(election)@,
                    hid,
                    is_master,
                    now,
                    priority,
                )
                &&& final(election)@ == after_round(old(election)@, now, priority)
            },
{
    let now: u64 = current_time();
    let priority: i32 = gen_priority();
    elect_step(election, hid, is_master, now, priority)
}

/// One step of a follower that waits for the leader's connection details.
///
/// The time allowed is checked first; within it, connection details from
/// anyone end the wait and come back with their sender.
pub fn await_details_step(started: u64, now: u64, timeout: u64, inbound: Option<(Address, Message)>) -> (step:
    Wait<(Address, ConnectionDetails)>)
    ensures
        expired(started, now, timeout) ==> step is TimedOut,
        !expired(started, now, timeout) ==> match inbound {
            Some((source, Message::ConnectionDetails(details))) => step == Wait::Done(
                (source, details),
            ),
            _ => step is Pending,
        },
{
    if has_expired(started, now, timeout) {
        return Wait::TimedOut;
    }
    match inbound {
        Some((source, Message::ConnectionDetails(details))) => Wait::Done((source, details)),
        _ => Wait::Pending,
    }
}

/// Whether a message ends the wait of a follower that has joined: only a
/// reset lets it take part in an election again.
pub fn ends_wait_for_election(msg: &Message) -> (ends: bool)
    ensures
        ends == (*msg is Reset),
{
    match msg {
        Message::Reset => true,
        _ => false,
    }
}

/// What a leader broadcasts until it is told to stop: its host identity and
/// the token that lets followers join.
pub fn leader_announcement(hid: HostId, token: String) -> (msg: Message)
    ensures
        msg == Message::ConnectionDetails(ConnectionDetails { hid, token }),
{
    Message::ConnectionDetails(ConnectionDetails { hid, token })
}

} // verus!
