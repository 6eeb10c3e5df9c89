//! What the election engine does with a message that arrives.

use vstd::prelude::*;
use crate::address::{Address, HostId};
use crate::election::Election;
use crate::message::{AppearanceMessage, Message};
use crate::model::{settles, UNANNOUNCED_PRIORITY};
use crate::node::{ElectionError, Node, Query};
use crate::system::{current_time, gen_priority};
use crate::table::{lemma_push_keeps_endpoints, lemma_update_keeps_endpoints};

verus! {

impl Election {
    /// Records at `now` that the peer at `addr` has announced itself.
    ///
    /// A new peer enters the table, a known one is brought up to date, and a
    /// known endpoint under another host identity is reported and left as it
    /// is.
    pub fn handle_appearance_at(&mut self, addr: Address, msg: &AppearanceMessage, now: u64) -> (res:
        Result<(), ElectionError>)
        requires
            old(self).wf(),
        ensures
            final(self).wf(),
            settles(old(self)@, old(self)@.on_appearance(addr, *msg, now), final(self)@, res),
    {
        let ghost before = self@.nodes;
        match self.find(&Query::Endpoint(addr)) {
            Some(i) => {
                let res = self.nodes[i].process_appearance(msg, now);
                proof {
                    if res is Ok {
                        let record = before[i as int].refreshed(*msg, now);
                        assert(self@.nodes =~= before.update(i as int, record));
                        lemma_update_keeps_endpoints(before, i as int, record);
                    } else {
                        assert(self@.nodes =~= before);
                    }
                    assert forall|j: int| 0 <= j < self.nodes@.len() implies (
                    #[trigger] self.nodes@[j]).wf() by {
                        assert(old(self).nodes@[j].wf());
                    }
                }
                res
            },
            None => {
                let node = Node::from_appearance(addr, msg, now);
                self.nodes.push(node);
                proof {
                    assert(self@.nodes =~= before.push(node@));
                    lemma_push_keeps_endpoints(before, node@);
                    assert forall|j: int| 0 <= j < self.nodes@.len() implies (
                    #[trigger] self.nodes@[j]).wf() by {
                        if j < old(self).nodes@.len() {
                            assert(old(self).nodes@[j].wf());
                        }
                    }
                }
                Ok(())
            },
        }
    }

    /// Records at `now` a ballot of `voter` for the peer at `addr` with host
    /// identity `hid`. A ballot for a peer that is not in the table is
    /// reported and dropped.
    pub fn cast_vote_at(&mut self, addr: Address, hid: HostId, voter: Address, now: u64) -> (res:
        Result<(), ElectionError>)
        requires
            old(self).wf(),
        ensures
            final(self).wf(),
            settles(old(self)@, old(self)@.on_vote(addr, hid, voter, now), final(self)@, res),
    {
        let ghost before = self@.nodes;
        match self.find(&Query::Candidate(addr, hid)) {
            Some(i) => {
                assert(self.nodes@[i as int].wf());
                self.nodes[i].cast_vote(voter);
                self.last_vote = now;
                proof {
                    let record = before[i as int].with_vote(voter);
                    assert(self@.nodes =~= before.update(i as int, record));
                    lemma_update_keeps_endpoints(before, i as int, record);
                    assert forall|j: int| 0 <= j < self.nodes@.len() implies (
                    #[trigger] self.nodes@[j]).wf() by {
                        assert(old(self).nodes@[j].wf());
                    }
                }
                Ok(())
            },
            None => Err(ElectionError::UnknownCandidate { addr, hid }),
        }
    }

    /// Records at `now` that the peer at `source` has broadcast connection
    /// details for host identity `hid`, which makes that host a known leader.
    ///
    /// A host not yet on record enters the table under `source`; if `source`
    /// is on record under another host identity, that is reported and the
    /// table stays as it is.
    pub fn handle_connection_details_at(&mut self, source: Address, hid: HostId, now: u64) -> (res:
        Result<(), ElectionError>)
        requires
            old(self).wf(),
        ensures
            final(self).wf(),
            settles(
                old(self)@,
                old(self)@.on_connection_details(source, hid, now),
                final(self)@,
                res,
            ),
    {
        let ghost before = self@.nodes;
        match self.find(&Query::Host(hid)) {
            Some(i) => {
                self.nodes[i].is_master = true;
                proof {
                    let record = before[i as int].as_master();
                    assert(self@.nodes =~= before.update(i as int, record));
                    lemma_update_keeps_endpoints(before, i as int, record);
                    assert forall|j: int| 0 <= j < self.nodes@.len() implies (
                    #[trigger] self.nodes@[j]).wf() by {
                        assert(old(self).nodes@[j].wf());
                    }
                }
                Ok(())
            },
            None => {
                match self.find(&Query::Endpoint(source)) {
                    Some(k) => Err(
                        ElectionError::IdentityMismatch {
                            addr: source,
                            known: self.nodes[k].hid,
                            claimed: hid,
                        },
                    ),
                    None => {
                        let announced = AppearanceMessage {
                            priority: UNANNOUNCED_PRIORITY,
                            is_master: true,
                            hid,
                        };
                        let node = Node::from_appearance(source, &announced, now);
                        self.nodes.push(node);
                        proof {
                            assert(self@.nodes =~= before.push(node@));
                            lemma_push_keeps_endpoints(before, node@);
                            assert forall|j: int| 0 <= j < self.nodes@.len() implies (
                            #[trigger] self.nodes@[j]).wf() by {
                                if j < old(self).nodes@.len() {
                                    assert(old(self).nodes@[j].wf());
                                }
                            }
                        }
                        Ok(())
                    },
                }
            },
        }
    }

    /// Takes in at `now` a message that arrived from `source`; `priority` is
    /// the own priority to go on with if the message resets the election.
    ///
    /// An announced election result is for information only and changes
    /// nothing.
    pub fn process_message_at(&mut self, source: Address, msg: &Message, now: u64, priority: i32) -> (res:
        Result<(), ElectionError>)
        requires
            old(self).wf(),
        ensures
            final(self).wf(),
            settles(
                old(self)@,
                old(self)@.on_message(source, *msg, now, priority),
                final(self)@,
                res,
            ),
    {
        match msg {
            Message::Appearance(appearance) => self.handle_appearance_at(source, appearance, now),
            Message::CastVote(vote) => self.cast_vote_at(vote.addr, vote.hid, source, now),
            Message::Reset => {
                self.reset_to(now, priority);
                Ok(())
            },
            Message::ElectionResult(_) => Ok(()),
            Message::ConnectionDetails(details) => self.handle_connection_details_at(
                source,
                details.hid,
                now,
            ),
        }
    }

    /// Records that the peer at `addr` has announced itself, by the system
    /// clock.
    pub fn handle_appearance(&mut self, addr: Address, msg: &AppearanceMessage) -> (res: Result<
        (),
        ElectionError,
    >)
        requires
            old(self).wf(),
        ensures
            final(self).wf(),
            exists|now: u64|
                settles(
                    old(self)@,
                    #[trigger] old(self)@.on_appearance(addr, *msg, now),
                    final(self)@,
                    res,
                ),
    {
        let now: u64 = current_time();
        self.handle_appearance_at(addr, msg, now)
    }

    /// Records a ballot of `voter` for the peer at `addr` with host identity
    /// `hid`, by the system clock.
    pub fn cast_vote(&mut self, addr: Address, hid: HostId, voter: Address) -> (res: Result<
        (),
        ElectionError,
    >)
        requires
            old(self).wf(),
        ensures
            final(self).wf(),
            exists|now: u64|
                settles(
                    old(self)@,
                    #[trigger] old(self)@.on_vote(addr, hid, voter, now),
                    final(self)@,
                    res,
                ),
    {
        let now: u64 = current_time();
        self.cast_vote_at(addr, hid, voter, now)
    }

    /// Takes in a message that arrived from `source`, by the system clock; a
    /// reset goes on with a random own priority.
    pub fn process_message(&mut self, source: Address, msg: &Message) -> (res: Result<
        (),
        ElectionError,
    >)
        requires
            old(self).wf(),
        ensures
            final(self).wf(),
            exists|now: u64, priority: i32|
                0 <= priority <= u16::MAX && settles(
                    old(self)@,
                    #[trigger] old(self)@.on_message(source, *msg, now, priority),
                    final(self)@,
                    res,
                ),
    {
        let now: u64 = current_time();
        let priority: i32 = gen_priority();
        self.process_message_at(source, msg, now, priority)
    }
}

} // verus!
