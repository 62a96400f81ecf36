use vstd::prelude::*;

use crate::engine::{step, Author, Broadcast, BroadcastError, PeerFailure, Step};

verus! {

/// A value that can travel as a broadcast request or response.
pub trait RBMessage: Clone {}

/// How the acknowledgments of one broadcast combine into its result.
///
/// `add` records the acknowledgment of one peer. It answers `Some(value)` once
/// the acknowledgments recorded so far complete the aggregation, `None` while
/// more are needed, and an error when it refuses the acknowledgment; the
/// engine then retries that peer. Each implementation states in `add_post`
/// which answers and which following states `add` may produce.
pub trait BroadcastStatus: Sized {
    type Ack;
    type Aggregated;

    /// Whether `add(peer, ack)`, called on this state, may answer `r` and
    /// leave the state `after`.
    spec fn add_post(
        &self,
        peer: Author,
        ack: Self::Ack,
        after: Self,
        r: Result<Option<Self::Aggregated>, PeerFailure>,
    ) -> bool;

    fn add(&mut self, peer: Author, ack: Self::Ack) -> (r: Result<Option<Self::Aggregated>, PeerFailure>)
        ensures
            old(self).add_post(peer, ack, *final(self), r),
    ;
}

/// What a quorum aggregation has seen: how many distinct peers it waits for,
/// and the peers that have acknowledged, in order of arrival.
pub struct QuorumModel {
    pub threshold: nat,
    pub acked: Seq<Author>,
}

/// An aggregation that completes once `threshold` distinct peers have
/// acknowledged; its result is the list of those peers.
pub struct QuorumStatus {
    threshold: usize,
    acked: Vec<Author>,
}

impl View for QuorumStatus {
    type V = QuorumModel;

    closed spec fn view(&self) -> QuorumModel {
        QuorumModel { threshold: self.threshold as nat, acked: self.acked@ }
    }
}

/// The peers acknowledged after `peer` acknowledges: a peer counts once.
pub open spec fn with_ack(acked: Seq<Author>, peer: Author) -> Seq<Author> {
    if acked.contains(peer) {
        acked
    } else {
        acked.push(peer)
    }
}

impl QuorumStatus {
    pub fn new(threshold: usize) -> (r: Self)
        ensures
            r@.threshold == threshold,
            r@.acked == Seq::<Author>::empty(),
    {
        QuorumStatus { threshold, acked: Vec::new() }
    }

    /// The peers that have acknowledged so far.
    pub fn acked(&self) -> (r: &Vec<Author>)
        ensures
            r@ == self@.acked,
    {
        &self.acked
    }

    /// Records the acknowledgment of `peer`; a second one from the same peer
    /// changes nothing. Returns the acknowledged peers once there are at
    /// least `threshold` of them.
    pub fn add_ack(&mut self, peer: Author) -> (r: Option<Vec<Author>>)
        ensures
            final(self)@.threshold == old(self)@.threshold,
            final(self)@.acked == with_ack(old(self)@.acked, peer),
            match r {
                Some(v) => final(self)@.acked.len() >= final(self)@.threshold && v@ == final(self)@.acked,
                None => final(self)@.acked.len() < final(self)@.threshold,
            },
    {
        let mut i: usize = 0;
        let mut seen = false;
        while i < self.acked.len()
            invariant
                i <= self.acked@.len(),
                seen <==> exists|k: int| 0 <= k < i && self.acked@[k] == peer,
            decreases self.acked@.len() - i,
        {
            if self.acked[i] == peer {
                seen = true;
            }
            i = i + 1;
        }
        if !seen {
            self.acked.push(peer);
        }
        if self.acked.len() >= self.threshold {
            Some(self.acked.clone())
        } else {
            None
        }
    }
}

impl BroadcastStatus for QuorumStatus {
    type Ack = ();
    type Aggregated = Vec<Author>;

    /// The peer is recorded once; the answer is the list of recorded peers
    /// exactly when there are at least `threshold` of them.
    open spec fn add_post(
        &self,
        peer: Author,
        ack: (),
        after: Self,
        r: Result<Option<Vec<Author>>, PeerFailure>,
    ) -> bool {
        &&& after@ == (QuorumModel { threshold: self@.threshold, acked: with_ack(self@.acked, peer) })
        &&& r matches Ok(answer)
        &&& match answer {
            Some(v) => after@.acked.len() >= after@.threshold && v@ == after@.acked,
            None => after@.acked.len() < after@.threshold,
        }
    }

    fn add(&mut self, peer: Author, ack: ()) -> (r: Result<Option<Vec<Author>>, PeerFailure>) {
        Ok(self.add_ack(peer))
    }
}

impl Broadcast {
    /// Handles one arrival: a response of `peer` that became an
    /// acknowledgment, or the failure that stood in its way. `next_delay` is
    /// the delay that the peer's own backoff sequence would yield next. An
    /// acknowledgment of a peer that has an outstanding request goes to the
    /// aggregation, and the engine then moves on the aggregation's answer; a
    /// failure goes to the engine as it is and leaves the aggregation alone.
    /// An arrival the engine refuses never reaches the aggregation.
    pub fn handle<S: BroadcastStatus>(
        &mut self,
        status: &mut S,
        peer: Author,
        response: Result<S::Ack, PeerFailure>,
        next_delay: Option<u64>,
    ) -> (r: Result<Step<S::Aggregated>, BroadcastError>)
        requires
            old(self)@.wf(),
        ensures
            final(self)@.wf(),
            old(self)@.resolved ==> {
                &&& final(self)@ == old(self)@
                &&& r == Err::<Step<S::Aggregated>, BroadcastError>(BroadcastError::AlreadyResolved)
                &&& *final(status) == *old(status)
            },
            !old(self)@.resolved && !old(self)@.in_flight.contains(peer) ==> {
                &&& final(self)@ == old(self)@
                &&& r == Err::<Step<S::Aggregated>, BroadcastError>(BroadcastError::NotInFlight)
                &&& *final(status) == *old(status)
            },
            response matches Err(f) ==> {
                &&& (final(self)@, r) == step::<S::Aggregated>(old(self)@, peer, Err(f), next_delay)
                &&& *final(status) == *old(status)
            },
            !old(self)@.resolved && old(self)@.in_flight.contains(peer) ==> (response matches Ok(ack)
                ==> exists|o: Result<Option<S::Aggregated>, PeerFailure>|
                {
                    &&& old(status).add_post(peer, ack, *final(status), o)
                    &&& (final(self)@, r) == #[trigger] step(old(self)@, peer, o, next_delay)
                }),
    {
        if self.is_resolved() || !crate::engine::contains_peer(self.in_flight(), peer) {
            return self.on_response(peer, Err(PeerFailure::Transport), next_delay);
        }
        match response {
            Ok(ack) => {
                let outcome = status.add(peer, ack);
                self.on_response(peer, outcome, next_delay)
            },
            Err(f) => self.on_response(peer, Err(f), next_delay),
        }
    }
}

} // verus!
