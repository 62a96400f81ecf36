use vstd::prelude::*;

verus! {

/// Identifies one participant of a broadcast.
pub type Author = u64;

/// Why one attempt to reach a peer produced no acknowledgment.
#[derive(Debug, Clone, Copy, PartialEq, Eq, Structural)]
pub enum PeerFailure {
    /// The transport failed or the attempt timed out.
    Transport,
    /// The peer replied with something that is not an acknowledgment.
    Conversion,
    /// The aggregation refused the acknowledgment.
    Rejected,
}

/// Why the engine refused a request.
#[derive(Debug, Clone, Copy, PartialEq, Eq, Structural)]
pub enum BroadcastError {
    /// A broadcast to nobody could never resolve.
    NoPeers,
    /// The same peer was configured twice.
    DuplicatePeer,
    /// A response came from a peer that has no outstanding request.
    NotInFlight,
    /// The broadcast has already produced its aggregated value.
    AlreadyResolved,
    /// A failed peer's backoff sequence has no delay left: the broadcast
    /// cannot go on.
    BackoffExhausted,
}

/// What the driver of a broadcast must do after handing one response to the engine.
#[derive(Debug, Clone, PartialEq, Eq)]
pub enum Step<A> {
    /// The aggregation is complete: the broadcast returns this value and
    /// abandons every request still in flight.
    Resolved(A),
    /// The acknowledgment was recorded; keep waiting for other responses.
    Waiting,
    /// Send the message to `peer` again once `delay_ms` milliseconds have passed.
    Retry { peer: Author, delay_ms: u64 },
}

/// The settings that every broadcast of an engine shares.
pub struct ConfigModel {
    pub validators: Seq<Author>,
    pub rpc_timeout_ms: u64,
}

/// The bookkeeping of one broadcast call: its peers, and the peers that
/// have an outstanding request.
pub struct BroadcastModel {
    pub peers: Seq<Author>,
    pub in_flight: Seq<Author>,
    pub resolved: bool,
}

impl BroadcastModel {
    pub open spec fn wf(self) -> bool {
        &&& self.peers.no_duplicates()
        &&& self.in_flight.no_duplicates()
        &&& forall|j: int| 0 <= j < self.in_flight.len() ==> self.peers.contains(#[trigger] self.in_flight[j])
    }

    /// The number of outstanding requests addressed to `p`.
    pub open spec fn outstanding(self, p: Author) -> nat {
        self.in_flight.to_multiset().count(p)
    }
}

/// The position of `p` in `s`, when it occurs there.
pub open spec fn index_in(s: Seq<Author>, p: Author) -> int {
    choose|i: int| 0 <= i < s.len() && s[i] == p
}

/// The state in which a broadcast starts: every peer is sent the message at
/// once, with no delay.
pub open spec fn start_model(c: ConfigModel) -> BroadcastModel {
    BroadcastModel {
        peers: c.validators,
        in_flight: c.validators,
        resolved: false,
    }
}

/// Whether a broadcast can start from these settings.
pub open spec fn start_result(c: ConfigModel) -> Result<BroadcastModel, BroadcastError> {
    if c.validators.len() == 0 {
        Err(BroadcastError::NoPeers)
    } else if !c.validators.no_duplicates() {
        Err(BroadcastError::DuplicatePeer)
    } else {
        Ok(start_model(c))
    }
}

/// One response handed to the engine: the peer it came from; either the
/// aggregation's answer to its acknowledgment or the failure that stood in
/// its way; and the next delay of that peer's backoff sequence, if it has one.
pub type Response<A> = (Author, Result<Option<A>, PeerFailure>, Option<u64>);

/// How a broadcast moves on one response of `peer`, whose backoff sequence
/// would next yield `next_delay`.
pub open spec fn step<A>(
    m: BroadcastModel,
    peer: Author,
    outcome: Result<Option<A>, PeerFailure>,
    next_delay: Option<u64>,
) -> (
    BroadcastModel,
    Result<Step<A>, BroadcastError>,
) {
    if m.resolved {
        (m, Err(BroadcastError::AlreadyResolved))
    } else if !m.in_flight.contains(peer) {
        (m, Err(BroadcastError::NotInFlight))
    } else {
        let settled = BroadcastModel {
            peers: m.peers,
            in_flight: m.in_flight.remove(index_in(m.in_flight, peer)),
            resolved: false,
        };
        match outcome {
            Ok(Some(v)) => (
                BroadcastModel { resolved: true, ..settled },
                Ok(Step::Resolved(v)),
            ),
            Ok(None) => (settled, Ok(Step::Waiting)),
            Err(_) => match next_delay {
                Some(d) => (m, Ok(Step::Retry { peer, delay_ms: d })),
                None => (m, Err(BroadcastError::BackoffExhausted)),
            },
        }
    }
}

proof fn lemma_index_in(s: Seq<Author>, j: int)
    requires
        s.no_duplicates(),
        0 <= j < s.len(),
    ensures
        index_in(s, s[j]) == j,
{
    let i = index_in(s, s[j]);
    assert(0 <= i < s.len() && s[i] == s[j]);
}

fn position(s: &Vec<Author>, p: Author) -> (r: Option<usize>)
    ensures
        match r {
            Some(j) => j < s@.len() && s@[j as int] == p,
            None => !s@.contains(p),
        },
{
    let mut j: usize = 0;
    while j < s.len()
        invariant
            j <= s@.len(),
            forall|k: int| 0 <= k < j ==> s@[k] != p,
        decreases s@.len() - j,
    {
        if s[j] == p {
            return Some(j);
        }
        j = j + 1;
    }
    None
}

/// Whether `p` occurs in `s`.
pub(crate) fn contains_peer(s: &Vec<Author>, p: Author) -> (r: bool)
    ensures
        r == s@.contains(p),
{
    match position(s, p) {
        Some(_) => true,
        None => false,
    }
}

/// Settings for broadcasting to a fixed set of peers: who they are, and the
/// timeout of each attempt.
pub struct ReliableBroadcast {
    validators: Vec<Author>,
    rpc_timeout_ms: u64,
}

impl View for ReliableBroadcast {
    type V = ConfigModel;

    closed spec fn view(&self) -> ConfigModel {
        ConfigModel {
            validators: self.validators@,
            rpc_timeout_ms: self.rpc_timeout_ms,
        }
    }
}

/// The state of one broadcast call.
pub struct Broadcast {
    peers: Vec<Author>,
    in_flight: Vec<Author>,
    resolved: bool,
}

impl View for Broadcast {
    type V = BroadcastModel;

    closed spec fn view(&self) -> BroadcastModel {
        BroadcastModel {
            peers: self.peers@,
            in_flight: self.in_flight@,
            resolved: self.resolved,
        }
    }
}

impl ReliableBroadcast {
    /// Settings for broadcasting to `validators`, where every attempt may
    /// last `rpc_timeout_ms` milliseconds.
    pub fn new(validators: Vec<Author>, rpc_timeout_ms: u64) -> (r: Self)
        ensures
            r@ == (ConfigModel { validators: validators@, rpc_timeout_ms }),
    {
        ReliableBroadcast { validators, rpc_timeout_ms }
    }

    pub fn validators(&self) -> (r: &Vec<Author>)
        ensures
            r@ == self@.validators,
    {
        &self.validators
    }

    pub fn rpc_timeout_ms(&self) -> (r: u64)
        ensures
            r == self@.rpc_timeout_ms,
    {
        self.rpc_timeout_ms
    }

    /// Starts one broadcast: the message goes at once to every validator, each
    /// of which then has one request in flight. Refused when there is no
    /// validator, or when one is listed twice.
    pub fn broadcast(&self) -> (r: Result<Broadcast, BroadcastError>)
        ensures
            match r {
                Ok(b) => start_result(self@) == Ok::<BroadcastModel, BroadcastError>(b@) && b@.wf(),
                Err(e) => start_result(self@) == Err::<BroadcastModel, BroadcastError>(e),
            },
    {
        let n = self.validators.len();
        if n == 0 {
            return Err(BroadcastError::NoPeers);
        }
        let mut i: usize = 0;
        while i < n
            invariant
                n == self.validators@.len(),
                i <= n,
                forall|a: int, b: int| 0 <= a < i && 0 <= b < n && a != b ==> self.validators@[a] != self.validators@[b],
            decreases n - i,
        {
            let mut j: usize = 0;
            while j < n
                invariant
                    n == self.validators@.len(),
                    i < n,
                    j <= n,
                    forall|a: int, b: int| 0 <= a < i && 0 <= b < n && a != b ==> self.validators@[a] != self.validators@[b],
                    forall|b: int| 0 <= b < j && b != i ==> self.validators@[i as int] != self.validators@[b],
                decreases n - j,
            {
                if j != i && self.validators[i] == self.validators[j] {
                    return Err(BroadcastError::DuplicatePeer);
                }
                j = j + 1;
            }
            i = i + 1;
        }
        let b = Broadcast {
            peers: self.validators.clone(),
            in_flight: self.validators.clone(),
            resolved: false,
        };
        Ok(b)
    }
}

impl Broadcast {
    /// The peers of this broadcast.
    pub fn peers(&self) -> (r: &Vec<Author>)
        ensures
            r@ == self@.peers,
    {
        &self.peers
    }

    /// The peers that have an outstanding request.
    pub fn in_flight(&self) -> (r: &Vec<Author>)
        ensures
            r@ == self@.in_flight,
    {
        &self.in_flight
    }

    /// Whether the broadcast has produced its aggregated value.
    pub fn is_resolved(&self) -> (r: bool)
        ensures
            r == self@.resolved,
    {
        self.resolved
    }

    /// Hands the engine the response of `peer` to its outstanding request:
    /// `Ok(Some(v))` when the aggregation completed with `v` on its
    /// acknowledgment, `Ok(None)` when it needs more, `Err` when the attempt
    /// failed. `next_delay` is the delay that the peer's own backoff sequence
    /// would yield next. A success settles the peer; a failure keeps the peer
    /// in flight and asks for a retry after `next_delay`.
    pub fn on_response<A>(
        &mut self,
        peer: Author,
        outcome: Result<Option<A>, PeerFailure>,
        next_delay: Option<u64>,
    ) -> (r: Result<Step<A>, BroadcastError>)
        requires
            old(self)@.wf(),
        ensures
            final(self)@.wf(),
            (final(self)@, r) == step(old(self)@, peer, outcome, next_delay),
    {
        if self.resolved {
            return Err(BroadcastError::AlreadyResolved);
        }
        let j = match position(&self.in_flight, peer) {
            Some(j) => j,
            None => {
                return Err(BroadcastError::NotInFlight);
            },
        };
        proof {
            lemma_index_in(self.in_flight@, j as int);
        }
        let ghost m = self@;
        match outcome {
            Ok(Some(v)) => {
                self.in_flight.remove(j);
                self.resolved = true;
                proof {
                    lemma_remove_keeps_wf(m, j as int);
                }
                Ok(Step::Resolved(v))
            },
            Ok(None) => {
                self.in_flight.remove(j);
                proof {
                    lemma_remove_keeps_wf(m, j as int);
                }
                Ok(Step::Waiting)
            },
            Err(_) => match next_delay {
                Some(delay_ms) => Ok(Step::Retry { peer, delay_ms }),
                None => Err(BroadcastError::BackoffExhausted),
            },
        }
    }
}

pub(crate) proof fn lemma_remove_keeps_wf(m: BroadcastModel, j: int)
    requires
        m.wf(),
        0 <= j < m.in_flight.len(),
    ensures
        ({
            let r = m.in_flight.remove(j);
            &&& r.no_duplicates()
            &&& forall|a: int| 0 <= a < r.len() ==> m.peers.contains(#[trigger] r[a])
        }),
{
    let s = m.in_flight;
    let r = s.remove(j);
    s.remove_ensures(j);
    assert forall|a: int| 0 <= a < r.len() implies m.peers.contains(#[trigger] r[a]) by {
        if a < j {
            assert(r[a] == s[a]);
        } else {
            assert(r[a] == s[a + 1]);
        }
    }
    assert forall|a: int, b: int| 0 <= a < r.len() && 0 <= b < r.len() && a != b implies r[a] != r[b] by {
        let a1 = if a < j { a } else { a + 1 };
        let b1 = if b < j { b } else { b + 1 };
        assert(r[a] == s[a1]);
        assert(r[b] == s[b1]);
    }
}

} // verus!
