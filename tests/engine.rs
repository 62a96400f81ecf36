use reliable_broadcast::aggregation::QuorumStatus;
use std::collections::HashMap;
use reliable_broadcast::engine::{Broadcast, BroadcastError, PeerFailure, ReliableBroadcast, Step};

const A: u64 = 1;
const B: u64 = 2;
const C: u64 = 3;
const D: u64 = 4;

fn engine(peers: Vec<u64>) -> ReliableBroadcast {
    ReliableBroadcast::new(peers, 1000)
}

fn start(peers: Vec<u64>) -> Broadcast {
    engine(peers).broadcast().expect("a broadcast to distinct peers starts")
}

type Outcome = Result<Step<Vec<u64>>, BroadcastError>;

/// Each peer's own position in one backoff sequence.
struct Backoff {
    delays: Vec<u64>,
    used: HashMap<u64, usize>,
}

impl Backoff {
    fn new(delays: Vec<u64>) -> Self {
        Backoff { delays, used: HashMap::new() }
    }

    fn peek(&self, peer: u64) -> Option<u64> {
        self.delays.get(*self.used.get(&peer).unwrap_or(&0)).copied()
    }

    fn advance<A>(&mut self, step: &Result<Step<A>, BroadcastError>) {
        if let Ok(Step::Retry { peer, .. }) = step {
            *self.used.entry(*peer).or_insert(0) += 1;
        }
    }
}

fn standard() -> Backoff {
    Backoff::new(vec![100, 200, 400])
}

fn ack(b: &mut Broadcast, q: &mut QuorumStatus, d: &mut Backoff, peer: u64) -> Outcome {
    let r = b.handle(q, peer, Ok(()), d.peek(peer));
    d.advance(&r);
    r
}

fn fail(b: &mut Broadcast, q: &mut QuorumStatus, d: &mut Backoff, peer: u64, f: PeerFailure) -> Outcome {
    let r = b.handle(q, peer, Err(f), d.peek(peer));
    d.advance(&r);
    r
}

#[test]
fn all_succeed_resolves_on_third_ack() {
    let mut b = start(vec![A, B, C, D]);
    let mut d = standard();
    let mut q = QuorumStatus::new(3);
    assert_eq!(ack(&mut b, &mut q, &mut d, C), Ok(Step::Waiting));
    assert_eq!(ack(&mut b, &mut q, &mut d, A), Ok(Step::Waiting));
    assert_eq!(ack(&mut b, &mut q, &mut d, D), Ok(Step::Resolved(vec![C, A, D])));
    assert!(b.is_resolved());
    // The fourth acknowledgment is never consulted.
    assert_eq!(ack(&mut b, &mut q, &mut d, B), Err(BroadcastError::AlreadyResolved));
    assert_eq!(q.acked(), &vec![C, A, D]);
}

#[test]
fn failing_peer_not_needed_for_quorum() {
    let mut b = start(vec![A, B, C, D]);
    let mut d = standard();
    let mut q = QuorumStatus::new(3);
    assert_eq!(ack(&mut b, &mut q, &mut d, A), Ok(Step::Waiting));
    assert_eq!(ack(&mut b, &mut q, &mut d, C), Ok(Step::Waiting));
    assert_eq!(ack(&mut b, &mut q, &mut d, D), Ok(Step::Resolved(vec![A, C, D])));
    assert_eq!(
        fail(&mut b, &mut q, &mut d, B, PeerFailure::Transport),
        Err(BroadcastError::AlreadyResolved)
    );
}

#[test]
fn failing_peer_is_retried_while_others_resolve() {
    let mut b = start(vec![A, B, C, D]);
    let mut d = standard();
    let mut q = QuorumStatus::new(3);
    assert_eq!(
        fail(&mut b, &mut q, &mut d, B, PeerFailure::Transport),
        Ok(Step::Retry { peer: B, delay_ms: 100 })
    );
    assert_eq!(ack(&mut b, &mut q, &mut d, A), Ok(Step::Waiting));
    assert_eq!(ack(&mut b, &mut q, &mut d, C), Ok(Step::Waiting));
    assert_eq!(ack(&mut b, &mut q, &mut d, D), Ok(Step::Resolved(vec![A, C, D])));
}

#[test]
fn peer_failing_twice_then_others_resolve() {
    let mut b = start(vec![A, B, C, D]);
    let mut d = standard();
    let mut q = QuorumStatus::new(3);
    assert_eq!(
        fail(&mut b, &mut q, &mut d, A, PeerFailure::Transport),
        Ok(Step::Retry { peer: A, delay_ms: 100 })
    );
    assert_eq!(
        fail(&mut b, &mut q, &mut d, A, PeerFailure::Transport),
        Ok(Step::Retry { peer: A, delay_ms: 200 })
    );
    assert_eq!(ack(&mut b, &mut q, &mut d, B), Ok(Step::Waiting));
    assert_eq!(ack(&mut b, &mut q, &mut d, C), Ok(Step::Waiting));
    assert_eq!(ack(&mut b, &mut q, &mut d, D), Ok(Step::Resolved(vec![B, C, D])));
    // A's retry is still in flight when the broadcast resolves: no error.
    assert_eq!(b.in_flight(), &vec![A]);
    assert_eq!(ack(&mut b, &mut q, &mut d, A), Err(BroadcastError::AlreadyResolved));
}

#[test]
fn conversion_failure_then_valid_reply() {
    let mut b = start(vec![A]);
    let mut d = standard();
    let mut q = QuorumStatus::new(1);
    assert_eq!(
        fail(&mut b, &mut q, &mut d, A, PeerFailure::Conversion),
        Ok(Step::Retry { peer: A, delay_ms: 100 })
    );
    assert!(!b.is_resolved());
    assert_eq!(ack(&mut b, &mut q, &mut d, A), Ok(Step::Resolved(vec![A])));
}

#[test]
fn no_peers_is_refused() {
    assert!(matches!(engine(vec![]).broadcast(), Err(BroadcastError::NoPeers)));
}

#[test]
fn duplicate_peer_is_refused() {
    assert!(matches!(engine(vec![A, B, A]).broadcast(), Err(BroadcastError::DuplicatePeer)));
}

#[test]
fn response_from_unknown_peer_is_refused() {
    let mut b = start(vec![A, B]);
    let mut d = standard();
    let mut q = QuorumStatus::new(2);
    assert_eq!(ack(&mut b, &mut q, &mut d, 9), Err(BroadcastError::NotInFlight));
    assert!(q.acked().is_empty());
}

#[test]
fn second_response_of_settled_peer_is_refused() {
    let mut b = start(vec![A, B]);
    let mut d = standard();
    let mut q = QuorumStatus::new(2);
    assert_eq!(ack(&mut b, &mut q, &mut d, A), Ok(Step::Waiting));
    assert_eq!(ack(&mut b, &mut q, &mut d, A), Err(BroadcastError::NotInFlight));
    assert_eq!(q.acked(), &vec![A]);
}

#[test]
fn exhausted_backoff_is_fatal() {
    let mut b = start(vec![A]);
    let mut d = Backoff::new(vec![50]);
    let mut q = QuorumStatus::new(1);
    assert_eq!(
        fail(&mut b, &mut q, &mut d, A, PeerFailure::Transport),
        Ok(Step::Retry { peer: A, delay_ms: 50 })
    );
    assert_eq!(
        fail(&mut b, &mut q, &mut d, A, PeerFailure::Transport),
        Err(BroadcastError::BackoffExhausted)
    );
    assert_eq!(b.in_flight(), &vec![A]);
}

#[test]
fn rejected_ack_is_retried() {
    let mut b = start(vec![A, B]);
    assert_eq!(
        b.on_response::<u8>(B, Err(PeerFailure::Rejected), Some(100)),
        Ok(Step::Retry { peer: B, delay_ms: 100 })
    );
    assert_eq!(b.on_response(B, Ok(Some(7u8)), None), Ok(Step::Resolved(7)));
}

#[test]
fn failure_leaves_aggregation_alone() {
    let mut b = start(vec![A, B]);
    let mut d = standard();
    let mut q = QuorumStatus::new(1);
    assert_eq!(
        fail(&mut b, &mut q, &mut d, A, PeerFailure::Transport),
        Ok(Step::Retry { peer: A, delay_ms: 100 })
    );
    assert!(q.acked().is_empty());
}

#[test]
fn start_sends_to_every_peer_once() {
    let e = engine(vec![A, B, C]);
    let b = e.broadcast().unwrap();
    assert_eq!(b.peers(), &vec![A, B, C]);
    assert_eq!(b.in_flight(), &vec![A, B, C]);
    assert!(!b.is_resolved());
    assert_eq!(e.validators(), &vec![A, B, C]);
    assert_eq!(e.rpc_timeout_ms(), 1000);
}

#[test]
fn retries_keep_one_request_per_peer() {
    let mut b = start(vec![A, B]);
    for _ in 0..3 {
        assert!(matches!(
            b.on_response::<u8>(A, Err(PeerFailure::Transport), Some(5)),
            Ok(Step::Retry { .. })
        ));
        let in_flight = b.in_flight();
        assert_eq!(in_flight.iter().filter(|p| **p == A).count(), 1);
        assert_eq!(in_flight.iter().filter(|p| **p == B).count(), 1);
    }
}

#[test]
fn retry_delays_follow_backoff_in_order() {
    let mut b = start(vec![A, B]);
    let mut q = QuorumStatus::new(2);
    let mut d = Backoff::new(vec![10, 20, 40, 80]);
    let mut delays_a = vec![];
    for _ in 0..4 {
        if let Ok(Step::Retry { peer, delay_ms }) = fail(&mut b, &mut q, &mut d, A, PeerFailure::Transport) {
            assert_eq!(peer, A);
            delays_a.push(delay_ms);
        }
        // A failure of another peer advances only that peer's sequence.
        if delays_a.len() == 2 {
            assert_eq!(
                fail(&mut b, &mut q, &mut d, B, PeerFailure::Transport),
                Ok(Step::Retry { peer: B, delay_ms: 10 })
            );
        }
    }
    assert_eq!(delays_a, vec![10, 20, 40, 80]);
}

#[test]
fn failing_peer_retried_without_bound() {
    let mut b = start(vec![A, B]);
    for n in 0..1000u64 {
        assert_eq!(
            b.on_response::<u8>(A, Err(PeerFailure::Transport), Some(n)),
            Ok(Step::Retry { peer: A, delay_ms: n })
        );
    }
    assert_eq!(b.in_flight(), &vec![A, B]);
}

#[test]
fn failing_peer_stays_in_rotation() {
    let mut b = start(vec![A, B, C]);
    let mut d = standard();
    let mut q = QuorumStatus::new(3);
    assert_eq!(fail(&mut b, &mut q, &mut d, A, PeerFailure::Transport), Ok(Step::Retry { peer: A, delay_ms: 100 }));
    assert_eq!(ack(&mut b, &mut q, &mut d, B), Ok(Step::Waiting));
    assert_eq!(fail(&mut b, &mut q, &mut d, A, PeerFailure::Transport), Ok(Step::Retry { peer: A, delay_ms: 200 }));
    assert_eq!(ack(&mut b, &mut q, &mut d, C), Ok(Step::Waiting));
    assert_eq!(fail(&mut b, &mut q, &mut d, A, PeerFailure::Transport), Ok(Step::Retry { peer: A, delay_ms: 400 }));
    assert_eq!(b.in_flight(), &vec![A]);
}

#[test]
fn broadcasts_of_one_engine_are_independent() {
    let e = engine(vec![A, B]);
    let mut first = e.broadcast().unwrap();
    let mut second = e.broadcast().unwrap();
    let mut q1 = QuorumStatus::new(2);
    let mut d1 = standard();
    let mut q2 = QuorumStatus::new(2);
    let mut d2 = standard();
    assert_eq!(fail(&mut first, &mut q1, &mut d1, A, PeerFailure::Transport), Ok(Step::Retry { peer: A, delay_ms: 100 }));
    assert_eq!(ack(&mut second, &mut q2, &mut d2, B), Ok(Step::Waiting));
    assert_eq!(ack(&mut first, &mut q1, &mut d1, A), Ok(Step::Waiting));
    // The second broadcast's A has used no delay of its own.
    assert_eq!(fail(&mut second, &mut q2, &mut d2, A, PeerFailure::Transport), Ok(Step::Retry { peer: A, delay_ms: 100 }));
    assert_eq!(ack(&mut first, &mut q1, &mut d1, B), Ok(Step::Resolved(vec![A, B])));
    assert!(!second.is_resolved());
    assert_eq!(ack(&mut second, &mut q2, &mut d2, A), Ok(Step::Resolved(vec![B, A])));
}
