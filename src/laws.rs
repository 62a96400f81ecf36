use vstd::prelude::*;

use crate::engine::{
    index_in, lemma_remove_keeps_wf, start_model, start_result, step, Author, BroadcastError,
    BroadcastModel, ConfigModel, PeerFailure, Response, Step,
};

verus! {

/// One response applied to a broadcast and to the value it has resolved to
/// so far, if any.
pub open spec fn advance<A>(r: (BroadcastModel, Option<A>), e: Response<A>) -> (BroadcastModel, Option<A>) {
    let (m1, out) = step(r.0, e.0, e.1, e.2);
    (
        m1,
        match r.1 {
            Some(v) => Some(v),
            None => match out {
                Ok(Step::Resolved(v)) => Some(v),
                _ => None,
            },
        },
    )
}

/// A broadcast after a sequence of responses, in arrival order, with the
/// value it resolved to, if any. Responses the engine refuses leave it as it was.
pub open spec fn run<A>(m: BroadcastModel, evs: Seq<Response<A>>) -> (BroadcastModel, Option<A>)
    decreases evs.len(),
{
    if evs.len() == 0 {
        (m, None)
    } else {
        advance(run(m, evs.drop_last()), evs.last())
    }
}

/// The responses of a tagged sequence that carry the tag `which`, in order.
pub open spec fn tagged<A>(evs: Seq<(bool, Response<A>)>, which: bool) -> Seq<Response<A>>
    decreases evs.len(),
{
    if evs.len() == 0 {
        Seq::empty()
    } else {
        let prev = tagged(evs.drop_last(), which);
        if evs.last().0 == which {
            prev.push(evs.last().1)
        } else {
            prev
        }
    }
}

/// Two broadcasts driven side by side: each response goes to the first
/// broadcast when its tag is `false`, to the second when it is `true`.
pub open spec fn run_both<A>(m1: BroadcastModel, m2: BroadcastModel, evs: Seq<(bool, Response<A>)>) -> (
    (BroadcastModel, Option<A>),
    (BroadcastModel, Option<A>),
)
    decreases evs.len(),
{
    if evs.len() == 0 {
        ((m1, None), (m2, None))
    } else {
        let (r1, r2) = run_both(m1, m2, evs.drop_last());
        if evs.last().0 {
            (r1, advance(r2, evs.last().1))
        } else {
            (advance(r1, evs.last().1), r2)
        }
    }
}

proof fn lemma_start_wf(c: ConfigModel)
    requires
        start_result(c) is Ok,
    ensures
        start_model(c).wf(),
{
    let m = start_model(c);
    assert forall|j: int| 0 <= j < m.in_flight.len() implies m.peers.contains(#[trigger] m.in_flight[j]) by {
        assert(m.peers[j] == m.in_flight[j]);
    }
}

proof fn lemma_remove_other(s: Seq<Author>, j: int, p: Author)
    requires
        0 <= j < s.len(),
        s.contains(p),
        s[j] != p,
    ensures
        s.remove(j).contains(p),
{
    s.remove_ensures(j);
    let a = choose|a: int| 0 <= a < s.len() && s[a] == p;
    if a < j {
        assert(s.remove(j)[a] == p);
    } else {
        assert(s.remove(j)[a - 1] == p);
    }
}

/// Each step keeps the bookkeeping well formed, and never changes the peers.
pub proof fn lemma_step_wf<A>(
    m: BroadcastModel,
    peer: Author,
    outcome: Result<Option<A>, PeerFailure>,
    next_delay: Option<u64>,
)
    requires
        m.wf(),
    ensures
        step(m, peer, outcome, next_delay).0.wf(),
        step(m, peer, outcome, next_delay).0.peers == m.peers,
{
    if !m.resolved && m.in_flight.contains(peer) {
        let j = index_in(m.in_flight, peer);
        lemma_remove_keeps_wf(m, j);
    }
}

proof fn lemma_run_wf<A>(m: BroadcastModel, evs: Seq<Response<A>>)
    requires
        m.wf(),
    ensures
        run(m, evs).0.wf(),
        run(m, evs).0.peers == m.peers,
    decreases evs.len(),
{
    if evs.len() > 0 {
        let e = evs.last();
        lemma_run_wf(m, evs.drop_last());
        lemma_step_wf(run(m, evs.drop_last()).0, e.0, e.1, e.2);
    }
}

/// However the responses arrive, no peer of a broadcast ever has more than
/// one outstanding request.
pub proof fn lemma_at_most_one_in_flight<A>(c: ConfigModel, evs: Seq<Response<A>>, p: Author)
    requires
        start_result(c) is Ok,
    ensures
        run(start_model(c), evs).0.outstanding(p) <= 1,
{
    lemma_start_wf(c);
    lemma_run_wf(start_model(c), evs);
    let s = run(start_model(c), evs).0.in_flight;
    s.lemma_multiset_has_no_duplicates();
}

/// A failed attempt to a peer with an outstanding request, while the
/// broadcast is unresolved, is answered with a retry after the next delay of
/// that peer's own backoff sequence; the peer keeps its place in flight and
/// nothing else changes. Only a sequence with no delay left stops it.
pub proof fn lemma_failure_retries<A>(m: BroadcastModel, p: Author, f: PeerFailure, next_delay: Option<u64>)
    requires
        m.wf(),
        !m.resolved,
        m.in_flight.contains(p),
    ensures
        step::<A>(m, p, Err(f), next_delay).0 == m,
        step::<A>(m, p, Err(f), next_delay).1 == match next_delay {
            Some(d) => Ok::<Step<A>, BroadcastError>(Step::Retry { peer: p, delay_ms: d }),
            None => Err(BroadcastError::BackoffExhausted),
        },
{
}

proof fn lemma_resolution_sound<A>(m: BroadcastModel, evs: Seq<Response<A>>)
    ensures
        run(m, evs).1 matches Some(v) ==> exists|i: int| 0 <= i < evs.len() && evs[i].1 == Ok::<Option<A>, PeerFailure>(Some(v)),
        (forall|i: int| 0 <= i < evs.len() ==> !(#[trigger] evs[i].1 matches Ok(Some(_)))) ==> {
            &&& run(m, evs).1 is None
            &&& run(m, evs).0.resolved == m.resolved
        },
    decreases evs.len(),
{
    if evs.len() > 0 {
        let prev = evs.drop_last();
        lemma_resolution_sound(m, prev);
        if run(m, evs).1 is Some {
            let v = run(m, evs).1->0;
            if run(m, prev).1 is Some {
                let i = choose|i: int| 0 <= i < prev.len() && prev[i].1 == Ok::<Option<A>, PeerFailure>(Some(v));
                assert(evs[i] == prev[i]);
            } else {
                assert(evs[evs.len() - 1].1 == Ok::<Option<A>, PeerFailure>(Some(v)));
            }
        }
        if forall|i: int| 0 <= i < evs.len() ==> !(#[trigger] evs[i].1 matches Ok(Some(_))) {
            assert forall|i: int| 0 <= i < prev.len() implies !(#[trigger] prev[i].1 matches Ok(Some(_))) by {
                assert(prev[i] == evs[i]);
            }
            assert(!(evs[evs.len() - 1].1 matches Ok(Some(_))));
        }
    }
}

/// A broadcast resolves to `v` only when the aggregation answered some
/// acknowledgment with `Some(v)`; without such an answer it never resolves.
pub proof fn lemma_termination_correct<A>(c: ConfigModel, evs: Seq<Response<A>>)
    requires
        start_result(c) is Ok,
    ensures
        run(start_model(c), evs).1 matches Some(v) ==> exists|i: int| 0 <= i < evs.len() && evs[i].1 == Ok::<Option<A>, PeerFailure>(Some(v)),
        (forall|i: int| 0 <= i < evs.len() ==> !(#[trigger] evs[i].1 matches Ok(Some(_)))) ==> {
            &&& run(start_model(c), evs).1 is None
            &&& !run(start_model(c), evs).0.resolved
        },
{
    lemma_resolution_sound(start_model(c), evs);
}

proof fn lemma_stays_in_flight<A>(m: BroadcastModel, evs: Seq<Response<A>>, p: Author)
    requires
        m.wf(),
        m.in_flight.contains(p),
        forall|i: int| 0 <= i < evs.len() && (#[trigger] evs[i]).0 == p ==> evs[i].1 is Err,
    ensures
        run(m, evs).0.in_flight.contains(p),
    decreases evs.len(),
{
    if evs.len() > 0 {
        let prev = evs.drop_last();
        assert forall|i: int| 0 <= i < prev.len() && (#[trigger] prev[i]).0 == p implies prev[i].1 is Err by {
            assert(prev[i] == evs[i]);
        }
        lemma_stays_in_flight(m, prev, p);
        lemma_run_wf(m, prev);
        let mp = run(m, prev).0;
        let peer = evs.last().0;
        if !mp.resolved && mp.in_flight.contains(peer) && peer != p {
            let j = index_in(mp.in_flight, peer);
            assert(0 <= j < mp.in_flight.len() && mp.in_flight[j] == peer);
            lemma_remove_other(mp.in_flight, j, p);
        }
        if peer == p {
            assert(evs[evs.len() - 1].0 == p);
        }
    }
}

/// A peer that never succeeds is never dropped from the broadcast: as long
/// as no response of `p` succeeds, `p` keeps an outstanding request, and
/// every failure of `p` that arrives before the broadcast resolves brings a
/// retry after `p`'s next delay, however many came before it.
pub proof fn lemma_no_starvation<A>(c: ConfigModel, evs: Seq<Response<A>>, p: Author)
    requires
        start_result(c) is Ok,
        c.validators.contains(p),
        forall|i: int| 0 <= i < evs.len() && (#[trigger] evs[i]).0 == p ==> evs[i].1 is Err,
    ensures
        run(start_model(c), evs).0.in_flight.contains(p),
        forall|i: int|
            0 <= i < evs.len() && (#[trigger] evs[i]).0 == p && !run(start_model(c), evs.take(i)).0.resolved
                ==> (evs[i].2 matches Some(d) ==> step(run(start_model(c), evs.take(i)).0, p, evs[i].1, evs[i].2).1
                == Ok::<Step<A>, BroadcastError>(Step::Retry { peer: p, delay_ms: d })),
{
    lemma_start_wf(c);
    lemma_stays_in_flight(start_model(c), evs, p);
    assert forall|i: int|
        0 <= i < evs.len() && (#[trigger] evs[i]).0 == p && !run(start_model(c), evs.take(i)).0.resolved implies (
    evs[i].2 matches Some(d) ==> step(run(start_model(c), evs.take(i)).0, p, evs[i].1, evs[i].2).1 == Ok::<
        Step<A>,
        BroadcastError,
    >(Step::Retry { peer: p, delay_ms: d })) by {
        let pre = evs.take(i);
        assert forall|k: int| 0 <= k < pre.len() && (#[trigger] pre[k]).0 == p implies pre[k].1 is Err by {
            assert(pre[k] == evs[k]);
        }
        lemma_stays_in_flight(start_model(c), pre, p);
    }
}

proof fn lemma_run_both<A>(m1: BroadcastModel, m2: BroadcastModel, evs: Seq<(bool, Response<A>)>)
    ensures
        run_both(m1, m2, evs) == (run(m1, tagged(evs, false)), run(m2, tagged(evs, true))),
    decreases evs.len(),
{
    if evs.len() > 0 {
        let prev = evs.drop_last();
        lemma_run_both(m1, m2, prev);
        let t = if evs.last().0 { true } else { false };
        let s = tagged(prev, t);
        assert(s.push(evs.last().1).drop_last() =~= s);
    }
}

/// Two broadcasts started from the same settings do not interfere: driven
/// side by side in any interleaving, each ends exactly as it would have
/// ended alone on its own responses.
pub proof fn lemma_independent_broadcasts<A>(c: ConfigModel, evs: Seq<(bool, Response<A>)>)
    requires
        start_result(c) is Ok,
    ensures
        run_both(start_model(c), start_model(c), evs) == (
            run(start_model(c), tagged(evs, false)),
            run(start_model(c), tagged(evs, true)),
        ),
{
    lemma_run_both(start_model(c), start_model(c), evs);
}

} // verus!
