//! The power-of-two-choices balancer.
//!
//! The balancer drains a discovery stream into an [`EndpointTable`], then
//! prepares one endpoint per request: `poll_ready` selects and stashes a
//! ready position, `call` dispatches to it and clears the stash.

use crate::discover::{Change, Discover};
use crate::poll::Poll;
use crate::sample::{rng_from_entropy, rng_from_seed, sample_two};
use crate::service::{Load, Service};
use crate::table::{distinct_keys, lemma_update_entry_distinct, repair_index, EndpointTable};
use rand::rngs::SmallRng;
use vstd::pervasive::unreached;
use vstd::prelude::*;

verus! {

/// The discovery stream failed; its error is carried unchanged.
#[derive(Debug)]
pub struct ErrBalance<E>(pub E);

/// An in-flight response handle, wrapping the chosen endpoint's own handle.
#[derive(Debug)]
pub struct ResponseFuture<F> {
    inner: F,
}

impl<F> ResponseFuture<F> {
    pub closed spec fn spec_inner(&self) -> F {
        self.inner
    }

    pub fn new(inner: F) -> (r: Self)
        ensures
            r.spec_inner() == inner,
    {
        ResponseFuture { inner }
    }

    pub fn into_inner(self) -> (r: F)
        ensures
            r == self.spec_inner(),
    {
        self.inner
    }
}

/// The two-sample decision of one selection round: with both loads in hand
/// take the lesser (ties to the first sample), with one in hand take that
/// one, with none give up on the round.
pub open spec fn p2c_decision_spec(
    a_idx: usize,
    a_load: Option<u64>,
    b_idx: usize,
    b_load: Option<u64>,
) -> Option<usize> {
    match (a_load, b_load) {
        (Some(la), Some(lb)) => if la <= lb {
            Some(a_idx)
        } else {
            Some(b_idx)
        },
        (Some(_), None) => Some(a_idx),
        (None, Some(_)) => Some(b_idx),
        (None, None) => None,
    }
}

/// Decides one selection round, following [`p2c_decision_spec`] exactly.
pub fn p2c_decision(a_idx: usize, a_load: Option<u64>, b_idx: usize, b_load: Option<u64>) -> (r:
    Option<usize>)
    ensures
        r == p2c_decision_spec(a_idx, a_load, b_idx, b_load),
{
    match (a_load, b_load) {
        (Some(la), Some(lb)) => if la <= lb {
            Some(a_idx)
        } else {
            Some(b_idx)
        },
        (Some(_), None) => Some(a_idx),
        (None, Some(_)) => Some(b_idx),
        (None, None) => None,
    }
}

/// The abstract effect one balancer operation has on whether a ready
/// choice is held, for the at-most-once-dispatch argument.
pub enum BalanceOp {
    /// A readiness poll that answered `Ready`.
    ReadyPoll,
    /// A readiness poll that answered `NotReady`.
    OtherPoll,
    /// A readiness poll that failed on the discovery side.
    FailPoll,
    /// A dispatch.
    Dispatch,
}

/// What one operation may do to the held choice: only a `Ready` answer
/// installs one, any other answer leaves none or keeps what was there, and
/// a dispatch demands one and consumes it.
pub open spec fn held_step(pre: bool, op: BalanceOp, post: bool) -> bool {
    match op {
        BalanceOp::ReadyPoll => post,
        BalanceOp::OtherPoll => !post,
        BalanceOp::FailPoll => post ==> pre,
        BalanceOp::Dispatch => pre && !post,
    }
}

/// The abstract operation of one `poll_ready`, read off its result.
pub open spec fn balance_action<T, E>(r: Poll<T, E>) -> BalanceOp {
    match r {
        Poll::Ready(_t) => BalanceOp::ReadyPoll,
        Poll::NotReady => BalanceOp::OtherPoll,
        Poll::Fail(_e) => BalanceOp::FailPoll,
    }
}

/// A trace of balancer operations with whether a choice is held after each
/// one: every step obeys [`held_step`], starting from `h0`.
pub open spec fn held_trace_ok(h0: bool, steps: Seq<(BalanceOp, bool)>) -> bool {
    forall|k: int|
        0 <= k < steps.len() ==> held_step(
            if k == 0 {
                h0
            } else {
                steps[k - 1].1
            },
            (#[trigger] steps[k]).0,
            steps[k].1,
        )
}

proof fn lemma_held_stays_clear(h0: bool, steps: Seq<(BalanceOp, bool)>, i: int, m: int)
    requires
        held_trace_ok(h0, steps),
        0 <= i <= m < steps.len(),
        !steps[i].1,
        forall|k: int| i < k <= m ==> !((#[trigger] steps[k]).0 is ReadyPoll),
    ensures
        !steps[m].1,
    decreases m - i,
{
    if m > i {
        lemma_held_stays_clear(h0, steps, i, m - 1);
        assert(held_step(steps[m - 1].1, steps[m].0, steps[m].1));
        assert(!(steps[m].0 is ReadyPoll));
    }
}

/// At-most-once dispatch: in any valid trace of balancer operations, two
/// dispatches have a poll that answered `Ready` strictly between them — a
/// dispatch consumes the held choice, no other answer than `Ready` puts
/// one back, and the second dispatch demands one. Each step's obligation
/// is a verified contract clause: `poll_ready` ensures [`held_step`] with
/// the action its result names, and `call` ensures the `Dispatch` step.
pub proof fn lemma_dispatch_needs_fresh_ready(
    h0: bool,
    steps: Seq<(BalanceOp, bool)>,
    i: int,
    j: int,
)
    requires
        held_trace_ok(h0, steps),
        0 <= i < j < steps.len(),
        steps[i].0 is Dispatch,
        steps[j].0 is Dispatch,
    ensures
        exists|k: int| i < k < j && (#[trigger] steps[k]).0 is ReadyPoll,
{
    if !(exists|k: int| i < k < j && (#[trigger] steps[k]).0 is ReadyPoll) {
        assert(held_step(
            if i == 0 {
                h0
            } else {
                steps[i - 1].1
            },
            steps[i].0,
            steps[i].1,
        ));
        assert(!steps[i].1);
        lemma_held_stays_clear(h0, steps, i, j - 1);
        assert(held_step(steps[j - 1].1, steps[j].0, steps[j].1));
        assert(false);
    }
}

/// Distributes requests across a set of endpoints using the power of two
/// choices: each selection draws two distinct random positions and keeps
/// the less loaded of the two.
pub struct P2CBalance<D: Discover<Key = usize>> {
    pub(crate) discover: D,
    pub(crate) endpoints: EndpointTable<D::Service>,
    pub(crate) ready_index: Option<usize>,
    pub(crate) rng: SmallRng,
}

/// The balancer's view, ready choice and well-formedness live in its table
/// and its held index alone: two balancers that agree on those agree on
/// all three, whatever their discovery sources and generators hold.
pub(crate) proof fn lemma_balance_frame<D: Discover<Key = usize>>(
    a: P2CBalance<D>,
    b: P2CBalance<D>,
)
    requires
        b.endpoints == a.endpoints,
        b.ready_index == a.ready_index,
    ensures
        b@ == a@,
        b.ready() == a.ready(),
        b.wf() == a.wf(),
{
}

/// `spec_discover` is the `discover` field.
pub(crate) proof fn lemma_balance_discover<D: Discover<Key = usize>>(b: P2CBalance<D>)
    ensures
        b.spec_discover() == b.discover,
{
}

impl<D: Discover<Key = usize>> View for P2CBalance<D> {
    type V = Seq<(usize, D::Service)>;

    closed spec fn view(&self) -> Seq<(usize, D::Service)> {
        self.endpoints@
    }
}

impl<D: Discover<Key = usize>> P2CBalance<D> {
    /// The position chosen by the most recent successful `poll_ready`, not
    /// yet consumed by `call`.
    pub closed spec fn ready(&self) -> Option<usize> {
        self.ready_index
    }

    pub closed spec fn spec_discover(&self) -> D {
        self.discover
    }

    /// Endpoint keys are distinct, and a held ready position is in range.
    pub open spec fn wf(&self) -> bool {
        &&& distinct_keys(self@)
        &&& (self.ready() matches Some(i) ==> i < self@.len())
    }

    /// A balancer over `discover` with its generator seeded from system
    /// entropy.
    pub fn new(discover: D) -> (r: Self)
        ensures
            r.wf(),
            r@ == Seq::<(usize, D::Service)>::empty(),
            r.ready() is None,
            r.spec_discover() == discover,
    {
        P2CBalance {
            discover,
            endpoints: EndpointTable::new(),
            ready_index: None,
            rng: rng_from_entropy(),
        }
    }

    /// A balancer over `discover` whose random choices derive from `seed`;
    /// preferable when an application instantiates many balancers, and for
    /// reproducible runs.
    pub fn with_rng(discover: D, seed: u64) -> (r: Self)
        ensures
            r.wf(),
            r@ == Seq::<(usize, D::Service)>::empty(),
            r.ready() is None,
            r.spec_discover() == discover,
    {
        P2CBalance {
            discover,
            endpoints: EndpointTable::new(),
            ready_index: None,
            rng: rng_from_seed(seed),
        }
    }

    pub fn len(&self) -> (n: usize)
        ensures
            n == self@.len(),
    {
        self.endpoints.len()
    }

    pub fn key_at(&self, idx: usize) -> (k: usize)
        requires
            idx < self@.len(),
        ensures
            k == self@[idx as int].0,
    {
        self.endpoints.key_at(idx)
    }

    pub fn ready_index(&self) -> (r: Option<usize>)
        ensures
            r == self.ready(),
    {
        self.ready_index
    }

    /// Drains the discovery stream: applies every available change to the
    /// table, repairing the held ready position after each removal, until
    /// the stream reports `NotReady`, or fails. Repair never installs a
    /// choice where none was held.
    fn poll_discover(&mut self) -> (r: Result<(), ErrBalance<D::Error>>)
        requires
            old(self).wf(),
        ensures
            final(self).wf(),
            final(self).ready() is Some ==> old(self).ready() is Some,
    {
        let ghost held0 = self.ready();
        loop
            invariant
                self.wf(),
                held0 == old(self).ready(),
                self.ready() is Some ==> held0 is Some,
            decreases self.discover.pending_changes(),
        {
            match self.discover.poll() {
                Poll::NotReady => {
                    return Ok(());
                },
                Poll::Fail(e) => {
                    return Err(ErrBalance(e));
                },
                Poll::Ready(Change::Insert(key, svc)) => {
                    let _prev = self.endpoints.insert(key, svc);
                },
                Poll::Ready(Change::Remove(key)) => {
                    let orig_len = self.endpoints.len();
                    match self.endpoints.swap_remove_full(key) {
                        None => {},
                        Some((rm_idx, _svc)) => {
                            match self.ready_index {
                                Some(held) => {
                                    self.ready_index = repair_index(held, rm_idx, orig_len);
                                },
                                None => {},
                            }
                        },
                    }
                },
            }
        }
    }
}

impl<D> P2CBalance<D> where D: Discover<Key = usize>, D::Service: Service + Load {
    /// Polls the endpoint at `index` and, when it is ready, reads its load.
    fn poll_endpoint_index_load(&mut self, index: usize) -> (r: Poll<
        u64,
        <D::Service as Service>::Error,
    >)
        requires
            old(self).wf(),
            index < old(self)@.len(),
        ensures
            final(self).wf(),
            final(self)@.len() == old(self)@.len(),
            final(self).ready() == old(self).ready(),
    {
        let svc = self.endpoints.service_at(index);
        let r = match svc.poll_ready() {
            Poll::Ready(_u) => {
                let l = svc.load();
                Poll::Ready(l)
            },
            Poll::NotReady => Poll::NotReady,
            Poll::Fail(e) => Poll::Fail(e),
        };
        proof {
            lemma_update_entry_distinct(old(self)@, index as int, self@[index as int]);
        }
        r
    }

    /// One selection pass: with no endpoints reports nothing; with one,
    /// polls it; with more, draws two distinct random positions, polls
    /// both, evicts any that failed, and decides by [`p2c_decision_spec`].
    fn poll_ready_index(&mut self) -> (r: Option<usize>)
        requires
            old(self).wf(),
            old(self).ready() is None,
        ensures
            final(self).wf(),
            final(self).ready() is None,
            r matches Some(i) ==> i < final(self)@.len(),
    {
        let len = self.endpoints.len();
        if len == 0 {
            return None;
        }
        if len == 1 {
            match self.poll_endpoint_index_load(0) {
                Poll::Ready(_l) => Some(0),
                Poll::NotReady => None,
                Poll::Fail(_e) => {
                    let _ = self.endpoints.swap_remove(0);
                    None
                },
            }
        } else {
            let pair = sample_two(&mut self.rng, len);
            let mut a_idx = pair.0;
            let mut b_idx = pair.1;
            let mut a_load: Option<u64> = None;
            match self.poll_endpoint_index_load(a_idx) {
                Poll::Ready(l) => {
                    a_load = Some(l);
                },
                Poll::NotReady => {},
                Poll::Fail(_e) => {
                    // The first sample failed: evict it and repair the
                    // second sample's position against the removal.
                    let _ = self.endpoints.swap_remove(a_idx);
                    match repair_index(b_idx, a_idx, len) {
                        Some(nb) => {
                            b_idx = nb;
                        },
                        None => unreached(),
                    }
                },
            }
            let cur_len = self.endpoints.len();
            let mut b_load: Option<u64> = None;
            match self.poll_endpoint_index_load(b_idx) {
                Poll::Ready(l) => {
                    b_load = Some(l);
                },
                Poll::NotReady => {},
                Poll::Fail(_e) => {
                    // The second sample failed: evict it; the first
                    // sample's position needs repair only while that
                    // endpoint is still in the table.
                    let _ = self.endpoints.swap_remove(b_idx);
                    if a_load.is_some() {
                        match repair_index(a_idx, b_idx, cur_len) {
                            Some(na) => {
                                a_idx = na;
                            },
                            None => unreached(),
                        }
                    }
                },
            }
            p2c_decision(a_idx, a_load, b_idx, b_load)
        }
    }

    /// Prepares the balancer to dispatch one request.
    ///
    /// Drains discovery first, then re-validates a previously chosen
    /// endpoint, then runs up to `max(1, n/2)` selection rounds. Endpoints
    /// whose own `poll_ready` fails are evicted; only a discovery failure
    /// is surfaced.
    pub fn poll_ready(&mut self) -> (r: Poll<(), ErrBalance<D::Error>>)
        requires
            old(self).wf(),
        ensures
            final(self).wf(),
            r is Ready ==> final(self).ready() is Some,
            r is Ready ==> (final(self).ready() matches Some(i) && i < final(self)@.len()),
            r is NotReady ==> final(self).ready() is None,
            r is Fail ==> (final(self).ready() is Some ==> old(self).ready() is Some),
            held_step(old(self).ready() is Some, balance_action(r), final(self).ready() is Some),
    {
        match self.poll_discover() {
            Err(e) => {
                return Poll::Fail(e);
            },
            Ok(()) => {},
        }
        if let Some(index) = self.ready_index {
            // Re-validate: the chosen endpoint may have become saturated
            // since it was selected.
            match self.poll_endpoint_index_load(index) {
                Poll::Ready(_l) => {
                    return Poll::Ready(());
                },
                Poll::NotReady => {},
                Poll::Fail(_e) => {
                    let _ = self.endpoints.swap_remove(index);
                },
            }
            self.ready_index = None;
        }
        let n = self.endpoints.len();
        if n == 0 {
            return Poll::NotReady;
        }
        let half = n / 2;
        let tries = if half < 1 {
            1
        } else {
            half
        };
        let mut attempt: usize = 0;
        while attempt < tries
            invariant
                self.wf(),
                self.ready() is None,
                attempt <= tries,
            decreases tries - attempt,
        {
            match self.poll_ready_index() {
                Some(idx) => {
                    self.ready_index = Some(idx);
                    return Poll::Ready(());
                },
                None => {},
            }
            attempt += 1;
        }
        Poll::NotReady
    }

    /// Dispatches one request to the endpoint chosen by the most recent
    /// `poll_ready`, consuming the held ready position. Nothing else
    /// moves: every other entry is untouched, the chosen slot keeps its
    /// key, and the discovery source is not consulted.
    pub fn call(&mut self, req: <D::Service as Service>::Request) -> (r: ResponseFuture<
        <D::Service as Service>::Future,
    >)
        requires
            old(self).wf(),
            old(self).ready() is Some,
        ensures
            final(self).wf(),
            final(self).ready() is None,
            final(self)@.len() == old(self)@.len(),
            final(self).spec_discover() == old(self).spec_discover(),
            old(self).ready() matches Some(i) ==> final(self)@[i as int].0 == old(self)@[
                i as int
            ].0,
            old(self).ready() matches Some(i) ==> (forall|j: int|
                0 <= j < old(self)@.len() && j != i ==> #[trigger] final(self)@[j] == old(
                    self,
                )@[j]),
            held_step(old(self).ready() is Some, BalanceOp::Dispatch, final(self).ready() is Some),
    {
        let index = match self.ready_index {
            Some(i) => i,
            None => unreached(),
        };
        self.ready_index = None;
        let svc = self.endpoints.service_at(index);
        let fut = svc.call(req);
        proof {
            lemma_update_entry_distinct(old(self)@, index as int, self@[index as int]);
        }
        ResponseFuture::new(fut)
    }
}

} // verus!
