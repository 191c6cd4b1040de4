//! A load-balanced pool of services that grows when load is high.
//!
//! The pool treats every `Ready` answer from the inner balancer as the
//! sample 0 and every `NotReady` as the sample 1, keeps an exponential
//! moving average of those samples, and drives a three-level pressure
//! signal from it: `High` asks the discovery side to construct one more
//! service, `Low` asks it to retire the latest one, `Normal` asks nothing.

use crate::discover::{Change, Discover};
use crate::ewma::{ewma_step, ewma_step_spec, EWMA_SCALE};
use crate::p2c::{ErrBalance, P2CBalance, ResponseFuture};
use crate::poll::Poll;
use crate::service::{Load, Service};
use vstd::pervasive::unreached;
use vstd::prelude::*;

verus! {

/// The pressure signal written by [`Pool`] and read by [`PoolDiscover`].
#[derive(Clone, Copy, Debug, PartialEq, Eq, Structural)]
pub enum Level {
    /// The pool is underutilized: the latest service may be retired.
    Low,
    /// Nothing to do.
    Normal,
    /// The pool is saturated: one more service should be constructed.
    High,
}

/// A factory for new endpoint services.
pub trait MakeService {
    type Target;

    type Service;

    type MakeError;

    type Future;

    /// Reports whether the factory can begin one more construction.
    fn poll_ready(&mut self) -> (r: Poll<(), Self::MakeError>);

    /// Begins constructing one service for `target`.
    fn make_service(&mut self, target: Self::Target) -> (r: Self::Future);
}

/// An in-flight service construction.
pub trait MakeFuture {
    type Service;

    type Error;

    /// Reports whether the construction has finished, and with what.
    fn poll(&mut self) -> (r: Poll<Self::Service, Self::Error>);
}

/// A discovery stream fed by a [`MakeService`] factory: it emits an
/// insertion whenever a construction finishes, and a removal of the latest
/// key when the pressure signal says `Low`. Keys are the running count of
/// live services.
pub struct PoolDiscover<MS: MakeService> {
    pub(crate) maker: MS,
    pub(crate) making: Option<MS::Future>,
    pub(crate) target: MS::Target,
    pub(crate) level: Level,
    pub(crate) services: usize,
}

impl<MS: MakeService> PoolDiscover<MS> {
    /// The pressure signal as last written.
    pub closed spec fn spec_level(&self) -> Level {
        self.level
    }

    /// The count of live services announced so far.
    pub closed spec fn spec_services(&self) -> usize {
        self.services
    }

    /// Whether a construction is in flight.
    pub closed spec fn spec_making(&self) -> bool {
        self.making is Some
    }

    pub fn level(&self) -> (r: Level)
        ensures
            r == self.spec_level(),
    {
        self.level
    }

    pub fn services(&self) -> (r: usize)
        ensures
            r == self.spec_services(),
    {
        self.services
    }

    pub fn is_making(&self) -> (r: bool)
        ensures
            r == self.spec_making(),
    {
        self.making.is_some()
    }
}

/// The abstract effect one actor step has on the pressure signal, for the
/// hysteresis argument: only an observation of `Ready` may move the signal
/// to `Low`, and a removal both demands `Low` and leaves `Normal` behind.
pub enum PoolAction {
    /// The pool observed the balancer ready.
    ObserveReady,
    /// The pool observed the balancer not ready.
    ObserveNotReady,
    /// The discovery side announced one more service.
    EmitInsert,
    /// The discovery side retired the latest service.
    EmitRemove,
    /// A step that left the signal alone.
    Idle,
}

/// What one step may do to the pressure signal.
pub open spec fn level_step(pre: Level, action: PoolAction, post: Level) -> bool {
    match action {
        PoolAction::ObserveReady => true,
        PoolAction::ObserveNotReady => post is Low ==> pre is Low,
        PoolAction::EmitInsert => post is Normal,
        PoolAction::EmitRemove => pre is Low && post is Normal,
        PoolAction::Idle => post == pre,
    }
}

/// A trace of actor steps with the level after each one: each step obeys
/// [`level_step`], starting from `l0`.
pub open spec fn trace_ok(l0: Level, steps: Seq<(PoolAction, Level)>) -> bool {
    forall|k: int|
        0 <= k < steps.len() ==> level_step(
            if k == 0 {
                l0
            } else {
                steps[k - 1].1
            },
            (#[trigger] steps[k]).0,
            steps[k].1,
        )
}

proof fn lemma_level_stays_not_low(l0: Level, steps: Seq<(PoolAction, Level)>, i: int, m: int)
    requires
        trace_ok(l0, steps),
        0 <= i <= m < steps.len(),
        !(steps[i].1 is Low),
        forall|k: int| i < k <= m ==> !((#[trigger] steps[k]).0 is ObserveReady),
    ensures
        !(steps[m].1 is Low),
    decreases m - i,
{
    if m > i {
        lemma_level_stays_not_low(l0, steps, i, m - 1);
        assert(level_step(steps[m - 1].1, steps[m].0, steps[m].1));
        assert(!(steps[m].0 is ObserveReady));
    }
}

/// Pool hysteresis: in any valid trace of pool observations and discovery
/// emissions, two retirements have an observation of `Ready` strictly
/// between them.
///
/// A retirement leaves the signal at `Normal` and demands `Low` when it
/// happens, and among the actor steps only an observation of `Ready` may
/// move the signal to `Low`. Each step's obligation is a verified
/// contract clause: [`Pool`]'s `poll_ready` ensures `level_step` with
/// `ObserveReady` or `ObserveNotReady` for its `Ready` and `NotReady`
/// outcomes, and [`PoolDiscover`]'s `poll` ensures `level_step` with the
/// action its result names.
pub proof fn lemma_removal_hysteresis(
    l0: Level,
    steps: Seq<(PoolAction, Level)>,
    i: int,
    j: int,
)
    requires
        trace_ok(l0, steps),
        0 <= i < j < steps.len(),
        steps[i].0 is EmitRemove,
        steps[j].0 is EmitRemove,
    ensures
        exists|k: int| i < k < j && (#[trigger] steps[k]).0 is ObserveReady,
{
    if !(exists|k: int| i < k < j && (#[trigger] steps[k]).0 is ObserveReady) {
        assert(level_step(
            if i == 0 {
                l0
            } else {
                steps[i - 1].1
            },
            steps[i].0,
            steps[i].1,
        ));
        assert(!(steps[i].1 is Low));
        lemma_level_stays_not_low(l0, steps, i, j - 1);
        assert(level_step(steps[j - 1].1, steps[j].0, steps[j].1));
        assert(false);
    }
}

/// The abstract action of one discovery poll, read off its result.
pub open spec fn poll_action<K, S, E>(r: Poll<Change<K, S>, E>) -> PoolAction {
    match r {
        Poll::Ready(Change::Insert(_k, _s)) => PoolAction::EmitInsert,
        Poll::Ready(Change::Remove(_k)) => PoolAction::EmitRemove,
        Poll::NotReady => PoolAction::Idle,
        Poll::Fail(_e) => PoolAction::Idle,
    }
}

impl<MS> Discover for PoolDiscover<MS> where
    MS: MakeService,
    MS::Future: MakeFuture<Service = MS::Service, Error = MS::MakeError>,
    MS::Target: Clone,
 {
    type Key = usize;

    type Service = MS::Service;

    type Error = MS::MakeError;

    closed spec fn pending_changes(&self) -> nat {
        if self.making is Some {
            1
        } else if self.services == 0 {
            2
        } else if self.level is High {
            2
        } else if self.level is Low && self.services > 1 {
            1
        } else {
            0
        }
    }

    /// One scaling step: start a construction when the pool is empty or the
    /// signal says `High`, finish an in-flight construction as an
    /// insertion, retire the latest service under a `Low` signal.
    fn poll(&mut self) -> (r: Poll<Change<usize, MS::Service>, MS::MakeError>)
        ensures
            r is Ready ==> final(self).pending_changes() < old(self).pending_changes(),
            r matches Poll::Ready(Change::Insert(k, _s)) ==> ({
                &&& final(self).spec_level() is Normal
                &&& !final(self).spec_making()
                &&& final(self).spec_services() as int == (if old(self).spec_services()
                    < usize::MAX {
                    old(self).spec_services() + 1
                } else {
                    old(self).spec_services() as int
                })
                &&& k == final(self).spec_services()
            }),
            r matches Poll::Ready(Change::Remove(k)) ==> ({
                &&& old(self).spec_level() is Low
                &&& old(self).spec_services() > 1
                &&& k == old(self).spec_services()
                &&& final(self).spec_services() as int == old(self).spec_services() - 1
                &&& final(self).spec_level() is Normal
                &&& !final(self).spec_making()
            }),
            r is NotReady ==> final(self).spec_level() == old(self).spec_level() && final(self).spec_services() == old(self).spec_services(),
            r is Fail ==> final(self).spec_level() == old(self).spec_level() && final(self).spec_services() == old(self).spec_services() && !final(self).spec_making(),
            final(self).spec_level() is Low ==> old(self).spec_level() is Low,
            final(self).spec_level() is High ==> old(self).spec_level() is High,
            (old(self).spec_level() is Low && old(self).spec_services() > 1 && !old(self).spec_making()) ==> (r matches Poll::Ready(Change::Remove(_k))),
            (old(self).spec_services() == 0 && !old(self).spec_making() && r is NotReady)
                ==> final(self).spec_making(),
            level_step(old(self).spec_level(), poll_action(r), final(self).spec_level()),
    {
        if self.services == 0 && self.making.is_none() {
            let fut = self.maker.make_service(self.target.clone());
            self.making = Some(fut);
        }
        let start_more = match self.level {
            Level::High => self.making.is_none(),
            _ => false,
        };
        if start_more {
            match self.maker.poll_ready() {
                Poll::Ready(_u) => {
                    let fut = self.maker.make_service(self.target.clone());
                    self.making = Some(fut);
                },
                Poll::NotReady => {
                    return Poll::NotReady;
                },
                Poll::Fail(e) => {
                    return Poll::Fail(e);
                },
            }
        }
        match self.making.take() {
            Some(mut fut) => {
                match fut.poll() {
                    Poll::Ready(svc) => {
                        if self.services < usize::MAX {
                            self.services = self.services + 1;
                        }
                        self.level = Level::Normal;
                        return Poll::Ready(Change::Insert(self.services, svc));
                    },
                    Poll::NotReady => {
                        self.making = Some(fut);
                        return Poll::NotReady;
                    },
                    Poll::Fail(e) => {
                        return Poll::Fail(e);
                    },
                }
            },
            None => {},
        }
        match self.level {
            Level::High => unreached(),
            Level::Normal => Poll::NotReady,
            Level::Low => {
                if self.services <= 1 {
                    Poll::NotReady
                } else {
                    self.level = Level::Normal;
                    let rm = self.services;
                    self.services = self.services - 1;
                    Poll::Ready(Change::Remove(rm))
                }
            },
        }
    }
}

/// Configures how a [`Pool`] judges the underlying balancer loaded or
/// underutilized. All four settings are fixed-point fractions of one in
/// units of [`EWMA_SCALE`].
#[derive(Clone, Copy, Debug)]
pub struct Builder {
    low: u64,
    high: u64,
    init: u64,
    alpha: u64,
}

impl Builder {
    /// The threshold under which a service is retired.
    pub closed spec fn spec_low(&self) -> u64 {
        self.low
    }

    /// The threshold above which one more service is constructed.
    pub closed spec fn spec_high(&self) -> u64 {
        self.high
    }

    /// The initial estimate, also restored after a retirement.
    pub closed spec fn spec_init(&self) -> u64 {
        self.init
    }

    /// The urgency: the weight of the newest sample.
    pub closed spec fn spec_alpha(&self) -> u64 {
        self.alpha
    }

    /// Every setting is a fraction of one.
    pub open spec fn wf(&self) -> bool {
        &&& self.spec_low() <= EWMA_SCALE
        &&& self.spec_high() <= EWMA_SCALE
        &&& self.spec_init() <= EWMA_SCALE
        &&& self.spec_alpha() <= EWMA_SCALE
    }

    /// The default settings: initial estimate one tenth, retirement under
    /// one hundred-thousandth, construction above one fifth, urgency three
    /// hundredths.
    pub fn new() -> (r: Builder)
        ensures
            r.spec_init() == 100_000,
            r.spec_low() == 10,
            r.spec_high() == 200_000,
            r.spec_alpha() == 30_000,
            r.wf(),
    {
        Builder { init: 100_000, low: 10, high: 200_000, alpha: 30_000 }
    }

    /// When the estimate drops below this threshold and at least two
    /// services are active, a service is retired.
    pub fn underutilized_below(self, low: u64) -> (r: Builder)
        requires
            low <= EWMA_SCALE,
        ensures
            r.spec_low() == low,
            r.spec_high() == self.spec_high(),
            r.spec_init() == self.spec_init(),
            r.spec_alpha() == self.spec_alpha(),
    {
        Builder { low, ..self }
    }

    /// When the estimate exceeds this threshold and no construction is in
    /// flight, one more service is scheduled.
    pub fn loaded_above(self, high: u64) -> (r: Builder)
        requires
            high <= EWMA_SCALE,
        ensures
            r.spec_high() == high,
            r.spec_low() == self.spec_low(),
            r.spec_init() == self.spec_init(),
            r.spec_alpha() == self.spec_alpha(),
    {
        Builder { high, ..self }
    }

    /// The initial estimate, also restored after a retirement.
    pub fn initial(self, init: u64) -> (r: Builder)
        requires
            init <= EWMA_SCALE,
        ensures
            r.spec_init() == init,
            r.spec_low() == self.spec_low(),
            r.spec_high() == self.spec_high(),
            r.spec_alpha() == self.spec_alpha(),
    {
        Builder { init, ..self }
    }

    /// How aggressively new samples move the estimate; clamped to one.
    pub fn urgency(self, alpha: u64) -> (r: Builder)
        ensures
            r.spec_alpha() == (if alpha <= EWMA_SCALE {
                alpha
            } else {
                EWMA_SCALE
            }),
            r.spec_low() == self.spec_low(),
            r.spec_high() == self.spec_high(),
            r.spec_init() == self.spec_init(),
    {
        let clamped = if alpha <= EWMA_SCALE {
            alpha
        } else {
            EWMA_SCALE
        };
        Builder { alpha: clamped, ..self }
    }

    /// Builds a pool over `make_service`, starting empty with the initial
    /// estimate.
    pub fn build<MS>(self, make_service: MS, target: MS::Target) -> (r: Pool<MS>) where
        MS: MakeService,
        MS::Future: MakeFuture<Service = MS::Service, Error = MS::MakeError>,
        MS::Target: Clone,

        requires
            self.wf(),
        ensures
            r.wf(),
            r.spec_options() == self,
            r.spec_ewma() == self.spec_init(),
            r.spec_services() == 0,
            r.spec_level() is Normal,
            !r.spec_making(),
            !r.spec_ready(),
    {
        let d = PoolDiscover {
            maker: make_service,
            making: None,
            target,
            level: Level::Normal,
            services: 0,
        };
        let bal = P2CBalance::new(d);
        proof {
            crate::p2c::lemma_balance_discover(bal);
        }
        Pool { balance: bal, options: self, ewma: self.init }
    }
}

impl Default for Builder {
    /// The default settings, as [`Builder::new`] gives them.
    fn default() -> (r: Builder)
        ensures
            r.spec_init() == 100_000,
            r.spec_low() == 10,
            r.spec_high() == 200_000,
            r.spec_alpha() == 30_000,
            r.wf(),
    {
        Builder::new()
    }
}

/// A dynamically sized, load-balanced pool of services.
pub struct Pool<MS> where
    MS: MakeService,
    MS::Future: MakeFuture<Service = MS::Service, Error = MS::MakeError>,
    MS::Target: Clone,
 {
    pub(crate) balance: P2CBalance<PoolDiscover<MS>>,
    options: Builder,
    ewma: u64,
}

impl<MS> Pool<MS> where
    MS: MakeService,
    MS::Future: MakeFuture<Service = MS::Service, Error = MS::MakeError>,
    MS::Target: Clone,
 {
    /// The saturation estimate, a fraction of one in units of
    /// [`EWMA_SCALE`].
    pub closed spec fn spec_ewma(&self) -> u64 {
        self.ewma
    }

    pub closed spec fn spec_options(&self) -> Builder {
        self.options
    }

    /// The pressure signal as the discovery side will next read it.
    pub closed spec fn spec_level(&self) -> Level {
        self.balance.discover.level
    }

    /// The count of live services.
    pub closed spec fn spec_services(&self) -> usize {
        self.balance.discover.services
    }

    /// Whether a construction is in flight.
    pub closed spec fn spec_making(&self) -> bool {
        self.balance.discover.making is Some
    }

    /// Whether the inner balancer holds a chosen ready endpoint.
    pub closed spec fn spec_ready(&self) -> bool {
        self.balance.ready() is Some
    }

    pub closed spec fn wf(&self) -> bool {
        &&& self.balance.wf()
        &&& self.options.wf()
        &&& self.ewma <= EWMA_SCALE
    }

    /// A pool with the default settings.
    pub fn new(make_service: MS, target: MS::Target) -> (r: Pool<MS>)
        ensures
            r.wf(),
            r.spec_ewma() == 100_000,
            r.spec_services() == 0,
            r.spec_level() is Normal,
            !r.spec_making(),
            !r.spec_ready(),
    {
        Builder::new().build(make_service, target)
    }

    pub fn ewma(&self) -> (r: u64)
        ensures
            r == self.spec_ewma(),
            self.wf() ==> r <= EWMA_SCALE,
    {
        self.ewma
    }

    pub fn level(&self) -> (r: Level)
        ensures
            r == self.spec_level(),
    {
        self.balance.discover.level
    }

    pub fn services(&self) -> (r: usize)
        ensures
            r == self.spec_services(),
    {
        self.balance.discover.services
    }

    pub fn is_making(&self) -> (r: bool)
        ensures
            r == self.spec_making(),
    {
        self.balance.discover.making.is_some()
    }

    pub fn is_ready(&self) -> (r: bool)
        ensures
            r == self.spec_ready(),
    {
        self.balance.ready_index().is_some()
    }
}

impl<MS> Pool<MS> where
    MS: MakeService,
    MS::Future: MakeFuture<Service = MS::Service, Error = MS::MakeError>,
    MS::Target: Clone,
    MS::Service: Service + Load,
 {
    /// Delegates to the balancer, then folds the outcome into the estimate
    /// and sets the pressure signal.
    ///
    /// A `Ready` outcome is the sample 0; if the estimate then falls below
    /// the low threshold the signal goes `Low`, and with more than one
    /// service live the estimate is restored to its initial value so that
    /// retirements cannot follow each other without a fresh `Ready`
    /// observation in between. A `NotReady` outcome with no construction in
    /// flight is the sample 1; if the estimate then exceeds the high
    /// threshold the signal goes `High`. A `NotReady` outcome while a
    /// construction is in flight leaves both the estimate and the signal
    /// alone.
    pub fn poll_ready(&mut self) -> (r: Poll<(), ErrBalance<MS::MakeError>>)
        requires
            old(self).wf(),
        ensures
            final(self).wf(),
            final(self).spec_options() == old(self).spec_options(),
            r is Ready ==> final(self).spec_ready(),
            r is Ready ==> ({
                let e0 = ewma_step_spec(
                    old(self).spec_ewma() as int,
                    old(self).spec_options().spec_alpha() as int,
                    false,
                );
                &&& final(self).spec_level() == (if e0 < old(self).spec_options().spec_low()
                    as int {
                    Level::Low
                } else {
                    Level::Normal
                })
                &&& final(self).spec_ewma() as int == (if e0 < old(self).spec_options().spec_low() as int && final(self).spec_services() > 1 {
                    old(self).spec_options().spec_init() as int
                } else {
                    e0
                })
            }),
            r is NotReady && !final(self).spec_making() ==> ({
                let e1 = ewma_step_spec(
                    old(self).spec_ewma() as int,
                    old(self).spec_options().spec_alpha() as int,
                    true,
                );
                &&& final(self).spec_ewma() as int == e1
                &&& final(self).spec_level() == (if e1 > old(self).spec_options().spec_high()
                    as int {
                    Level::High
                } else {
                    Level::Normal
                })
            }),
            r is NotReady && final(self).spec_making() ==> final(self).spec_ewma() == old(self).spec_ewma(),
            r is NotReady && final(self).spec_making() ==> final(self).spec_level() == old(self).spec_level(),
            r is Fail ==> final(self).spec_ewma() == old(self).spec_ewma(),
            r is Ready ==> level_step(
                old(self).spec_level(),
                PoolAction::ObserveReady,
                final(self).spec_level(),
            ),
            r is NotReady ==> level_step(
                old(self).spec_level(),
                PoolAction::ObserveNotReady,
                final(self).spec_level(),
            ),
    {
        let level_before = self.balance.discover.level;
        match self.balance.poll_ready() {
            Poll::Ready(_u) => {
                let ghost bal_mid = self.balance;
                let alpha = self.options.alpha;
                self.ewma = ewma_step(self.ewma, alpha, false);
                if self.ewma < self.options.low {
                    self.balance.discover.level = Level::Low;
                    if self.balance.discover.services > 1 {
                        // Restore the estimate so the next retirement needs
                        // fresh evidence of underutilization.
                        self.ewma = self.options.init;
                    }
                } else {
                    self.balance.discover.level = Level::Normal;
                }
                proof {
                    crate::p2c::lemma_balance_frame(bal_mid, self.balance);
                }
                Poll::Ready(())
            },
            Poll::NotReady => {
                let ghost bal_mid = self.balance;
                if self.balance.discover.making.is_none() {
                    let alpha = self.options.alpha;
                    self.ewma = ewma_step(self.ewma, alpha, true);
                    if self.ewma > self.options.high {
                        self.balance.discover.level = Level::High;
                    } else {
                        self.balance.discover.level = Level::Normal;
                    }
                } else {
                    // A construction is already in flight: while one
                    // pends, the discovery side leaves the signal alone,
                    // so restoring what stood before the inner poll
                    // changes nothing and says so.
                    self.balance.discover.level = level_before;
                }
                proof {
                    crate::p2c::lemma_balance_frame(bal_mid, self.balance);
                }
                Poll::NotReady
            },
            Poll::Fail(e) => Poll::Fail(e),
        }
    }

    /// Dispatches one request through the balancer, consuming the held
    /// ready choice. Dispatch is no observation: the estimate, the
    /// pressure signal and the discovery state are untouched.
    pub fn call(&mut self, req: <MS::Service as Service>::Request) -> (r: ResponseFuture<
        <MS::Service as Service>::Future,
    >)
        requires
            old(self).wf(),
            old(self).spec_ready(),
        ensures
            final(self).wf(),
            !final(self).spec_ready(),
            final(self).spec_options() == old(self).spec_options(),
            final(self).spec_ewma() == old(self).spec_ewma(),
            final(self).spec_level() == old(self).spec_level(),
            final(self).spec_services() == old(self).spec_services(),
            final(self).spec_making() == old(self).spec_making(),
    {
        let r = self.balance.call(req);
        proof {
            crate::p2c::lemma_balance_discover(old(self).balance);
            crate::p2c::lemma_balance_discover(self.balance);
        }
        r
    }
}

} // verus!
