use std::cell::Cell;
use std::rc::Rc;

use tower_balance::ewma::{ewma_step, EWMA_SCALE};
use tower_balance::poll::Poll;
use tower_balance::pool::{Builder, Level, MakeFuture, MakeService, Pool};
use tower_balance::service::{Load, Service};

/// A service whose readiness follows a flag the test holds.
struct FlagSvc {
    ready: Rc<Cell<bool>>,
}

impl Service for FlagSvc {
    type Request = u32;
    type Error = &'static str;
    type Future = u32;

    fn poll_ready(&mut self) -> Poll<(), &'static str> {
        if self.ready.get() {
            Poll::Ready(())
        } else {
            Poll::NotReady
        }
    }

    fn call(&mut self, req: u32) -> u32 {
        req
    }
}

impl Load for FlagSvc {
    fn load(&self) -> u64 {
        1
    }
}

/// A finished construction.
struct DoneFut {
    ready: Rc<Cell<bool>>,
    fail: bool,
}

impl MakeFuture for DoneFut {
    type Service = FlagSvc;
    type Error = &'static str;

    fn poll(&mut self) -> Poll<FlagSvc, &'static str> {
        if self.fail {
            Poll::Fail("make broke")
        } else {
            Poll::Ready(FlagSvc { ready: self.ready.clone() })
        }
    }
}

/// A factory that allows a bounded number of constructions, each finishing
/// at once; all constructed services share one readiness flag.
struct TestFactory {
    made: Rc<Cell<usize>>,
    allow: usize,
    svc_ready: Rc<Cell<bool>>,
    fail_make: bool,
}

impl MakeService for TestFactory {
    type Target = u32;
    type Service = FlagSvc;
    type MakeError = &'static str;
    type Future = DoneFut;

    fn poll_ready(&mut self) -> Poll<(), &'static str> {
        if self.made.get() < self.allow {
            Poll::Ready(())
        } else {
            Poll::NotReady
        }
    }

    fn make_service(&mut self, _target: u32) -> DoneFut {
        self.made.set(self.made.get() + 1);
        DoneFut { ready: self.svc_ready.clone(), fail: self.fail_make }
    }
}

fn factory(allow: usize) -> (TestFactory, Rc<Cell<usize>>, Rc<Cell<bool>>) {
    let made = Rc::new(Cell::new(0));
    let svc_ready = Rc::new(Cell::new(false));
    (
        TestFactory {
            made: made.clone(),
            allow,
            svc_ready: svc_ready.clone(),
            fail_make: false,
        },
        made,
        svc_ready,
    )
}

/// Scale-up: an empty pool constructs a first service by itself; sustained
/// `NotReady` observations push the estimate over the high threshold, the
/// signal goes `High`, and a second service is constructed. Once services
/// answer ready again the signal settles at `Normal` with two services.
#[test]
fn pool_scale_up_under_pressure() {
    let (f, made, svc_ready) = factory(2);
    let mut pool = Pool::new(f, 0);
    assert_eq!(pool.services(), 0);
    assert_eq!(pool.ewma(), 100_000);

    let mut saw_high = false;
    let mut saw_estimate_over_high = false;
    let mut iters = 0;
    while pool.services() < 2 && iters < 200 {
        let r = pool.poll_ready();
        assert!(!r.is_fail());
        if pool.level() == Level::High {
            saw_high = true;
        }
        if pool.ewma() > 200_000 {
            saw_estimate_over_high = true;
        }
        iters += 1;
    }
    assert_eq!(pool.services(), 2, "a second service should have been constructed");
    assert_eq!(made.get(), 2);
    assert!(saw_estimate_over_high, "the estimate should cross the high threshold");
    assert!(saw_high, "the signal should have gone high");

    // Let the services answer ready: the pool settles.
    svc_ready.set(true);
    assert!(pool.poll_ready().is_ready());
    assert_eq!(pool.level(), Level::Normal);
    assert_eq!(pool.services(), 2);
    let fut = pool.call(3);
    assert_eq!(fut.into_inner(), 3);
    assert!(!pool.is_ready());
}

/// Retirement and its hysteresis: when the estimate falls below the low
/// threshold with two services live, the signal goes `Low`, the estimate
/// is restored to its initial value, and the next step retires the latest
/// service. The last service is never retired.
#[test]
fn pool_retirement_restores_estimate() {
    let (f, _made, svc_ready) = factory(2);
    // Aggressive settings so a handful of observations cross the
    // thresholds: low at 0.4, high at 0.2, urgency 0.3, start at 0.5.
    let mut pool = Builder::new()
        .underutilized_below(400_000)
        .loaded_above(200_000)
        .initial(500_000)
        .urgency(300_000)
        .build(f, 0);

    // Grow to two services under pressure.
    let mut iters = 0;
    while pool.services() < 2 && iters < 200 {
        let _ = pool.poll_ready();
        iters += 1;
    }
    assert_eq!(pool.services(), 2);

    // Now everything is ready: the estimate decays.
    svc_ready.set(true);
    let mut saw_low_with_reset = false;
    let mut iters = 0;
    while pool.services() > 1 && iters < 200 {
        let r = pool.poll_ready();
        assert!(!r.is_fail());
        if pool.level() == Level::Low && pool.ewma() == 500_000 {
            saw_low_with_reset = true;
        }
        iters += 1;
    }
    assert_eq!(pool.services(), 1, "the later service should be retired");
    assert!(
        saw_low_with_reset,
        "retirement must be preceded by a low signal with the estimate restored"
    );

    // The last service survives any amount of underutilization.
    for _ in 0..100 {
        let _ = pool.poll_ready();
    }
    assert_eq!(pool.services(), 1);
}

/// A construction still in flight: `NotReady` observations leave the
/// estimate alone, so waiting on a make is not counted as extra pressure.
#[test]
fn pool_pending_make_is_not_double_counted() {
    let made = Rc::new(Cell::new(0));
    let release = Rc::new(Cell::new(false));
    let f = GatedFactory {
        made: made.clone(),
        release: release.clone(),
    };
    let mut pool = Pool::new(f, 0);

    // The first poll starts a construction that does not finish yet.
    assert!(pool.poll_ready().is_not_ready());
    assert!(pool.is_making());
    let settled = pool.ewma();
    let level = pool.level();
    for _ in 0..10 {
        assert!(pool.poll_ready().is_not_ready());
        assert_eq!(pool.ewma(), settled, "a pending make must not move the estimate");
        assert_eq!(pool.level(), level, "a pending make must not move the signal");
    }

    // Once the construction finishes, the service is announced.
    release.set(true);
    let _ = pool.poll_ready();
    assert_eq!(pool.services(), 1);
    assert!(!pool.is_making());
}

/// A factory whose single construction finishes only when released.
struct GatedFactory {
    made: Rc<Cell<usize>>,
    release: Rc<Cell<bool>>,
}

/// A construction that pends until its release flag goes up, then yields
/// an always-ready service.
struct GatedFut {
    release: Rc<Cell<bool>>,
}

impl MakeFuture for GatedFut {
    type Service = FlagSvc;
    type Error = &'static str;

    fn poll(&mut self) -> Poll<FlagSvc, &'static str> {
        if self.release.get() {
            Poll::Ready(FlagSvc { ready: Rc::new(Cell::new(true)) })
        } else {
            Poll::NotReady
        }
    }
}

impl MakeService for GatedFactory {
    type Target = u32;
    type Service = FlagSvc;
    type MakeError = &'static str;
    type Future = GatedFut;

    fn poll_ready(&mut self) -> Poll<(), &'static str> {
        Poll::Ready(())
    }

    fn make_service(&mut self, _target: u32) -> GatedFut {
        self.made.set(self.made.get() + 1);
        GatedFut { release: self.release.clone() }
    }
}

/// A failed construction surfaces the factory's error from `poll_ready`.
#[test]
fn pool_make_error_is_surfaced() {
    let made = Rc::new(Cell::new(0));
    let f = TestFactory {
        made: made.clone(),
        allow: 1,
        svc_ready: Rc::new(Cell::new(true)),
        fail_make: true,
    };
    let mut pool = Pool::new(f, 0);
    assert!(pool.poll_ready().is_fail());
}

/// The exponential moving average follows its formula exactly and stays
/// within its scale.
#[test]
fn ewma_step_values() {
    // One saturated sample from the default start.
    assert_eq!(ewma_step(100_000, 30_000, true), 127_000);
    // One ready sample from the default start.
    assert_eq!(ewma_step(100_000, 30_000, false), 97_000);
    // The extremes stay put.
    assert_eq!(ewma_step(0, 30_000, false), 0);
    assert_eq!(ewma_step(EWMA_SCALE, EWMA_SCALE, true), EWMA_SCALE);
    assert_eq!(ewma_step(EWMA_SCALE, 0, true), EWMA_SCALE);
    // Twenty saturated samples from the default start cross one fifth.
    let mut e = 100_000;
    for _ in 0..20 {
        e = ewma_step(e, 30_000, true);
        assert!(e <= EWMA_SCALE);
    }
    assert!(e > 200_000);
}

/// The builder's defaults and its urgency clamp.
#[test]
fn builder_settings() {
    let b = Builder::default();
    let (f, _made, _ready) = factory(1);
    let pool = b.build(f, 0);
    assert_eq!(pool.ewma(), 100_000);

    let (f2, _made2, _ready2) = factory(1);
    let pool2 = Builder::new().urgency(5_000_000).initial(0).build(f2, 0);
    assert_eq!(pool2.ewma(), 0);
    assert_eq!(pool2.services(), 0);
    assert!(!pool2.is_making());
    assert_eq!(pool2.level(), Level::Normal);
}
