//! A client-side load balancer built on the power-of-two-choices policy,
//! together with an elastic pool controller that grows and shrinks the
//! endpoint set from a readiness-pressure signal.
//!
//! The pieces: [`poll`], [`service`] and [`discover`] give the three-valued
//! readiness type and the endpoint, load and discovery capabilities;
//! [`table`] the ordered endpoint table with its swap-remove and
//! index-repair rules; [`sample`] the random index pairs behind the two
//! choices; [`p2c`] the balancer itself; [`weight`] per-endpoint weights
//! and the weighted-endpoint adapter; [`ewma`] a fixed-point exponential
//! moving average; and [`pool`] the elastic pool driven by it.

pub mod discover;
pub mod ewma;
pub mod p2c;
pub mod poll;
pub mod pool;
pub mod sample;
pub mod service;
pub mod table;
pub mod weight;
