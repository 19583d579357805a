//! A calculator service and its administrative companion, as request
//! handlers over one shared request counter.
//!
//! - `counter`: the request count, which starts at zero and grows by one
//!   with every calculator call.
//! - `calculator`: addition and division; each call is counted first and
//!   answered afterwards, so a refused division is counted too.
//! - `admin`: reading the request count.
//! - `auth`: the guard that admits a call to `admin` only with the expected
//!   credential.
//! - `error`: the failures a call can end in, with their codes and messages.
//! - `service`: what a whole history of calls makes of the request count.
//! - `rpc`: what is taken on trust from the framework that carries the calls.
//!
//! The handlers take the counter by reference, so whoever owns the lock that
//! guards it decides when a call runs; what each call does to the counter and
//! what it answers is stated and proved here.

pub mod admin;
pub mod auth;
pub mod calculator;
pub mod counter;
pub mod error;
pub mod rpc;
pub mod service;
