//! A push-notification relay: clients register channels, devices subscribe to
//! them, and a message sent to a channel is pushed to every subscriber at once,
//! each delivery under its own timeout, with one recorded result per
//! subscriber. Store-touching requests pass a per-client rate limit first.
//!
//! The request handlers are state machines (`flow`): they hand out store calls
//! and deliveries as actions and take what came of them as events, so the
//! decisions are verified apart from the I/O that the caller performs.

pub mod admission;
pub mod api;
pub mod config;
pub mod delivery;
pub mod flow;
pub mod migration;
pub mod model;
pub mod payload;
pub mod qr;
