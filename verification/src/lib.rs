//! Booking availability broker: per-venue hold/notification state, response
//! collection with expiry rules, a bounded reliability score, and ranked
//! availability results.
pub mod booking_info;
pub mod clock;
pub mod collector;
pub mod constants;
pub mod dispatcher;
pub mod parse;
pub mod ranking;
pub mod restaurant;
pub mod score;
pub mod store;
pub mod time;
pub mod waiter;
