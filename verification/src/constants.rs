//! Configuration constants of the broker: supported party sizes, expiry
//! windows, and the reliability-score policy.
use vstd::prelude::*;

verus! {

/// Smallest party size a search request may ask for.
pub const MIN_SUPPORTED_PERSONS: u8 = 1;

/// Largest party size a search request may ask for.
pub const MAX_SUPPORTED_PERSONS: u8 = 6;

/// How long a confirmed hold stays valid, in minutes.
pub const BOOKING_EXPIRATION_MINUTES: u64 = 5;

/// How long a venue operator has to answer an outbound request, in minutes.
pub const BOOKING_REQUEST_EXPIRATION_MINUTES: u64 = 2;

/// How long a confirmed hold stays valid, in seconds.
pub const BOOKING_EXPIRATION_SECONDS: u64 = BOOKING_EXPIRATION_MINUTES * 60;

/// How long a venue operator has to answer an outbound request, in seconds.
pub const BOOKING_REQUEST_EXPIRATION_SECONDS: u64 = BOOKING_REQUEST_EXPIRATION_MINUTES * 60;

/// Score bonus for an answer that arrives before the request expires.
pub const IN_TIME_ANSWER_BONUS: i32 = 3;

/// Score penalty for an answer that arrives after the request expired.
pub const NOT_IN_TIME_ANSWER_PENALTY: i32 = 1;

/// Score penalty for a request that expired without any answer.
pub const NO_ANSWER_PENALTY: i32 = 3;

/// Upper bound of a venue's reliability score.
pub const MAX_RESTAURANT_SCORE: i32 = 150;

/// Lower bound of a venue's reliability score.
pub const MIN_RESTAURANT_SCORE: i32 = 0;

} // verus!
