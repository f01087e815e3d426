//! Per-venue booking state: one bit mask for currently held tables, one for
//! outstanding operator requests, and one expiry timestamp per party size for
//! each of the two. Timestamps are seconds of Unix time.
use vstd::prelude::*;

use crate::constants::{MAX_SUPPORTED_PERSONS, MIN_SUPPORTED_PERSONS};

verus! {

/// Whether bit `p` of `mask` is set.
pub open spec fn bit(mask: u8, p: u8) -> bool {
    mask & (1u8 << p) != 0
}

/// Executable test of bit `p` of `mask`.
pub fn test_bit(mask: u8, p: u8) -> (r: bool)
    requires
        p < 8,
    ensures
        r == bit(mask, p),
{
    mask & (1u8 << p) != 0
}

/// Sets bit `p` of `mask` and leaves every other bit alone.
pub fn set_bit(mask: u8, p: u8) -> (r: u8)
    requires
        p < 8,
    ensures
        forall|q: u8| q < 8 ==> bit(r, q) == (bit(mask, q) || q == p),
{
    let r = mask | (1u8 << p);
    proof {
        assert forall|q: u8| q < 8 implies bit(r, q) == (bit(mask, q) || q == p) by {
            assert(((mask | (1u8 << p)) & (1u8 << q) != 0) == ((mask & (1u8 << q) != 0) || q == p))
                by (bit_vector)
                requires
                    p < 8,
                    q < 8,
            ;
        }
    }
    r
}

/// Clears bit `p` of `mask` and leaves every other bit alone.
pub fn clear_bit(mask: u8, p: u8) -> (r: u8)
    requires
        p < 8,
    ensures
        forall|q: u8| q < 8 ==> bit(r, q) == (bit(mask, q) && q != p),
{
    let r = mask & !(1u8 << p);
    proof {
        assert forall|q: u8| q < 8 implies bit(r, q) == (bit(mask, q) && q != p) by {
            assert(((mask & !(1u8 << p)) & (1u8 << q) != 0) == ((mask & (1u8 << q) != 0) && q != p))
                by (bit_vector)
                requires
                    p < 8,
                    q < 8,
            ;
        }
    }
    r
}

/// A party size the broker accepts: between [`MIN_SUPPORTED_PERSONS`] and
/// [`MAX_SUPPORTED_PERSONS`].
pub open spec fn valid_person_number(p: u8) -> bool {
    MIN_SUPPORTED_PERSONS <= p <= MAX_SUPPORTED_PERSONS
}

/// Booking state of one venue. Bit `p` of `booking_state` says that a table
/// for a party of `p` is currently held; bit `p` of `notifications_state`
/// says that an outbound request for a party of `p` awaits an answer. Slot
/// `p - 1` of each expiry vector carries the matching deadline.
pub struct BookingInfo {
    pub booking_state: u8,
    pub notifications_state: u8,
    pub booking_request_expiration_times: Vec<u64>,
    pub booking_expiration_times: Vec<u64>,
    pub restaurant_name: String,
}

impl BookingInfo {
    /// Both expiry vectors hold one slot per supported party size.
    pub open spec fn wf(&self) -> bool {
        &&& self.booking_request_expiration_times@.len() == MAX_SUPPORTED_PERSONS as int
        &&& self.booking_expiration_times@.len() == MAX_SUPPORTED_PERSONS as int
    }

    /// A table for a party of `p` is held and the hold has not yet expired.
    pub open spec fn hold_live(&self, p: u8, now: u64) -> bool {
        bit(self.booking_state, p) && now <= self.booking_expiration_times@[p - 1]
    }

    /// A request for a party of `p` is outstanding and has not yet expired.
    pub open spec fn request_live(&self, p: u8, now: u64) -> bool {
        bit(self.notifications_state, p) && now <= self.booking_request_expiration_times@[p - 1]
    }

    /// A request for a party of `p` is outstanding but its answer window has
    /// passed: the next sweep will clear it and score the silence.
    pub open spec fn request_expired(&self, p: u8, now: u64) -> bool {
        valid_person_number(p) && bit(self.notifications_state, p) && now
            > self.booking_request_expiration_times@[p - 1]
    }

    /// A fresh record: nothing held, nothing outstanding, every deadline at
    /// the epoch.
    pub fn new(restaurant_name: String) -> (r: BookingInfo)
        ensures
            r.wf(),
            r.booking_state == 0,
            r.notifications_state == 0,
            forall|i: int|
                0 <= i < MAX_SUPPORTED_PERSONS as int ==> r.booking_request_expiration_times@[i]
                    == 0,
            forall|i: int|
                0 <= i < MAX_SUPPORTED_PERSONS as int ==> r.booking_expiration_times@[i] == 0,
            r.restaurant_name == restaurant_name,
    {
        BookingInfo {
            booking_state: 0,
            notifications_state: 0,
            booking_request_expiration_times: vec![0u64; MAX_SUPPORTED_PERSONS as usize],
            booking_expiration_times: vec![0u64; MAX_SUPPORTED_PERSONS as usize],
            restaurant_name,
        }
    }

    /// When the outstanding request for slot `index` stops accepting timely
    /// answers.
    pub fn get_booking_request_expiration_time(&self, index: usize) -> (r: u64)
        requires
            self.wf(),
            index < MAX_SUPPORTED_PERSONS as usize,
        ensures
            r == self.booking_request_expiration_times@[index as int],
    {
        self.booking_request_expiration_times[index]
    }

    /// Moves the answer deadline of slot `index`.
    pub fn set_booking_request_expiration_time(&mut self, index: usize, time_to_set: u64)
        requires
            old(self).wf(),
            index < MAX_SUPPORTED_PERSONS as usize,
        ensures
            final(self).wf(),
            final(self).booking_request_expiration_times@ == old(
                self,
            ).booking_request_expiration_times@.update(index as int, time_to_set),
            final(self).booking_state == old(self).booking_state,
            final(self).notifications_state == old(self).notifications_state,
            final(self).booking_expiration_times == old(self).booking_expiration_times,
            final(self).restaurant_name == old(self).restaurant_name,
    {
        self.booking_request_expiration_times[index] = time_to_set;
    }

    /// When the held table of slot `index` is released again.
    pub fn get_booking_expiration_time(&self, index: usize) -> (r: u64)
        requires
            self.wf(),
            index < MAX_SUPPORTED_PERSONS as usize,
        ensures
            r == self.booking_expiration_times@[index as int],
    {
        self.booking_expiration_times[index]
    }

    /// Moves the hold deadline of slot `index`.
    pub fn set_booking_expiration_time(&mut self, index: usize, time_to_set: u64)
        requires
            old(self).wf(),
            index < MAX_SUPPORTED_PERSONS as usize,
        ensures
            final(self).wf(),
            final(self).booking_expiration_times@ == old(self).booking_expiration_times@.update(
                index as int,
                time_to_set,
            ),
            final(self).booking_state == old(self).booking_state,
            final(self).notifications_state == old(self).notifications_state,
            final(self).booking_request_expiration_times == old(
                self,
            ).booking_request_expiration_times,
            final(self).restaurant_name == old(self).restaurant_name,
    {
        self.booking_expiration_times[index] = time_to_set;
    }
}

} // verus!
