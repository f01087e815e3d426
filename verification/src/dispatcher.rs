//! Notification dispatcher: per venue and party size, decides whether a fresh
//! outbound availability request must be issued, sweeps expired unanswered
//! requests, and reports the no-answer penalty that the sweep earned.
use vstd::prelude::*;

use crate::booking_info::{bit, clear_bit, set_bit, test_bit, valid_person_number, BookingInfo};
use crate::constants::{
    BOOKING_REQUEST_EXPIRATION_SECONDS, MAX_SUPPORTED_PERSONS, MIN_SUPPORTED_PERSONS,
    NO_ANSWER_PENALTY,
};

verus! {

/// An outstanding request in slot `q` of `mask` whose answer window has
/// passed.
pub open spec fn slot_expired(mask: u8, request_expiry: Seq<u64>, q: u8, now: u64) -> bool {
    valid_person_number(q) && bit(mask, q) && now > request_expiry[q - 1]
}

/// How many of the party sizes `1..=upto` hold an expired unanswered
/// request.
pub open spec fn expired_count(mask: u8, request_expiry: Seq<u64>, now: u64, upto: int) -> int
    decreases upto,
{
    if upto <= 0 {
        0
    } else {
        expired_count(mask, request_expiry, now, upto - 1) + if slot_expired(
            mask,
            request_expiry,
            upto as u8,
            now,
        ) {
            1int
        } else {
            0int
        }
    }
}

/// What one expiry sweep does to a record: every expired outstanding request
/// is cleared, everything else is untouched, and the reported penalty is the
/// no-answer penalty once per swept slot.
pub open spec fn sweep_transition(b0: BookingInfo, b1: BookingInfo, penalty: int, now: u64) -> bool {
    &&& b1.wf()
    &&& b1.booking_state == b0.booking_state
    &&& b1.booking_expiration_times@ == b0.booking_expiration_times@
    &&& b1.booking_request_expiration_times@ == b0.booking_request_expiration_times@
    &&& b1.restaurant_name == b0.restaurant_name
    &&& forall|q: u8|
        q < 8 ==> bit(b1.notifications_state, q) == (bit(b0.notifications_state, q)
            && !slot_expired(
            b0.notifications_state,
            b0.booking_request_expiration_times@,
            q,
            now,
        ))
    &&& penalty == NO_ANSWER_PENALTY * expired_count(
        b0.notifications_state,
        b0.booking_request_expiration_times@,
        now,
        MAX_SUPPORTED_PERSONS as int,
    )
}

/// Clears every outstanding request whose answer window has passed and
/// returns the total no-answer penalty those silent requests earned.
pub fn process_request_expirations(info: &mut BookingInfo, now: u64) -> (penalty: i32)
    requires
        old(info).wf(),
    ensures
        sweep_transition(*old(info), *final(info), penalty as int, now),
        0 <= penalty <= NO_ANSWER_PENALTY * MAX_SUPPORTED_PERSONS as i32,
{
    let ghost mask0: u8 = info.notifications_state;
    let ghost expiry0: Seq<u64> = info.booking_request_expiration_times@;
    let mut penalty: i32 = 0;
    let mut p: u8 = MIN_SUPPORTED_PERSONS;
    while p <= MAX_SUPPORTED_PERSONS
        invariant
            info.wf(),
            MIN_SUPPORTED_PERSONS <= p <= MAX_SUPPORTED_PERSONS + 1,
            info.booking_state == old(info).booking_state,
            info.booking_expiration_times@ == old(info).booking_expiration_times@,
            info.booking_request_expiration_times@ == old(info).booking_request_expiration_times@,
            info.restaurant_name == old(info).restaurant_name,
            mask0 == old(info).notifications_state,
            expiry0 == old(info).booking_request_expiration_times@,
            forall|q: u8|
                q < 8 ==> bit(info.notifications_state, q) == (bit(mask0, q) && !(q < p
                    && slot_expired(mask0, expiry0, q, now))),
            penalty as int == NO_ANSWER_PENALTY * expired_count(mask0, expiry0, now, p - 1),
            0 <= penalty <= NO_ANSWER_PENALTY * (p - 1),
        decreases MAX_SUPPORTED_PERSONS + 1 - p,
    {
        let expired = test_bit(info.notifications_state, p) && now
            > info.get_booking_request_expiration_time((p - 1) as usize);
        proof {
            assert(expired == slot_expired(mask0, expiry0, p, now));
            assert(expired_count(mask0, expiry0, now, p as int) == expired_count(
                mask0,
                expiry0,
                now,
                p - 1,
            ) + if slot_expired(mask0, expiry0, p, now) {
                1int
            } else {
                0int
            });
        }
        if expired {
            penalty = penalty + NO_ANSWER_PENALTY;
            info.notifications_state = clear_bit(info.notifications_state, p);
        }
        p = p + 1;
    }
    penalty
}

/// The dispatch rule of one check: a fresh notification goes out exactly when
/// no live hold already satisfies the party size and no outstanding request
/// is still inside its answer window.
pub open spec fn should_notify(b: BookingInfo, p: u8, now: u64) -> bool {
    !b.hold_live(p, now) && !b.request_live(p, now)
}

/// What one availability check decided for one venue.
#[derive(Clone, Copy, Debug, PartialEq, Eq, Structural)]
pub struct CheckOutcome {
    /// A fresh outbound notification must be sent to the venue's operator.
    pub notify: bool,
    /// Total no-answer penalty that the embedded expiry sweep earned.
    pub penalty: i32,
}

/// The outcome that a check of `p` against the record `b` at `now` is bound
/// to produce: whether a notification goes out, and the penalty the embedded
/// sweep earns (nothing when a live hold freezes the record).
pub open spec fn check_outcome_of(b: BookingInfo, p: u8, now: u64) -> CheckOutcome {
    CheckOutcome {
        notify: should_notify(b, p, now),
        penalty: if b.hold_live(p, now) {
            0i32
        } else {
            (NO_ANSWER_PENALTY * expired_count(
                b.notifications_state,
                b.booking_request_expiration_times@,
                now,
                MAX_SUPPORTED_PERSONS as int,
            )) as i32
        },
    }
}

/// What one availability check does to a record. A live hold freezes the
/// record; otherwise an expired hold is released, expired requests are swept,
/// and the request slot of the checked party size ends up occupied — freshly
/// stamped when a notification was issued, untouched when one was already
/// outstanding.
pub open spec fn check_transition(
    b0: BookingInfo,
    b1: BookingInfo,
    o: CheckOutcome,
    p: u8,
    now: u64,
) -> bool {
    &&& b1.wf()
    &&& b1.restaurant_name == b0.restaurant_name
    &&& b1.booking_expiration_times@ == b0.booking_expiration_times@
    &&& o.notify == should_notify(b0, p, now)
    &&& if b0.hold_live(p, now) {
        &&& b1.booking_state == b0.booking_state
        &&& b1.notifications_state == b0.notifications_state
        &&& b1.booking_request_expiration_times@ == b0.booking_request_expiration_times@
        &&& o.penalty == 0
    } else {
        &&& forall|q: u8|
            q < 8 ==> bit(b1.booking_state, q) == (bit(b0.booking_state, q) && q != p)
        &&& forall|q: u8|
            q < 8 && q != p ==> bit(b1.notifications_state, q) == (bit(
                b0.notifications_state,
                q,
            ) && !slot_expired(b0.notifications_state, b0.booking_request_expiration_times@, q, now))
        &&& bit(b1.notifications_state, p)
        &&& o.penalty == NO_ANSWER_PENALTY * expired_count(
            b0.notifications_state,
            b0.booking_request_expiration_times@,
            now,
            MAX_SUPPORTED_PERSONS as int,
        )
        &&& if o.notify {
            b1.booking_request_expiration_times@ == b0.booking_request_expiration_times@.update(
                p - 1,
                (now + BOOKING_REQUEST_EXPIRATION_SECONDS) as u64,
            )
        } else {
            b1.booking_request_expiration_times@ == b0.booking_request_expiration_times@
        }
    }
}

/// Runs one availability check for `person_number` against one venue's
/// record: skips a venue whose live hold already satisfies the party size,
/// releases an expired hold, sweeps expired requests, and decides whether a
/// fresh outbound notification is due (at most one outstanding per venue and
/// party size).
pub fn prepare_notification(info: &mut BookingInfo, person_number: u8, now: u64) -> (r:
    CheckOutcome)
    requires
        old(info).wf(),
        valid_person_number(person_number),
        now <= u64::MAX - BOOKING_REQUEST_EXPIRATION_SECONDS,
    ensures
        check_transition(*old(info), *final(info), r, person_number, now),
        final(info).wf(),
        0 <= r.penalty <= NO_ANSWER_PENALTY * MAX_SUPPORTED_PERSONS as i32,
{
    if test_bit(info.booking_state, person_number) {
        let hold_expiry = info.get_booking_expiration_time((person_number - 1) as usize);
        if now <= hold_expiry {
            return CheckOutcome { notify: false, penalty: 0 };
        }
        info.booking_state = clear_bit(info.booking_state, person_number);
    }
    let penalty = process_request_expirations(info, now);
    let notify = if !test_bit(info.notifications_state, person_number) {
        info.notifications_state = set_bit(info.notifications_state, person_number);
        info.set_booking_request_expiration_time(
            (person_number - 1) as usize,
            now + BOOKING_REQUEST_EXPIRATION_SECONDS,
        );
        true
    } else {
        false
    };
    CheckOutcome { notify, penalty }
}

/// Law: there is at most one outstanding notification per venue and party
/// size. After a check that issued a notification, the request stays live up
/// to its answer deadline, and any further check inside that window issues
/// nothing.
pub proof fn law_no_duplicate_notification(
    b0: BookingInfo,
    b1: BookingInfo,
    o: CheckOutcome,
    p: u8,
    now: u64,
    later: u64,
)
    requires
        b0.wf(),
        valid_person_number(p),
        now <= u64::MAX - BOOKING_REQUEST_EXPIRATION_SECONDS,
        check_transition(b0, b1, o, p, now),
        o.notify,
        now <= later <= now + BOOKING_REQUEST_EXPIRATION_SECONDS,
    ensures
        b1.request_live(p, later),
        !should_notify(b1, p, later),
{
}

} // verus!
