//! Response collector: validates an inbound operator answer against the
//! venue's record, clears the outstanding request, grants a hold on a "yes",
//! and reports how the answer must be scored. A stale answer — one whose
//! request slot is no longer outstanding — changes nothing.
use vstd::prelude::*;

use crate::booking_info::{bit, clear_bit, set_bit, test_bit, valid_person_number, BookingInfo};
use crate::constants::{BOOKING_EXPIRATION_SECONDS, IN_TIME_ANSWER_BONUS, NOT_IN_TIME_ANSWER_PENALTY};
use crate::score::{apply_score_delta, clamped};

verus! {

/// What became of one inbound answer.
#[derive(Clone, Copy, Debug, PartialEq, Eq, Structural)]
pub enum AnswerOutcome {
    /// The answer was stale: no request was outstanding for that venue and
    /// party size, so nothing changed.
    Stale,
    /// The answer resolved the outstanding request.
    Answered {
        /// The operator said yes: a hold was granted.
        granted: bool,
        /// The answer arrived before the request's answer deadline.
        on_time: bool,
    },
}

/// What one inbound answer does to a record. A stale answer leaves the record
/// untouched; a live one clears its request slot and, on a "yes", grants a
/// hold that runs for the hold window from the answer's arrival — whether or
/// not the answer was timely.
pub open spec fn answer_transition(
    b0: BookingInfo,
    b1: BookingInfo,
    r: AnswerOutcome,
    p: u8,
    granted: bool,
    now: u64,
) -> bool {
    if !bit(b0.notifications_state, p) {
        &&& b1 == b0
        &&& r == AnswerOutcome::Stale
    } else {
        &&& b1.wf()
        &&& b1.restaurant_name == b0.restaurant_name
        &&& r == (AnswerOutcome::Answered {
            granted,
            on_time: now <= b0.booking_request_expiration_times@[p - 1],
        })
        &&& forall|q: u8|
            q < 8 ==> bit(b1.notifications_state, q) == (bit(b0.notifications_state, q) && q != p)
        &&& b1.booking_request_expiration_times@ == b0.booking_request_expiration_times@
        &&& if granted {
            &&& forall|q: u8|
                q < 8 ==> bit(b1.booking_state, q) == (bit(b0.booking_state, q) || q == p)
            &&& b1.booking_expiration_times@ == b0.booking_expiration_times@.update(
                p - 1,
                (now + BOOKING_EXPIRATION_SECONDS) as u64,
            )
        } else {
            &&& b1.booking_state == b0.booking_state
            &&& b1.booking_expiration_times@ == b0.booking_expiration_times@
        }
    }
}

/// Processes one inbound operator answer for `person_number`, received at
/// `now`. A stale answer is ignored outright; a live one clears the request
/// slot, grants the hold on a "yes" (even when the answer is late — only the
/// score treats lateness), and reports whether it was on time.
pub fn process_answer(info: &mut BookingInfo, person_number: u8, granted: bool, now: u64) -> (r:
    AnswerOutcome)
    requires
        old(info).wf(),
        valid_person_number(person_number),
        now <= u64::MAX - BOOKING_EXPIRATION_SECONDS,
    ensures
        answer_transition(*old(info), *final(info), r, person_number, granted, now),
        final(info).wf(),
{
    if !test_bit(info.notifications_state, person_number) {
        return AnswerOutcome::Stale;
    }
    let on_time = now <= info.get_booking_request_expiration_time((person_number - 1) as usize);
    info.notifications_state = clear_bit(info.notifications_state, person_number);
    if granted {
        info.booking_state = set_bit(info.booking_state, person_number);
        info.set_booking_expiration_time(
            (person_number - 1) as usize,
            now + BOOKING_EXPIRATION_SECONDS,
        );
    }
    AnswerOutcome::Answered { granted, on_time }
}

/// The signed score delta an answer earns: the bonus when it was on time,
/// the late penalty otherwise — the same whether the answer was yes or no.
pub open spec fn answer_delta(on_time: bool) -> int {
    if on_time {
        IN_TIME_ANSWER_BONUS as int
    } else {
        -(NOT_IN_TIME_ANSWER_PENALTY as int)
    }
}

/// The venue's score after one resolved answer: bonus for a timely answer,
/// late penalty otherwise, clamped into the allowed band.
pub fn score_after_answer(score: i32, on_time: bool) -> (r: i32)
    ensures
        r as int == clamped(score as int + answer_delta(on_time)),
{
    if on_time {
        apply_score_delta(score, IN_TIME_ANSWER_BONUS)
    } else {
        apply_score_delta(score, -NOT_IN_TIME_ANSWER_PENALTY)
    }
}

/// Law: answers are idempotent. Once the request slot of a venue and party
/// size has been resolved — by an earlier answer or by an expiry sweep — any
/// further answer for that slot changes neither the record nor, there being
/// nothing to score, the venue's score.
pub proof fn law_stale_answer_ignored(
    b0: BookingInfo,
    b1: BookingInfo,
    r: AnswerOutcome,
    p: u8,
    granted: bool,
    now: u64,
)
    requires
        !bit(b0.notifications_state, p),
        answer_transition(b0, b1, r, p, granted, now),
    ensures
        b1 == b0,
        r == AnswerOutcome::Stale,
{
}

} // verus!
