//! Scoring engine: a pure policy mapping how a venue reacted to an outbound
//! availability request (answered in time, answered late, never answered) to a
//! clamped delta on the venue's bounded reliability score.
use vstd::prelude::*;

use crate::constants::{
    IN_TIME_ANSWER_BONUS, MAX_RESTAURANT_SCORE, MIN_RESTAURANT_SCORE, NOT_IN_TIME_ANSWER_PENALTY,
    NO_ANSWER_PENALTY,
};

verus! {

/// How a venue reacted to one outbound availability request, as far as
/// scoring is concerned. The content of an answer (yes or no) does not
/// matter here: only its timing does.
#[derive(Clone, Copy, Debug, PartialEq, Eq, Structural)]
pub enum ScoreEvent {
    /// The operator answered before the request expired.
    AnsweredInTime,
    /// The operator answered, but only after the request had expired.
    AnsweredLate,
    /// The request expired and was swept without any answer.
    NeverAnswered,
}

/// A prospective score, clamped into the allowed band.
pub open spec fn clamped(x: int) -> int {
    if x < MIN_RESTAURANT_SCORE as int {
        MIN_RESTAURANT_SCORE as int
    } else if x > MAX_RESTAURANT_SCORE as int {
        MAX_RESTAURANT_SCORE as int
    } else {
        x
    }
}

/// The signed score delta that one event earns.
pub open spec fn event_delta(event: ScoreEvent) -> int {
    match event {
        ScoreEvent::AnsweredInTime => IN_TIME_ANSWER_BONUS as int,
        ScoreEvent::AnsweredLate => -(NOT_IN_TIME_ANSWER_PENALTY as int),
        ScoreEvent::NeverAnswered => -(NO_ANSWER_PENALTY as int),
    }
}

/// The score that a sequence of events leaves behind, each delta applied
/// through the clamp.
pub open spec fn score_after_events(init: int, events: Seq<ScoreEvent>) -> int
    decreases events.len(),
{
    if events.len() == 0 {
        init
    } else {
        clamped(score_after_events(init, events.drop_last()) + event_delta(events.last()))
    }
}

/// Applies one signed delta to a score, clamping the result into the
/// allowed band.
pub fn apply_score_delta(score: i32, delta: i32) -> (r: i32)
    ensures
        r as int == clamped(score as int + delta as int),
        MIN_RESTAURANT_SCORE <= r <= MAX_RESTAURANT_SCORE,
{
    let wide: i64 = score as i64 + delta as i64;
    if wide < MIN_RESTAURANT_SCORE as i64 {
        MIN_RESTAURANT_SCORE
    } else if wide > MAX_RESTAURANT_SCORE as i64 {
        MAX_RESTAURANT_SCORE
    } else {
        wide as i32
    }
}

/// The executable counterpart of [`event_delta`].
pub fn score_event_delta(event: ScoreEvent) -> (r: i32)
    ensures
        r as int == event_delta(event),
{
    match event {
        ScoreEvent::AnsweredInTime => IN_TIME_ANSWER_BONUS,
        ScoreEvent::AnsweredLate => -NOT_IN_TIME_ANSWER_PENALTY,
        ScoreEvent::NeverAnswered => -NO_ANSWER_PENALTY,
    }
}

/// Applies one scoring event to a score.
pub fn apply_score_event(score: i32, event: ScoreEvent) -> (r: i32)
    ensures
        r as int == clamped(score as int + event_delta(event)),
        MIN_RESTAURANT_SCORE <= r <= MAX_RESTAURANT_SCORE,
{
    let delta = score_event_delta(event);
    apply_score_delta(score, delta)
}

/// Law: however long the sequence of bonus and penalty applications, a score
/// that starts inside the allowed band stays inside it.
pub proof fn law_score_stays_bounded(init: int, events: Seq<ScoreEvent>)
    requires
        MIN_RESTAURANT_SCORE <= init <= MAX_RESTAURANT_SCORE,
    ensures
        MIN_RESTAURANT_SCORE <= score_after_events(init, events) <= MAX_RESTAURANT_SCORE,
    decreases events.len(),
{
    if events.len() > 0 {
        law_score_stays_bounded(init, events.drop_last());
    }
}

} // verus!
