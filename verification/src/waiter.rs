//! Availability waiter: one instance per end-user request. It snapshots the
//! booking records of the candidate venues, collects published answer events
//! for the remaining ones until every venue has resolved or the deadline
//! fires, and finalizes the granted set ranked by descending reliability
//! score, then ascending venue id.
use vstd::prelude::*;

use crate::booking_info::{bit, clear_bit, test_bit, valid_person_number, BookingInfo};
use crate::collector::answer_transition;
use crate::constants::{BOOKING_EXPIRATION_SECONDS, BOOKING_REQUEST_EXPIRATION_SECONDS};
use crate::store::BookingStateStore;

verus! {

broadcast use vstd::seq_lib::group_seq_properties;

/// Whether `v` holds `x`.
fn contains_id(v: &Vec<i32>, x: i32) -> (r: bool)
    ensures
        r == v@.contains(x),
{
    let mut j: usize = 0;
    while j < v.len()
        invariant
            j <= v@.len(),
            forall|k: int| 0 <= k < j ==> v@[k] != x,
        decreases v@.len() - j,
    {
        if v[j] == x {
            return true;
        }
        j = j + 1;
    }
    false
}

/// The position of `x` in `v`, if it occurs.
fn index_of_id(v: &Vec<i32>, x: i32) -> (r: Option<usize>)
    ensures
        match r {
            Some(i) => i < v@.len() && v@[i as int] == x,
            None => !v@.contains(x),
        },
{
    let mut j: usize = 0;
    while j < v.len()
        invariant
            j <= v@.len(),
            forall|k: int| 0 <= k < j ==> v@[k] != x,
        decreases v@.len() - j,
    {
        if v[j] == x {
            return Some(j);
        }
        j = j + 1;
    }
    None
}

/// Removing position `i` from a duplicate-free sequence keeps it
/// duplicate-free and drops exactly the element that stood there.
proof fn lemma_remove_keeps_set(s: Seq<i32>, i: int)
    requires
        s.no_duplicates(),
        0 <= i < s.len(),
    ensures
        s.remove(i).no_duplicates(),
        s.remove(i).len() == s.len() - 1,
        forall|x: i32| s.remove(i).contains(x) <==> (s.contains(x) && x != s[i]),
{
    s.remove_ensures(i);
    let s2 = s.remove(i);
    assert forall|a: int, b: int| 0 <= a < s2.len() && 0 <= b < s2.len() && a != b implies s2[a]
        != s2[b] by {
        let a0: int = if a < i {
            a
        } else {
            a + 1
        };
        let b0: int = if b < i {
            b
        } else {
            b + 1
        };
        assert(s2[a] == s[a0]);
        assert(s2[b] == s[b0]);
    }
    assert forall|x: i32| s2.contains(x) implies (s.contains(x) && x != s[i]) by {
        let k = choose|k: int| 0 <= k < s2.len() && s2[k] == x;
        let k0: int = if k < i {
            k
        } else {
            k + 1
        };
        assert(s[k0] == x);
        assert(s.contains(x));
    }
    assert forall|x: i32| s.contains(x) && x != s[i] implies s2.contains(x) by {
        let k = choose|k: int| 0 <= k < s.len() && s[k] == x;
        if k < i {
            assert(s2[k] == x);
        } else {
            assert(s2[k - 1] == x);
        }
    }
}

/// Pushing a fresh element onto a duplicate-free sequence keeps it
/// duplicate-free.
pub proof fn lemma_push_unique(s: Seq<i32>, x: i32)
    requires
        s.no_duplicates(),
        !s.contains(x),
    ensures
        s.push(x).no_duplicates(),
{
    let s2 = s.push(x);
    assert forall|a: int, b: int| 0 <= a < s2.len() && 0 <= b < s2.len() && a != b implies s2[a]
        != s2[b] by {
        if a < s.len() && b < s.len() {
        } else if b == s.len() {
            if s2[a] == x {
                assert(s.contains(x));
            }
        } else {
            if s2[b] == x {
                assert(s.contains(x));
            }
        }
    }
}

/// One end-user availability request in flight: the party size it asked for,
/// the candidate venues still awaited, and the venues recorded as granted so
/// far, in arrival order.
pub struct AvailabilityWaiter {
    pub person_number: u8,
    pub awaited: Vec<i32>,
    pub answered: Vec<i32>,
}

impl AvailabilityWaiter {
    /// Both id lists are duplicate-free and no venue is in both.
    pub open spec fn wf(&self) -> bool {
        &&& self.awaited@.no_duplicates()
        &&& self.answered@.no_duplicates()
        &&& forall|x: i32| self.answered@.contains(x) ==> !self.awaited@.contains(x)
    }

    /// Starts a waiter over the candidate set: every candidate is awaited
    /// (each only once, however often it occurs), none granted yet.
    pub fn new(person_number: u8, candidate_ids: &Vec<i32>) -> (r: AvailabilityWaiter)
        requires
            valid_person_number(person_number),
        ensures
            r.wf(),
            r.person_number == person_number,
            r.answered@ == Seq::<i32>::empty(),
            forall|x: i32| r.awaited@.contains(x) <==> candidate_ids@.contains(x),
    {
        let mut awaited: Vec<i32> = Vec::new();
        let mut j: usize = 0;
        while j < candidate_ids.len()
            invariant
                j <= candidate_ids@.len(),
                awaited@.no_duplicates(),
                forall|x: i32|
                    awaited@.contains(x) <==> candidate_ids@.take(j as int).contains(x),
            decreases candidate_ids@.len() - j,
        {
            let id = candidate_ids[j];
            proof {
                assert(candidate_ids@.take(j + 1) =~= candidate_ids@.take(j as int).push(
                    candidate_ids@[j as int],
                ));
            }
            if !contains_id(&awaited, id) {
                proof {
                    lemma_push_unique(awaited@, id);
                }
                awaited.push(id);
            }
            j = j + 1;
        }
        proof {
            assert(candidate_ids@.take(candidate_ids@.len() as int) =~= candidate_ids@);
        }
        AvailabilityWaiter { person_number, awaited, answered: Vec::new() }
    }

    /// No venue is awaited any more: the request has fully resolved.
    pub fn is_done(&self) -> (r: bool)
        ensures
            r == (self.awaited@.len() == 0),
    {
        self.awaited.is_empty()
    }

    /// The venues recorded as granted so far, in arrival order.
    pub fn answered_ids(&self) -> (r: &Vec<i32>)
        ensures
            r@ == self.answered@,
    {
        &self.answered
    }

    /// Replays one venue's snapshotted record: a venue whose live hold
    /// already satisfies the party size is recorded as granted and no longer
    /// awaited; an expired hold is released on the spot; anything else leaves
    /// both the waiter and the record alone.
    pub fn snapshot_venue(&mut self, venue_id: i32, info: &mut BookingInfo, now: u64) -> (taken:
        bool)
        requires
            old(self).wf(),
            old(info).wf(),
            valid_person_number(old(self).person_number),
            old(self).awaited@.contains(venue_id),
        ensures
            final(self).wf(),
            final(info).wf(),
            final(self).person_number == old(self).person_number,
            taken == old(info).hold_live(old(self).person_number, now),
            final(info).notifications_state == old(info).notifications_state,
            final(info).booking_request_expiration_times@ == old(
                info,
            ).booking_request_expiration_times@,
            final(info).booking_expiration_times@ == old(info).booking_expiration_times@,
            final(info).restaurant_name == old(info).restaurant_name,
            forall|q: u8|
                q < 8 ==> bit(final(info).booking_state, q) == (bit(old(info).booking_state, q)
                    && !(q == old(self).person_number && !old(info).hold_live(
                    old(self).person_number,
                    now,
                ))),
            taken ==> {
                &&& final(self).answered@ == old(self).answered@.push(venue_id)
                &&& final(self).awaited@.len() == old(self).awaited@.len() - 1
                &&& forall|x: i32|
                    final(self).awaited@.contains(x) <==> (old(self).awaited@.contains(x) && x
                        != venue_id)
            },
            !taken ==> *final(self) == *old(self),
    {
        let p = self.person_number;
        if test_bit(info.booking_state, p) {
            let hold_expiry = info.get_booking_expiration_time((p - 1) as usize);
            if now > hold_expiry {
                info.booking_state = clear_bit(info.booking_state, p);
                return false;
            }
            let idx = index_of_id(&self.awaited, venue_id);
            match idx {
                Some(i) => {
                    proof {
                        lemma_remove_keeps_set(self.awaited@, i as int);
                        lemma_push_unique(self.answered@, venue_id);
                    }
                    self.awaited.remove(i);
                    self.answered.push(venue_id);
                    true
                },
                None => {
                    // unreachable: the caller only snapshots awaited venues
                    false
                },
            }
        } else {
            false
        }
    }

    /// Reacts to one published answer event. An event for another party size
    /// or for a venue that is not awaited (already resolved, or never a
    /// candidate) is ignored; otherwise the venue stops being awaited and a
    /// granting answer is recorded.
    pub fn on_answer(&mut self, venue_id: i32, granted: bool, answer_person_number: u8) -> (
        accepted: bool)
        requires
            old(self).wf(),
        ensures
            final(self).wf(),
            final(self).person_number == old(self).person_number,
            accepted == (answer_person_number == old(self).person_number
                && old(self).awaited@.contains(venue_id)),
            accepted ==> {
                &&& final(self).awaited@.len() == old(self).awaited@.len() - 1
                &&& forall|x: i32|
                    final(self).awaited@.contains(x) <==> (old(self).awaited@.contains(x) && x
                        != venue_id)
            },
            (accepted && granted) ==> final(self).answered@ == old(self).answered@.push(venue_id),
            (accepted && !granted) ==> final(self).answered@ == old(self).answered@,
            !accepted ==> *final(self) == *old(self),
    {
        if answer_person_number != self.person_number {
            return false;
        }
        let idx = index_of_id(&self.awaited, venue_id);
        match idx {
            Some(i) => {
                proof {
                    lemma_remove_keeps_set(self.awaited@, i as int);
                    lemma_push_unique(self.answered@, venue_id);
                }
                self.awaited.remove(i);
                if granted {
                    self.answered.push(venue_id);
                }
                true
            },
            None => false,
        }
    }
}

/// The snapshot counts a venue as granted: the store manages it and its
/// record holds a live table for the party size.
pub open spec fn snapshot_taken(store: BookingStateStore, x: i32, p: u8, now: u64) -> bool {
    store.has_venue(x) && store.infos@[store.ids@.index_of(x)].hold_live(p, now)
}

fn copy_ids(v: &Vec<i32>) -> (r: Vec<i32>)
    ensures
        r@ == v@,
{
    let mut r: Vec<i32> = Vec::new();
    let mut j: usize = 0;
    while j < v.len()
        invariant
            j <= v@.len(),
            r@ == v@.take(j as int),
        decreases v@.len() - j,
    {
        proof {
            assert(v@.take(j + 1) =~= v@.take(j as int).push(v@[j as int]));
        }
        r.push(v[j]);
        j = j + 1;
    }
    proof {
        assert(v@.take(v@.len() as int) =~= v@);
    }
    r
}

impl AvailabilityWaiter {
    /// Replays the whole snapshot against the store: every awaited venue with
    /// a live hold is recorded as granted and stops being awaited, expired
    /// holds are released on the spot, and a venue the store does not manage
    /// stops being awaited without being granted.
    pub fn snapshot_command(&mut self, store: &mut BookingStateStore, now: u64)
        requires
            old(self).wf(),
            old(store).wf(),
            valid_person_number(old(self).person_number),
        ensures
            final(self).wf(),
            final(store).wf(),
            final(self).person_number == old(self).person_number,
            final(store).ids@ == old(store).ids@,
            final(self).answered@ == old(self).answered@ + old(self).awaited@.filter(
                |x: i32| snapshot_taken(*old(store), x, old(self).person_number, now),
            ),
            forall|x: i32|
                #![trigger final(self).awaited@.contains(x)]
                final(self).awaited@.contains(x) <==> (old(self).awaited@.contains(x) && old(
                    store,
                ).has_venue(x) && !snapshot_taken(*old(store), x, old(self).person_number, now)),
            forall|i: int|
                #![trigger old(store).infos@[i]]
                0 <= i < old(store).ids@.len() ==> {
                    let b0 = old(store).infos@[i];
                    let b1 = final(store).infos@[i];
                    if old(self).awaited@.contains(old(store).ids@[i]) {
                        &&& b1.notifications_state == b0.notifications_state
                        &&& b1.booking_request_expiration_times@
                            == b0.booking_request_expiration_times@
                        &&& b1.booking_expiration_times@ == b0.booking_expiration_times@
                        &&& b1.restaurant_name == b0.restaurant_name
                        &&& forall|q: u8|
                            q < 8 ==> bit(b1.booking_state, q) == (bit(b0.booking_state, q) && !(q
                                == old(self).person_number && !b0.hold_live(
                                old(self).person_number,
                                now,
                            )))
                    } else {
                        b1 == b0
                    }
                },
    {
        let ghost s0 = *self;
        let ghost st0 = *store;
        let ghost p = self.person_number;
        let ghost pred = |x: i32| snapshot_taken(st0, x, p, now);
        let snapshot_ids = copy_ids(&self.awaited);
        let mut j: usize = 0;
        while j < snapshot_ids.len()
            invariant
                self.wf(),
                store.wf(),
                s0.wf(),
                st0.wf(),
                valid_person_number(p),
                p == self.person_number,
                p == s0.person_number,
                snapshot_ids@ == s0.awaited@,
                pred == (|x: i32| snapshot_taken(st0, x, p, now)),
                j <= snapshot_ids@.len(),
                store.ids@ == st0.ids@,
                store.infos@.len() == st0.infos@.len(),
                self.answered@ == s0.answered@ + snapshot_ids@.take(j as int).filter(pred),
                forall|x: i32|
                    #![trigger self.awaited@.contains(x)]
                    self.awaited@.contains(x) <==> (s0.awaited@.contains(x) && !(
                    snapshot_ids@.take(j as int).contains(x) && (!st0.has_venue(x)
                        || snapshot_taken(st0, x, p, now)))),
                forall|i: int|
                    #![trigger st0.infos@[i]]
                    0 <= i < st0.ids@.len() ==> {
                        let b0 = st0.infos@[i];
                        let b1 = store.infos@[i];
                        if snapshot_ids@.take(j as int).contains(st0.ids@[i]) {
                            &&& b1.notifications_state == b0.notifications_state
                            &&& b1.booking_request_expiration_times@
                                == b0.booking_request_expiration_times@
                            &&& b1.booking_expiration_times@ == b0.booking_expiration_times@
                            &&& b1.restaurant_name == b0.restaurant_name
                            &&& forall|q: u8|
                                q < 8 ==> bit(b1.booking_state, q) == (bit(b0.booking_state, q)
                                    && !(q == p && !b0.hold_live(p, now)))
                        } else {
                            b1 == b0
                        }
                    },
            decreases snapshot_ids@.len() - j,
        {
            let id = snapshot_ids[j];
            let ghost prefix = snapshot_ids@.take(j as int);
            proof {
                // `id` occurs only once in the snapshot, so it has not been
                // processed yet and is still awaited
                assert(snapshot_ids@.no_duplicates());
                if prefix.contains(id) {
                    let k = choose|k: int| 0 <= k < prefix.len() && prefix[k] == id;
                    assert(snapshot_ids@[k] == snapshot_ids@[j as int]);
                    assert(false);
                }
                assert(snapshot_ids@.take(j + 1) =~= prefix.push(id));
                assert(snapshot_ids@.take(j + 1).drop_last() =~= prefix);
                assert(s0.awaited@[j as int] == id);
                assert(self.awaited@.contains(id));
            }
            let ghost self_pre = *self;
            let ghost store_pre = *store;
            let position = store.position_of(id);
            match position {
                Some(i) => {
                    let taken = {
                        let info = store.venue_info(i);
                        self.snapshot_venue(id, info, now)
                    };
                    proof {
                        assert(store_pre.infos@[i as int] == st0.infos@[i as int]);
                        assert(store.infos@ == store_pre.infos@.update(
                            i as int,
                            store.infos@[i as int],
                        ));
                        assert(st0.ids@.contains(id));
                        assert(st0.ids@.index_of(id) == i as int);
                        assert(taken == pred(id));
                        reveal(Seq::filter);
                        if taken {
                            assert(snapshot_ids@.take(j + 1).filter(pred) == prefix.filter(
                                pred,
                            ).push(id));
                        } else {
                            assert(snapshot_ids@.take(j + 1).filter(pred) == prefix.filter(pred));
                            assert(*self == self_pre);
                        }
                        assert(self.answered@ == s0.answered@ + snapshot_ids@.take(j + 1).filter(
                            pred,
                        ));
                        assert forall|i2: int|
                            0 <= i2 < st0.ids@.len() && i2 != i as int implies store.infos@[i2]
                            == store_pre.infos@[i2] by {}
                        assert forall|x: i32|
                            self.awaited@.contains(x) <==> (s0.awaited@.contains(x) && !(
                        snapshot_ids@.take(j + 1).contains(x) && (!st0.has_venue(x)
                            || snapshot_taken(st0, x, p, now)))) by {
                            assert(snapshot_ids@.take(j + 1).contains(x) == (prefix.contains(x)
                                || x == id));
                        }
                    }
                },
                None => {
                    proof {
                        assert(!st0.has_venue(id));
                        assert(!pred(id));
                        reveal(Seq::filter);
                        assert(snapshot_ids@.take(j + 1).filter(pred) == prefix.filter(pred));
                    }
                    self.on_answer(id, false, self.person_number);
                    proof {
                        assert forall|x: i32|
                            self.awaited@.contains(x) <==> (s0.awaited@.contains(x) && !(
                        snapshot_ids@.take(j + 1).contains(x) && (!st0.has_venue(x)
                            || snapshot_taken(st0, x, p, now)))) by {
                            assert(snapshot_ids@.take(j + 1).contains(x) == (prefix.contains(x)
                                || x == id));
                        }
                    }
                },
            }
            j = j + 1;
        }
        proof {
            assert(snapshot_ids@.take(snapshot_ids@.len() as int) =~= snapshot_ids@);
        }
    }
}

/// Law: a granted venue in the final result is backed by a hold. When a
/// granting answer resolves an outstanding request while a waiter is
/// collecting — at or after the waiter started, at or before it finalizes,
/// with the deadline no more than the request window after the start — then
/// at finalization time the hold bit of that venue and party size is still
/// set and the hold has not yet expired.
pub proof fn law_granted_backed_by_hold(
    b0: BookingInfo,
    b1: BookingInfo,
    r: crate::collector::AnswerOutcome,
    p: u8,
    answered_at: u64,
    started_at: u64,
    finalized_at: u64,
)
    requires
        b0.wf(),
        valid_person_number(p),
        answered_at <= u64::MAX - BOOKING_EXPIRATION_SECONDS,
        bit(b0.notifications_state, p),
        answer_transition(b0, b1, r, p, true, answered_at),
        started_at <= answered_at <= finalized_at,
        finalized_at <= started_at + BOOKING_REQUEST_EXPIRATION_SECONDS,
    ensures
        b1.hold_live(p, answered_at),
        b1.hold_live(p, finalized_at),
{
}

/// Law: a hold that a waiter's snapshot counts as granted is still live when
/// the waiter finalizes, as long as it was granted no earlier than the waiter
/// started. (A hold granted before the waiter started may expire while the
/// waiter is still collecting: the hold window starts at the grant, not at
/// the snapshot.)
pub proof fn law_snapshot_hold_outlives_wait(
    b: BookingInfo,
    p: u8,
    granted_at: u64,
    snapped_at: u64,
    started_at: u64,
    finalized_at: u64,
)
    requires
        b.wf(),
        valid_person_number(p),
        bit(b.booking_state, p),
        b.booking_expiration_times@[p - 1] == granted_at + BOOKING_EXPIRATION_SECONDS,
        granted_at <= u64::MAX - BOOKING_EXPIRATION_SECONDS,
        started_at <= granted_at,
        started_at <= snapped_at <= finalized_at,
        finalized_at <= started_at + BOOKING_REQUEST_EXPIRATION_SECONDS,
    ensures
        b.hold_live(p, finalized_at),
{
}

} // verus!
