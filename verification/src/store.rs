//! Booking state store: one record per venue, keyed by venue id. A venue id
//! that the store does not manage is treated as "not a managed venue": every
//! operation on it is a no-op that reports the absence.
use vstd::prelude::*;

use crate::booking_info::{valid_person_number, BookingInfo};
use crate::collector::{answer_transition, process_answer, AnswerOutcome};
use crate::constants::{BOOKING_EXPIRATION_SECONDS, BOOKING_REQUEST_EXPIRATION_SECONDS};
use crate::dispatcher::{check_outcome_of, check_transition, prepare_notification, CheckOutcome};

verus! {

broadcast use vstd::seq_lib::group_seq_properties;

/// All managed venues with their booking records: `infos[i]` belongs to the
/// venue `ids[i]`.
pub struct BookingStateStore {
    pub ids: Vec<i32>,
    pub infos: Vec<BookingInfo>,
}

impl BookingStateStore {
    /// Ids are unique, every id has a record, and every record is well
    /// formed.
    pub open spec fn wf(&self) -> bool {
        &&& self.ids@.no_duplicates()
        &&& self.ids@.len() == self.infos@.len()
        &&& forall|i: int| 0 <= i < self.infos@.len() ==> (#[trigger] self.infos@[i]).wf()
    }

    /// The store manages the venue.
    pub open spec fn has_venue(&self, venue_id: i32) -> bool {
        self.ids@.contains(venue_id)
    }

    /// An empty store.
    pub fn new() -> (r: BookingStateStore)
        ensures
            r.wf(),
            r.ids@ == Seq::<i32>::empty(),
            r.infos@ == Seq::<BookingInfo>::empty(),
    {
        BookingStateStore { ids: Vec::new(), infos: Vec::new() }
    }

    /// Puts a fresh record in for a venue. A venue that is already managed
    /// keeps its record: registration is idempotent.
    pub fn register_venue(&mut self, venue_id: i32, restaurant_name: String)
        requires
            old(self).wf(),
        ensures
            final(self).wf(),
            final(self).has_venue(venue_id),
            old(self).has_venue(venue_id) ==> *final(self) == *old(self),
            !old(self).has_venue(venue_id) ==> {
                &&& final(self).ids@ == old(self).ids@.push(venue_id)
                &&& final(self).infos@.len() == old(self).infos@.len() + 1
                &&& forall|i: int|
                    0 <= i < old(self).infos@.len() ==> final(self).infos@[i] == old(
                        self,
                    ).infos@[i]
                &&& final(self).infos@.last().booking_state == 0
                &&& final(self).infos@.last().notifications_state == 0
                &&& final(self).infos@.last().restaurant_name == restaurant_name
            },
    {
        let present = self.position_of(venue_id);
        if present.is_none() {
            proof {
                crate::waiter::lemma_push_unique(self.ids@, venue_id);
            }
            self.ids.push(venue_id);
            self.infos.push(BookingInfo::new(restaurant_name));
        }
    }

    /// Where the record of a venue stands, if the store manages it.
    pub fn position_of(&self, venue_id: i32) -> (r: Option<usize>)
        requires
            self.wf(),
        ensures
            match r {
                Some(i) => i < self.ids@.len() && self.ids@[i as int] == venue_id,
                None => !self.has_venue(venue_id),
            },
    {
        let mut j: usize = 0;
        while j < self.ids.len()
            invariant
                j <= self.ids@.len(),
                forall|k: int| 0 <= k < j ==> self.ids@[k] != venue_id,
            decreases self.ids@.len() - j,
        {
            if self.ids[j] == venue_id {
                return Some(j);
            }
            j = j + 1;
        }
        None
    }

    /// Borrows one venue's record for an atomic read-modify-write. Only that
    /// record changes; the store stays well formed as long as the caller
    /// leaves the record well formed.
    pub fn venue_info(&mut self, index: usize) -> (r: &mut BookingInfo)
        requires
            old(self).wf(),
            index < old(self).infos@.len(),
        ensures
            *r == old(self).infos@[index as int],
            final(self).ids@ == old(self).ids@,
            final(self).infos@ == old(self).infos@.update(index as int, *final(r)),
            final(r).wf() ==> final(self).wf(),
    {
        &mut self.infos[index]
    }

    /// Runs one availability check against one venue: decides whether a
    /// fresh outbound notification is due and sweeps that venue's expired
    /// requests. A venue the store does not manage is left alone and `None`
    /// says so.
    pub fn dispatch_check(&mut self, venue_id: i32, person_number: u8, now: u64) -> (r: Option<
        CheckOutcome,
    >)
        requires
            old(self).wf(),
            valid_person_number(person_number),
            now <= u64::MAX - BOOKING_REQUEST_EXPIRATION_SECONDS,
        ensures
            final(self).wf(),
            final(self).ids@ == old(self).ids@,
            r.is_some() == old(self).has_venue(venue_id),
            r.is_none() ==> *final(self) == *old(self),
            r.is_some() ==> exists|i: int|
                {
                    &&& 0 <= i < old(self).ids@.len()
                    &&& old(self).ids@[i] == venue_id
                    &&& final(self).infos@ == old(self).infos@.update(
                        i,
                        #[trigger] final(self).infos@[i],
                    )
                    &&& check_transition(
                        old(self).infos@[i],
                        final(self).infos@[i],
                        r.unwrap(),
                        person_number,
                        now,
                    )
                },
    {
        let position = self.position_of(venue_id);
        match position {
            None => None,
            Some(i) => {
                let ghost snapshot = *self;
                let info = self.venue_info(i);
                let outcome = prepare_notification(info, person_number, now);
                proof {
                    assert(self.infos@ =~= snapshot.infos@.update(
                        i as int,
                        self.infos@[i as int],
                    ));
                }
                Some(outcome)
            },
        }
    }

    /// Processes one availability command against the whole candidate set:
    /// every managed candidate gets one check (skip, sweep, or fresh
    /// notification), unmanaged candidates and unrelated venues stay
    /// untouched, and the managed candidates come back in candidate order,
    /// each with the outcome its record determined.
    pub fn dispatch_command(
        &mut self,
        candidate_venues: &Vec<i32>,
        person_number: u8,
        now: u64,
    ) -> (r: Vec<(i32, CheckOutcome)>)
        requires
            old(self).wf(),
            candidate_venues@.no_duplicates(),
            valid_person_number(person_number),
            now <= u64::MAX - BOOKING_REQUEST_EXPIRATION_SECONDS,
        ensures
            final(self).wf(),
            final(self).ids@ == old(self).ids@,
            r@.map_values(|t: (i32, CheckOutcome)| t.0) == candidate_venues@.filter(
                |id: i32| old(self).has_venue(id),
            ),
            forall|i: int|
                0 <= i < old(self).ids@.len() ==> if candidate_venues@.contains(
                    #[trigger] old(self).ids@[i],
                ) {
                    check_transition(
                        old(self).infos@[i],
                        final(self).infos@[i],
                        check_outcome_of(old(self).infos@[i], person_number, now),
                        person_number,
                        now,
                    )
                } else {
                    final(self).infos@[i] == old(self).infos@[i]
                },
    {
        let ghost s0 = *self;
        let ghost pred = |id: i32| s0.has_venue(id);
        let mut results: Vec<(i32, CheckOutcome)> = Vec::new();
        let mut j: usize = 0;
        while j < candidate_venues.len()
            invariant
                self.wf(),
                s0.wf(),
                candidate_venues@.no_duplicates(),
                valid_person_number(person_number),
                now <= u64::MAX - BOOKING_REQUEST_EXPIRATION_SECONDS,
                j <= candidate_venues@.len(),
                pred == (|id: i32| s0.has_venue(id)),
                self.ids@ == s0.ids@,
                self.infos@.len() == s0.infos@.len(),
                results@.map_values(|t: (i32, CheckOutcome)| t.0) == candidate_venues@.take(
                    j as int,
                ).filter(pred),
                forall|i: int|
                    0 <= i < s0.ids@.len() ==> if candidate_venues@.take(j as int).contains(
                        #[trigger] s0.ids@[i],
                    ) {
                        check_transition(
                            s0.infos@[i],
                            self.infos@[i],
                            check_outcome_of(s0.infos@[i], person_number, now),
                            person_number,
                            now,
                        )
                    } else {
                        self.infos@[i] == s0.infos@[i]
                    },
            decreases candidate_venues@.len() - j,
        {
            let id = candidate_venues[j];
            let ghost prefix = candidate_venues@.take(j as int);
            let ghost results0 = results@;
            proof {
                // `id` is fresh among the processed candidates
                if prefix.contains(id) {
                    let k = choose|k: int| 0 <= k < prefix.len() && prefix[k] == id;
                    assert(candidate_venues@[k] == candidate_venues@[j as int]);
                }
                assert(candidate_venues@.take(j + 1) =~= prefix.push(id));
                assert(candidate_venues@.take(j + 1).drop_last() =~= prefix);
            }
            let ghost pre = *self;
            let outcome_opt = self.dispatch_check(id, person_number, now);
            match outcome_opt {
                Some(outcome) => {
                    proof {
                        let i = choose|i: int|
                            {
                                &&& 0 <= i < pre.ids@.len()
                                &&& pre.ids@[i] == id
                                &&& self.infos@ == pre.infos@.update(
                                    i,
                                    #[trigger] self.infos@[i],
                                )
                                &&& check_transition(
                                    pre.infos@[i],
                                    self.infos@[i],
                                    outcome,
                                    person_number,
                                    now,
                                )
                            };
                        assert(pre.infos@[i] == s0.infos@[i]);
                        assert(outcome == check_outcome_of(s0.infos@[i], person_number, now));
                        assert forall|i2: int|
                            0 <= i2 < s0.ids@.len() implies if candidate_venues@.take(
                            j + 1,
                        ).contains(#[trigger] s0.ids@[i2]) {
                            check_transition(
                                s0.infos@[i2],
                                self.infos@[i2],
                                check_outcome_of(s0.infos@[i2], person_number, now),
                                person_number,
                                now,
                            )
                        } else {
                            self.infos@[i2] == s0.infos@[i2]
                        } by {
                            if i2 != i {
                                assert(s0.ids@[i2] != id);
                                assert(self.infos@[i2] == pre.infos@[i2]);
                            }
                        }
                        assert(results0.push((id, outcome)).map_values(
                            |t: (i32, CheckOutcome)| t.0,
                        ) =~= results0.map_values(|t: (i32, CheckOutcome)| t.0).push(id));
                        assert(s0.has_venue(id));
                        assert(candidate_venues@.take(j + 1).last() == id);
                        assert(pred(id));
                        reveal(Seq::filter);
                        assert(candidate_venues@.take(j + 1).filter(pred) == prefix.filter(
                            pred,
                        ).push(id));
                    }
                    results.push((id, outcome));
                },
                None => {
                    proof {
                        assert(!s0.has_venue(id));
                        assert forall|i2: int| 0 <= i2 < s0.ids@.len() implies s0.ids@[i2]
                            != id by {}
                        assert(candidate_venues@.take(j + 1).last() == id);
                        assert(!pred(id));
                        reveal(Seq::filter);
                        assert(candidate_venues@.take(j + 1).filter(pred) == prefix.filter(pred));
                    }
                },
            }
            j = j + 1;
        }
        proof {
            assert(candidate_venues@.take(candidate_venues@.len() as int) =~= candidate_venues@);
        }
        results
    }

    /// Feeds one inbound operator answer to one venue's record: a stale
    /// answer changes nothing, a live one resolves the request and grants the
    /// hold on a "yes". A venue the store does not manage is left alone and
    /// `None` says so.
    pub fn collect_answer(
        &mut self,
        venue_id: i32,
        person_number: u8,
        granted: bool,
        now: u64,
    ) -> (r: Option<AnswerOutcome>)
        requires
            old(self).wf(),
            valid_person_number(person_number),
            now <= u64::MAX - BOOKING_EXPIRATION_SECONDS,
        ensures
            final(self).wf(),
            final(self).ids@ == old(self).ids@,
            r.is_some() == old(self).has_venue(venue_id),
            r.is_none() ==> *final(self) == *old(self),
            r.is_some() ==> exists|i: int|
                {
                    &&& 0 <= i < old(self).ids@.len()
                    &&& old(self).ids@[i] == venue_id
                    &&& final(self).infos@ == old(self).infos@.update(
                        i,
                        #[trigger] final(self).infos@[i],
                    )
                    &&& answer_transition(
                        old(self).infos@[i],
                        final(self).infos@[i],
                        r.unwrap(),
                        person_number,
                        granted,
                        now,
                    )
                },
    {
        let position = self.position_of(venue_id);
        match position {
            None => None,
            Some(i) => {
                let ghost snapshot = *self;
                let info = self.venue_info(i);
                let outcome = process_answer(info, person_number, granted, now);
                proof {
                    assert(self.infos@ =~= snapshot.infos@.update(
                        i as int,
                        self.infos@[i as int],
                    ));
                }
                Some(outcome)
            },
        }
    }
}

} // verus!
