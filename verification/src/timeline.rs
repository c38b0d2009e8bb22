//! The transitions of a zone as a map from instants to records, and what
//! it means to look an instant up in it.

use crate::body::ZoneBodyView;
use crate::tables::TransitionTimeFlag;
use crate::zone::ZoneInfoElementView;
use vstd::prelude::*;

verus! {

/// Whether `instant` is the latest of `instants` that lies before `bound`.
pub open spec fn is_latest_before(instants: Set<i64>, instant: i64, bound: i64) -> bool {
    &&& instants.contains(instant)
    &&& instant < bound
    &&& forall|other: i64| #[trigger] instants.contains(other) && other < bound ==> other <= instant
}

/// The latest of `instants` that lies before `bound`, if any does.
pub open spec fn latest_before(instants: Set<i64>, bound: i64) -> Option<i64> {
    if exists|instant: i64| is_latest_before(instants, instant, bound) {
        Some(choose|instant: i64| is_latest_before(instants, instant, bound))
    } else {
        None
    }
}

/// Whether `instant` is the earliest of `instants` that does not lie before
/// `bound`.
pub open spec fn is_earliest_from(instants: Set<i64>, instant: i64, bound: i64) -> bool {
    &&& instants.contains(instant)
    &&& instant >= bound
    &&& forall|other: i64|
        #[trigger] instants.contains(other) && other >= bound ==> instant <= other
}

/// The earliest of `instants` that does not lie before `bound`, if there is
/// one.
pub open spec fn earliest_from(instants: Set<i64>, bound: i64) -> Option<i64> {
    if exists|instant: i64| is_earliest_from(instants, instant, bound) {
        Some(choose|instant: i64| is_earliest_from(instants, instant, bound))
    } else {
        None
    }
}

impl ZoneBodyView {
    /// The record of the local time type `type_index`. A type beyond the end
    /// of a flag table counts as wall clock time, and as local time.
    pub open spec fn element(self, type_index: int) -> ZoneInfoElementView {
        ZoneInfoElementView {
            ut_offset: self.local_times[type_index].ut_offset,
            isdst: self.local_times[type_index].isdst,
            abbreviation: self.local_times[type_index].abbreviation,
            wall_clock_or_standard: if type_index < self.std_wall_flags.len() {
                self.std_wall_flags[type_index]
            } else {
                TransitionTimeFlag::WallClock
            },
            local_or_universal_time: if type_index < self.ut_local_flags.len() {
                self.ut_local_flags[type_index]
            } else {
                TransitionTimeFlag::Local
            },
        }
    }

    /// The map that the first `count` transitions give: each instant with
    /// the record of its type, a later transition replacing an earlier one
    /// at the same instant.
    pub open spec fn transitions_upto(self, count: int) -> Map<i64, ZoneInfoElementView>
        decreases count,
    {
        if count <= 0 {
            Map::empty()
        } else {
            self.transitions_upto(count - 1).insert(
                self.times[count - 1],
                self.element(self.types[count - 1] as int),
            )
        }
    }

    /// All transitions: each instant with the record in force from then on.
    pub open spec fn transitions(self) -> Map<i64, ZoneInfoElementView> {
        self.transitions_upto(self.times.len() as int)
    }

    /// The map that the first `count` leap second corrections give, a later
    /// one replacing an earlier one at the same instant.
    pub open spec fn leap_seconds_upto(self, count: int) -> Map<i64, i32>
        decreases count,
    {
        if count <= 0 {
            Map::empty()
        } else {
            self.leap_seconds_upto(count - 1).insert(
                self.leap_seconds[count - 1].0,
                self.leap_seconds[count - 1].1,
            )
        }
    }

    /// All leap second corrections: each instant with the total correction
    /// from then on.
    pub open spec fn leap_second_transitions(self) -> Map<i64, i32> {
        self.leap_seconds_upto(self.leap_seconds.len() as int)
    }

    /// The instant of the transition whose record is in force at
    /// `timestamp`: the latest transition before it.
    pub open spec fn actual_instant(self, timestamp: i64) -> Option<i64> {
        latest_before(self.transitions().dom(), timestamp)
    }

    /// The record in force at `timestamp`, if any transition lies before it.
    pub open spec fn actual_zoneinfo(self, timestamp: i64) -> Option<ZoneInfoElementView> {
        match self.actual_instant(timestamp) {
            Some(instant) => Some(self.transitions()[instant]),
            None => None,
        }
    }

    /// The instant of the first transition that does not lie before
    /// `timestamp`.
    pub open spec fn next_instant(self, timestamp: i64) -> Option<i64> {
        earliest_from(self.transitions().dom(), timestamp)
    }

    /// The first transition that does not lie before `timestamp`, with its
    /// record.
    pub open spec fn next_transition_time(self, timestamp: i64) -> Option<
        (i64, ZoneInfoElementView),
    > {
        match self.next_instant(timestamp) {
            Some(instant) => Some((instant, self.transitions()[instant])),
            None => None,
        }
    }
}

/// The instants of the map of the first `count` transitions are the first
/// `count` transition times, and an instant that does not come again among
/// them has the record of its own transition type.
pub proof fn lemma_transitions_upto(body: ZoneBodyView, count: int)
    requires
        0 <= count <= body.times.len(),
    ensures
        forall|instant: i64|
            #[trigger] body.transitions_upto(count).contains_key(instant) <==> exists|i: int|
                0 <= i < count && #[trigger] body.times[i] == instant,
        forall|i: int|
            0 <= i < count && (forall|j: int| i < j < count ==> body.times[j] != body.times[i])
                ==> body.transitions_upto(count)[#[trigger] body.times[i]] == body.element(
                body.types[i] as int,
            ),
    decreases count,
{
    if count > 0 {
        lemma_transitions_upto(body, count - 1);
        assert forall|instant: i64| #[trigger]
            body.transitions_upto(count).contains_key(instant) implies exists|i: int|
            0 <= i < count && #[trigger] body.times[i] == instant by {
            if body.times[count - 1] != instant {
                assert(body.transitions_upto(count - 1).contains_key(instant));
                let i = choose|i: int| 0 <= i < count - 1 && #[trigger] body.times[i] == instant;
                assert(0 <= i < count && body.times[i] == instant);
            }
        }
        assert forall|instant: i64|
            (exists|i: int|
                0 <= i < count && #[trigger] body.times[i] == instant) implies #[trigger] body.transitions_upto(
            count,
        ).contains_key(instant) by {
            let i = choose|i: int| 0 <= i < count && #[trigger] body.times[i] == instant;
            if i < count - 1 {
                assert(body.transitions_upto(count - 1).contains_key(instant));
            }
        }
        assert forall|i: int|
            0 <= i < count && (forall|j: int|
                i < j < count ==> body.times[j] != body.times[i]) implies body.transitions_upto(
            count,
        )[#[trigger] body.times[i]] == body.element(body.types[i] as int) by {
            if i < count - 1 {
                assert(body.times[count - 1] != body.times[i]);
                assert(forall|j: int| i < j < count - 1 ==> body.times[j] != body.times[i]);
            }
        }
    }
}

/// No two instants are the latest before a bound: the one that is, is the
/// one that `latest_before` gives.
pub proof fn lemma_latest_before_unique(instants: Set<i64>, instant: i64, bound: i64)
    requires
        is_latest_before(instants, instant, bound),
    ensures
        latest_before(instants, bound) == Some(instant),
{
    let chosen = choose|k: i64| is_latest_before(instants, k, bound);
    assert(is_latest_before(instants, chosen, bound));
    assert(instants.contains(chosen) && instants.contains(instant));
}

/// No two instants are the earliest from a bound on: the one that is, is
/// the one that `earliest_from` gives.
pub proof fn lemma_earliest_from_unique(instants: Set<i64>, instant: i64, bound: i64)
    requires
        is_earliest_from(instants, instant, bound),
    ensures
        earliest_from(instants, bound) == Some(instant),
{
    let chosen = choose|k: i64| is_earliest_from(instants, k, bound);
    assert(is_earliest_from(instants, chosen, bound));
    assert(instants.contains(chosen) && instants.contains(instant));
}

} // verus!
