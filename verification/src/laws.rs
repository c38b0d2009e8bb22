//! What holds of every zone that loads and of every lookup in it.

use crate::body::{lemma_body_well_formed, spec_body, spec_body_end, ZoneBodyView};
use crate::error::DecodeError;
use crate::header::{magic, spec_header};
use crate::text::{leading_white_space, trailing_white_space, trimmed};
use crate::timeline::{
    earliest_from, is_earliest_from, is_latest_before, latest_before,
    lemma_earliest_from_unique, lemma_latest_before_unique, lemma_transitions_upto,
};
use crate::zone::{spec_load, ZoneInfoElementView, ZoneInfoView};
use vstd::prelude::*;

verus! {

/// The body of a zone that loads is well formed.
pub proof fn lemma_load_well_formed(bytes: Seq<u8>, prefer_wide: bool)
    ensures
        spec_load(bytes, prefer_wide) matches Ok(zone) ==> zone.body.wf(),
{
    lemma_body_well_formed(bytes, 0, false);
    if spec_body(bytes, 0, false) is Ok {
        lemma_body_well_formed(bytes, spec_body_end(bytes, 0, false), true);
    }
}

/// A zone that loads has as many transition types as transition times: as
/// many as its header counts, or one each where the header counts no
/// transition and one local time type.
pub proof fn lemma_transition_tables_agree(bytes: Seq<u8>, prefer_wide: bool)
    ensures
        spec_load(bytes, prefer_wide) matches Ok(zone) ==> {
            &&& zone.body.times.len() == zone.body.types.len()
            &&& zone.body.is_fixed_offset() ==> zone.body.times.len() == 1
            &&& !zone.body.is_fixed_offset() ==> zone.body.times.len()
                == zone.body.header.transition_count
        },
{
    lemma_load_well_formed(bytes, prefer_wide);
}

/// In a zone that loads every transition type is below the number of local
/// time types that the header counts.
pub proof fn lemma_transition_types_in_range(bytes: Seq<u8>, prefer_wide: bool, index: int)
    ensures
        spec_load(bytes, prefer_wide) matches Ok(zone) ==> (0 <= index < zone.body.types.len()
            ==> zone.body.types[index] < zone.body.header.local_time_type_count),
{
    lemma_load_well_formed(bytes, prefer_wide);
}

/// A file without a second body has no rule string: where the first header
/// carries neither version `2` nor version `3`, the rule of the zone that
/// loads is empty, and stays empty when trimmed.
pub proof fn lemma_legacy_file_has_no_rule(bytes: Seq<u8>, prefer_wide: bool)
    requires
        spec_header(bytes, 0) matches Ok(header) && !header.has_wide_body(),
    ensures
        spec_load(bytes, prefer_wide) matches Ok(zone) ==> zone.rule == Seq::<char>::empty()
            && trimmed(zone.rule) == Seq::<char>::empty(),
{
    let empty = Seq::<char>::empty();
    assert(leading_white_space(empty) == 0);
    assert(empty.skip(0) =~= empty);
    assert(trailing_white_space(empty) == 0);
    assert(empty.take(0) =~= empty);
}

/// A buffer of four bytes or more that does not begin with `TZif` is
/// refused for its magic, whatever follows.
pub proof fn lemma_bad_magic_rejected(bytes: Seq<u8>, prefer_wide: bool)
    requires
        bytes.len() >= 4,
        bytes.subrange(0, 4) != magic(),
    ensures
        spec_load(bytes, prefer_wide) == Err::<ZoneInfoView, DecodeError>(DecodeError::BadMagic),
{
}

/// The transitions pair each transition time with the record of its
/// transition type: the instants of the map are the transition times, and a
/// time that does not come again later in the table has the record of its
/// own type.
pub proof fn lemma_transitions_pair_times_with_types(body: ZoneBodyView)
    ensures
        forall|instant: i64|
            #[trigger] body.transitions().contains_key(instant) <==> body.times.contains(instant),
        forall|i: int|
            0 <= i < body.times.len() && (forall|j: int|
                i < j < body.times.len() ==> body.times[j] != body.times[i])
                ==> body.transitions()[#[trigger] body.times[i]] == body.element(
                body.types[i] as int,
            ),
{
    lemma_transitions_upto(body, body.times.len() as int);
}

/// Where one of `instants` lies before `bound`, one of them is the latest
/// to do so.
pub proof fn lemma_latest_before_exists(instants: Set<i64>, instant: i64, bound: i64)
    requires
        instants.contains(instant),
        instant < bound,
    ensures
        latest_before(instants, bound) matches Some(latest) && instant <= latest,
    decreases bound - instant,
{
    if exists|other: i64| instants.contains(other) && instant < other && other < bound {
        let other = choose|other: i64| instants.contains(other) && instant < other && other < bound;
        lemma_latest_before_exists(instants, other, bound);
    } else {
        assert(is_latest_before(instants, instant, bound));
        lemma_latest_before_unique(instants, instant, bound);
    }
}

/// Where one of `instants` does not lie before `bound`, one of them is the
/// earliest not to.
pub proof fn lemma_earliest_from_exists(instants: Set<i64>, instant: i64, bound: i64)
    requires
        instants.contains(instant),
        instant >= bound,
    ensures
        earliest_from(instants, bound) matches Some(earliest) && earliest <= instant,
    decreases instant - bound,
{
    if exists|other: i64| instants.contains(other) && bound <= other && other < instant {
        let other = choose|other: i64| instants.contains(other) && bound <= other && other < instant;
        lemma_earliest_from_exists(instants, other, bound);
    } else {
        assert(is_earliest_from(instants, instant, bound));
        lemma_earliest_from_unique(instants, instant, bound);
    }
}

/// The transition that is in force never goes back in time: where a
/// transition is in force at `earlier`, one is in force at every later
/// timestamp, and it is the same or a later one.
pub proof fn lemma_actual_zoneinfo_monotonic(body: ZoneBodyView, earlier: i64, later: i64)
    requires
        earlier < later,
    ensures
        body.actual_instant(earlier) matches Some(first) ==> (body.actual_instant(later) matches Some(
            second,
        ) && first <= second),
        body.actual_instant(later) is None ==> body.actual_instant(earlier) is None,
{
    let instants = body.transitions().dom();
    if let Some(first) = body.actual_instant(earlier) {
        assert(is_latest_before(instants, first, earlier));
        lemma_latest_before_exists(instants, first, later);
    }
}

/// The next transition is never before the timestamp that was asked for.
pub proof fn lemma_next_transition_not_before(body: ZoneBodyView, timestamp: i64)
    ensures
        body.next_instant(timestamp) matches Some(instant) ==> instant >= timestamp,
        body.next_transition_time(timestamp) matches Some(transition) ==> transition.0
            >= timestamp,
{
    if let Some(instant) = body.next_instant(timestamp) {
        assert(is_earliest_from(body.transitions().dom(), instant, timestamp));
    }
}

/// The transition in force lies before the timestamp that was asked for.
pub proof fn lemma_actual_instant_before(body: ZoneBodyView, timestamp: i64)
    ensures
        body.actual_instant(timestamp) matches Some(instant) ==> instant < timestamp,
{
    if let Some(instant) = body.actual_instant(timestamp) {
        assert(is_latest_before(body.transitions().dom(), instant, timestamp));
    }
}

/// Around the instant of a transition: asked for that very instant, the
/// next transition is that one, and so it is one second earlier unless
/// another transition lies there; one second later it is the transition in
/// force.
pub proof fn lemma_exact_transition_instant(body: ZoneBodyView, instant: i64)
    requires
        body.transitions().contains_key(instant),
    ensures
        body.next_instant(instant) == Some(instant),
        instant > i64::MIN && !body.transitions().contains_key((instant - 1) as i64)
            ==> body.next_instant((instant - 1) as i64) == Some(instant),
        instant < i64::MAX ==> body.actual_instant((instant + 1) as i64) == Some(instant),
{
    let instants = body.transitions().dom();
    assert(is_earliest_from(instants, instant, instant));
    lemma_earliest_from_unique(instants, instant, instant);
    if instant > i64::MIN && !body.transitions().contains_key((instant - 1) as i64) {
        let bound = (instant - 1) as i64;
        assert(is_earliest_from(instants, instant, bound));
        lemma_earliest_from_unique(instants, instant, bound);
    }
    if instant < i64::MAX {
        let bound = (instant + 1) as i64;
        assert(is_latest_before(instants, instant, bound));
        lemma_latest_before_unique(instants, instant, bound);
    }
}

/// A zone that never changed: where the header of the body that was kept
/// counts no transition and one local time type, the zone has one
/// transition, at the earliest instant there is, to that type. Its record
/// is in force at every later timestamp, and it is the next transition
/// only when asked for the earliest instant itself.
pub proof fn lemma_fixed_offset_zone(bytes: Seq<u8>, prefer_wide: bool, timestamp: i64)
    requires
        spec_load(bytes, prefer_wide) matches Ok(zone) && zone.body.is_fixed_offset(),
    ensures
        spec_load(bytes, prefer_wide) matches Ok(zone) && {
            &&& zone.body.times == seq![i64::MIN]
            &&& zone.body.types == seq![0u8]
            &&& zone.body.transitions() == Map::<i64, ZoneInfoElementView>::empty().insert(
                i64::MIN,
                zone.body.element(0),
            )
            &&& zone.body.actual_zoneinfo(timestamp) == (if timestamp > i64::MIN {
                Some(zone.body.element(0))
            } else {
                None
            })
            &&& zone.body.next_transition_time(timestamp) == (if timestamp == i64::MIN {
                Some((i64::MIN, zone.body.element(0)))
            } else {
                None
            })
        },
{
    let zone = spec_load(bytes, prefer_wide)->Ok_0;
    let body = zone.body;
    assert(body.times == seq![i64::MIN] && body.types == seq![0u8]);
    reveal_with_fuel(ZoneBodyView::transitions_upto, 2);
    assert(body.transitions() =~= Map::<i64, ZoneInfoElementView>::empty().insert(
        i64::MIN,
        body.element(0),
    ));
    let instants = body.transitions().dom();
    if timestamp > i64::MIN {
        assert(is_latest_before(instants, i64::MIN, timestamp));
        lemma_latest_before_unique(instants, i64::MIN, timestamp);
        assert forall|k: i64| !is_earliest_from(instants, k, timestamp) by {}
    } else {
        assert(is_earliest_from(instants, i64::MIN, timestamp));
        lemma_earliest_from_unique(instants, i64::MIN, timestamp);
        assert forall|k: i64| !is_latest_before(instants, k, timestamp) by {}
    }
}

} // verus!
