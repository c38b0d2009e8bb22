//! A time zone as loaded from a zone file, and the questions it answers.

use crate::body::{read_zone_info, spec_body, spec_body_end, ZoneBody, ZoneBodyView};
use crate::error::DecodeError;
use crate::header::magic;
use crate::tables::TransitionTimeFlag;
use crate::text::{decode_text, trim_text, trimmed};
use crate::timeline::{
    is_earliest_from, is_latest_before, lemma_earliest_from_unique, lemma_latest_before_unique,
};
use std::collections::BTreeMap;
use vstd::prelude::*;
use vstd::slice::slice_subrange;
use vstd::utf8::{decode_utf8, valid_utf8};

verus! {

/// Transition details
#[derive(Debug, Clone)]
pub struct ZoneInfoElement {
    /// Offset to UTC in seconds
    pub ut_offset: i32,
    /// Daylight saving time
    pub isdst: bool,
    /// Abbreviation of the time zone
    pub abbreviation: String,
    /// Transition time wall-time or governmental controlled
    pub wall_clock_or_standard: TransitionTimeFlag,
    /// Transition time is local time or UTC
    pub local_or_universal_time: TransitionTimeFlag,
}

/// What a `ZoneInfoElement` holds, the abbreviation as a sequence of
/// characters.
pub struct ZoneInfoElementView {
    pub ut_offset: i32,
    pub isdst: bool,
    pub abbreviation: Seq<char>,
    pub wall_clock_or_standard: TransitionTimeFlag,
    pub local_or_universal_time: TransitionTimeFlag,
}

impl View for ZoneInfoElement {
    type V = ZoneInfoElementView;

    open spec fn view(&self) -> ZoneInfoElementView {
        ZoneInfoElementView {
            ut_offset: self.ut_offset,
            isdst: self.isdst,
            abbreviation: self.abbreviation@,
            wall_clock_or_standard: self.wall_clock_or_standard,
            local_or_universal_time: self.local_or_universal_time,
        }
    }
}

/// The views of the records of `map`, under their instants.
pub open spec fn element_views(map: Map<i64, ZoneInfoElement>) -> Map<i64, ZoneInfoElementView> {
    map.map_values(|element: ZoneInfoElement| element@)
}

/// The view of the record, if there is one.
pub open spec fn optional_element_view(element: Option<ZoneInfoElement>) -> Option<
    ZoneInfoElementView,
> {
    match element {
        Some(element) => Some(element@),
        None => None,
    }
}

/// The instant, and the view of the record, if there are any.
pub open spec fn optional_transition_view(transition: Option<(i64, ZoneInfoElement)>) -> Option<
    (i64, ZoneInfoElementView),
> {
    match transition {
        Some((instant, element)) => Some((instant, element@)),
        None => None,
    }
}

/// Time zone information
pub struct ZoneInfo {
    zone_info: ZoneBody,
    time_zone_specifier: String,
}

/// What a `ZoneInfo` holds: the tables of the body that was kept, and the
/// rule string as it stands in the file.
pub struct ZoneInfoView {
    pub body: ZoneBodyView,
    pub rule: Seq<char>,
}

impl View for ZoneInfo {
    type V = ZoneInfoView;

    closed spec fn view(&self) -> ZoneInfoView {
        ZoneInfoView { body: self.zone_info@, rule: self.time_zone_specifier@ }
    }
}

/// The zone that `bytes` describe, or the reason why they describe none.
///
/// The legacy body with four-byte timestamps comes first. Where its header
/// carries version `2` or `3`, a body with eight-byte timestamps follows it
/// and must decode too; the bytes after that body are the rule string.
/// `prefer_wide` says which of the two bodies is kept.
pub open spec fn spec_load(bytes: Seq<u8>, prefer_wide: bool) -> Result<ZoneInfoView, DecodeError> {
    match spec_body(bytes, 0, false) {
        Err(e) => Err(e),
        Ok(legacy) => if !legacy.header.has_wide_body() {
            Ok(ZoneInfoView { body: legacy, rule: Seq::empty() })
        } else {
            let second = spec_body_end(bytes, 0, false);
            match spec_body(bytes, second, true) {
                Err(e) => Err(e),
                Ok(wide) => {
                    let rule = bytes.skip(spec_body_end(bytes, second, true));
                    if !valid_utf8(rule) {
                        Err(DecodeError::InvalidRuleText)
                    } else {
                        Ok(
                            ZoneInfoView {
                                body: if prefer_wide {
                                    wide
                                } else {
                                    legacy
                                },
                                rule: decode_utf8(rule),
                            },
                        )
                    }
                },
            }
        },
    }
}

/// Whether this machine's words are 64 bits wide.
pub open spec fn word_is_64_bit() -> bool {
    usize::BITS == 64
}

impl ZoneInfo {
    #[verifier::type_invariant]
    spec fn inv(self) -> bool {
        self.zone_info@.wf()
    }

    /// Load zone info from the bytes of a `tzfile(5)`. These files are often
    /// located in `/usr/share/zoneinfo` or `/usr/local/share/info`.
    ///
    /// Where the file holds a body with eight-byte timestamps, that body is
    /// kept on a machine with 64-bit words and the legacy body on any other.
    pub fn new(buffer: &[u8]) -> (zone: Result<ZoneInfo, DecodeError>)
        ensures
            match zone {
                Ok(z) => Ok::<ZoneInfoView, DecodeError>(z@),
                Err(e) => Err(e),
            } == spec_load(buffer@, word_is_64_bit()),
            zone matches Ok(z) ==> z@.body.wf(),
            buffer@.len() >= 4 && buffer@.subrange(0, 4) != magic() ==> zone == Err::<
                ZoneInfo,
                DecodeError,
            >(DecodeError::BadMagic),
    {
        Self::load(buffer, usize::BITS == 64)
    }

    /// Load zone info from the bytes of a `tzfile(5)`, keeping the body with
    /// eight-byte timestamps where there is one and `prefer_wide` asks for
    /// it, the legacy body otherwise.
    pub fn load(buffer: &[u8], prefer_wide: bool) -> (zone: Result<ZoneInfo, DecodeError>)
        ensures
            match zone {
                Ok(z) => Ok::<ZoneInfoView, DecodeError>(z@),
                Err(e) => Err(e),
            } == spec_load(buffer@, prefer_wide),
            zone matches Ok(z) ==> z@.body.wf(),
            buffer@.len() >= 4 && buffer@.subrange(0, 4) != magic() ==> zone == Err::<
                ZoneInfo,
                DecodeError,
            >(DecodeError::BadMagic),
    {
        let (b32, end32) = match read_zone_info(buffer, 0, false) {
            Ok(body) => body,
            Err(e) => { return Err(e); },
        };
        if !b32.header.has_wide_body() {
            return Ok(ZoneInfo { zone_info: b32, time_zone_specifier: String::new() });
        }
        let (b64, end64) = match read_zone_info(buffer, end32, true) {
            Ok(body) => body,
            Err(e) => { return Err(e); },
        };
        let rule = slice_subrange(buffer, end64, buffer.len());
        assert(rule@ =~= buffer@.skip(end64 as int));
        let tail = match decode_text(rule) {
            Some(tail) => tail,
            None => { return Err(DecodeError::InvalidRuleText); },
        };
        let tz = if prefer_wide {
            b64
        } else {
            b32
        };
        Ok(ZoneInfo { zone_info: tz, time_zone_specifier: tail })
    }

    /// Retrieve the daylight saving time rules for loaded zoneinfo.
    pub fn get_dst_specifier(&self) -> (rule: String)
        ensures
            rule@ == trimmed(self@.rule),
    {
        trim_text(&self.time_zone_specifier)
    }

    /// The record of the local time type `type_index`.
    fn element_at(&self, type_index: u8) -> (element: ZoneInfoElement)
        requires
            type_index < self@.body.local_times.len(),
        ensures
            element@ == self@.body.element(type_index as int),
    {
        let index = type_index as usize;
        let info = &self.zone_info.local_times[index];
        ZoneInfoElement {
            ut_offset: info.ut_offset,
            isdst: info.isdst,
            abbreviation: info.abbreviation.clone(),
            wall_clock_or_standard: if index < self.zone_info.transition_flags1.len() {
                self.zone_info.transition_flags1[index]
            } else {
                TransitionTimeFlag::WallClock
            },
            local_or_universal_time: if index < self.zone_info.transition_flags2.len() {
                self.zone_info.transition_flags2[index]
            } else {
                TransitionTimeFlag::Local
            },
        }
    }

    /// Get all transitions as a map of transition timestamps (seconds since
    /// the epoch) and information associated to that transition (offset
    /// from UTC, (timezone) abbreviation, and a daylight saving time
    /// indication).
    ///
    /// Please note that the initial timestamp of a zone that never changed
    /// is `i64::MIN` and cannot be printed as timestamp.
    pub fn get_transitions(&self) -> (map: BTreeMap<i64, ZoneInfoElement>)
        ensures
            element_views(map@) == self@.body.transitions(),
    {
        proof {
            use_type_invariant(self);
        }
        let mut map = BTreeMap::<i64, ZoneInfoElement>::new();
        let count = self.zone_info.transition_times.len();
        let mut i: usize = 0;
        assert(element_views(map@) =~= self@.body.transitions_upto(0));
        while i < count
            invariant
                i <= count,
                count == self@.body.times.len(),
                self@.body.wf(),
                element_views(map@) == self@.body.transitions_upto(i as int),
            decreases count - i,
        {
            let time = self.zone_info.transition_times[i];
            let type_index = self.zone_info.transition_types[i];
            assert(self@.body.types[i as int] < self@.body.local_times.len());
            let el = self.element_at(type_index);
            let ghost before = map@;
            let _ = map.insert(time, el);
            assert(element_views(map@) =~= element_views(before).insert(time, el@));
            i = i + 1;
        }
        map
    }

    /// Get all leap second transitions which are coded in the zoneinfo file
    /// as a map of timestamps and offset towards to previous time.
    pub fn get_leap_second_transitions(&self) -> (map: BTreeMap<i64, i32>)
        ensures
            map@ == self@.body.leap_second_transitions(),
    {
        let mut map = BTreeMap::<i64, i32>::new();
        let count = self.zone_info.leap_seconds_data.len();
        let mut i: usize = 0;
        while i < count
            invariant
                i <= count,
                count == self@.body.leap_seconds.len(),
                map@ == self@.body.leap_seconds_upto(i as int),
            decreases count - i,
        {
            let (time, duration) = self.zone_info.leap_seconds_data[i];
            let _ = map.insert(time, duration);
            i = i + 1;
        }
        map
    }

    /// Index of the transition that `get_actual_zoneinfo` resolves
    /// `timestamp` to: the latest one before `timestamp`, and among several
    /// at that instant the last in the file.
    fn latest_index_before(&self, timestamp: i64) -> (index: Option<usize>)
        requires
            self@.body.wf(),
        ensures
            match index {
                Some(i) => {
                    &&& i < self@.body.times.len()
                    &&& is_latest_before(
                        self@.body.transitions().dom(),
                        self@.body.times[i as int],
                        timestamp,
                    )
                    &&& self@.body.transitions()[self@.body.times[i as int]]
                        == self@.body.element(self@.body.types[i as int] as int)
                },
                None => forall|instant: i64|
                    self@.body.transitions().dom().contains(instant) ==> instant >= timestamp,
            },
    {
        let count = self.zone_info.transition_times.len();
        let mut best: Option<usize> = None;
        let mut i: usize = 0;
        while i < count
            invariant
                i <= count,
                count == self@.body.times.len(),
                match best {
                    Some(b) => {
                        &&& b < i
                        &&& is_latest_before(
                            self@.body.transitions_upto(i as int).dom(),
                            self@.body.times[b as int],
                            timestamp,
                        )
                        &&& self@.body.transitions_upto(i as int)[self@.body.times[b as int]]
                            == self@.body.element(self@.body.types[b as int] as int)
                    },
                    None => forall|instant: i64|
                        self@.body.transitions_upto(i as int).dom().contains(instant) ==> instant
                            >= timestamp,
                },
            decreases count - i,
        {
            let time = self.zone_info.transition_times[i];
            if time < timestamp {
                let later = match best {
                    Some(b) => self.zone_info.transition_times[b] <= time,
                    None => true,
                };
                if later {
                    best = Some(i);
                }
            }
            i = i + 1;
        }
        best
    }

    /// Index of the transition that `get_next_transition_time` resolves
    /// `timestamp` to: the earliest one that is not before `timestamp`, and
    /// among several at that instant the last in the file.
    fn earliest_index_from(&self, timestamp: i64) -> (index: Option<usize>)
        requires
            self@.body.wf(),
        ensures
            match index {
                Some(i) => {
                    &&& i < self@.body.times.len()
                    &&& is_earliest_from(
                        self@.body.transitions().dom(),
                        self@.body.times[i as int],
                        timestamp,
                    )
                    &&& self@.body.transitions()[self@.body.times[i as int]]
                        == self@.body.element(self@.body.types[i as int] as int)
                },
                None => forall|instant: i64|
                    self@.body.transitions().dom().contains(instant) ==> instant < timestamp,
            },
    {
        let count = self.zone_info.transition_times.len();
        let mut best: Option<usize> = None;
        let mut i: usize = 0;
        while i < count
            invariant
                i <= count,
                count == self@.body.times.len(),
                match best {
                    Some(b) => {
                        &&& b < i
                        &&& is_earliest_from(
                            self@.body.transitions_upto(i as int).dom(),
                            self@.body.times[b as int],
                            timestamp,
                        )
                        &&& self@.body.transitions_upto(i as int)[self@.body.times[b as int]]
                            == self@.body.element(self@.body.types[b as int] as int)
                    },
                    None => forall|instant: i64|
                        self@.body.transitions_upto(i as int).dom().contains(instant) ==> instant
                            < timestamp,
                },
            decreases count - i,
        {
            let time = self.zone_info.transition_times[i];
            if time >= timestamp {
                let sooner = match best {
                    Some(b) => time <= self.zone_info.transition_times[b],
                    None => true,
                };
                if sooner {
                    best = Some(i);
                }
            }
            i = i + 1;
        }
        best
    }

    /// Return zone info relevant for the provided timestamp: the record of
    /// the latest transition before it, or `None` where `timestamp` is not
    /// after any transition.
    pub fn get_actual_zoneinfo(&self, timestamp: i64) -> (element: Option<ZoneInfoElement>)
        ensures
            optional_element_view(element) == self@.body.actual_zoneinfo(timestamp),
    {
        proof {
            use_type_invariant(self);
        }
        match self.latest_index_before(timestamp) {
            Some(i) => {
                proof {
                    lemma_latest_before_unique(
                        self@.body.transitions().dom(),
                        self@.body.times[i as int],
                        timestamp,
                    );
                }
                Some(self.element_at(self.zone_info.transition_types[i]))
            },
            None => None,
        }
    }

    /// Returns as a tuple a timestamp and related information when the next
    /// transition will take place: the earliest transition that is not
    /// before `timestamp`.
    ///
    /// Note that in some regions there is no DST, and this function will
    /// return None.
    pub fn get_next_transition_time(&self, timestamp: i64) -> (transition: Option<
        (i64, ZoneInfoElement),
    >)
        ensures
            optional_transition_view(transition) == self@.body.next_transition_time(timestamp),
    {
        proof {
            use_type_invariant(self);
        }
        match self.earliest_index_from(timestamp) {
            Some(i) => {
                proof {
                    lemma_earliest_from_unique(
                        self@.body.transitions().dom(),
                        self@.body.times[i as int],
                        timestamp,
                    );
                }
                Some(
                    (
                        self.zone_info.transition_times[i],
                        self.element_at(self.zone_info.transition_types[i]),
                    ),
                )
            },
            None => None,
        }
    }
}

} // verus!
