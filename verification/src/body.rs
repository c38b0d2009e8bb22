//! One body of a zone file: a header and its six tables, decoded at one
//! timestamp width.

use crate::error::DecodeError;
use crate::header::{spec_header, Header, HEADER_LEN};
use crate::tables::{
    leaps_len, local_time_views, spec_decode_leap_seconds, spec_decode_local_time_data,
    spec_decode_std_wall_flags, spec_decode_transition_times, spec_decode_transition_types,
    spec_decode_ut_local_flags, timestamps_len, LocalTimeType, LocalTimeTypeView,
    TransitionTimeFlag,
};
use vstd::prelude::*;

verus! {

/// The six tables of one body with the header that sized them.
pub struct ZoneBody {
    pub header: Header,
    pub transition_times: Vec<i64>,
    pub transition_types: Vec<u8>,
    pub local_times: Vec<LocalTimeType>,
    pub leap_seconds_data: Vec<(i64, i32)>,
    pub transition_flags1: Vec<TransitionTimeFlag>,
    pub transition_flags2: Vec<TransitionTimeFlag>,
}

/// What a `ZoneBody` holds, as sequences.
pub struct ZoneBodyView {
    pub header: Header,
    pub times: Seq<i64>,
    pub types: Seq<u8>,
    pub local_times: Seq<LocalTimeTypeView>,
    pub leap_seconds: Seq<(i64, i32)>,
    pub std_wall_flags: Seq<TransitionTimeFlag>,
    pub ut_local_flags: Seq<TransitionTimeFlag>,
}

impl View for ZoneBody {
    type V = ZoneBodyView;

    open spec fn view(&self) -> ZoneBodyView {
        ZoneBodyView {
            header: self.header,
            times: self.transition_times@,
            types: self.transition_types@,
            local_times: local_time_views(self.local_times@),
            leap_seconds: self.leap_seconds_data@,
            std_wall_flags: self.transition_flags1@,
            ut_local_flags: self.transition_flags2@,
        }
    }
}

impl Header {
    /// Where the transition types begin in a body that begins at `base`.
    pub open spec fn types_start(&self, base: int, wide: bool) -> int {
        base + HEADER_LEN + timestamps_len(wide, self.transition_count as int)
    }

    /// Where the local time types begin.
    pub open spec fn local_types_start(&self, base: int, wide: bool) -> int {
        self.types_start(base, wide) + self.transition_count
    }

    /// Where the leap second corrections begin, after the local time types
    /// and the abbreviation pool.
    pub open spec fn leaps_start(&self, base: int, wide: bool) -> int {
        self.local_types_start(base, wide) + 6 * self.local_time_type_count
            + self.abbreviation_char_count
    }

    /// Where the standard/wall flags begin.
    pub open spec fn std_flags_start(&self, base: int, wide: bool) -> int {
        self.leaps_start(base, wide) + leaps_len(wide, self.leap_count as int)
    }

    /// Where the UT/local flags begin.
    pub open spec fn ut_flags_start(&self, base: int, wide: bool) -> int {
        self.std_flags_start(base, wide) + self.std_flag_count
    }

    /// Where the body ends.
    pub open spec fn body_end(&self, base: int, wide: bool) -> int {
        self.ut_flags_start(base, wide) + self.gmt_flag_count
    }
}

impl ZoneBodyView {
    /// Whether the tables agree with the header and with each other.
    ///
    /// There are as many transition types as transition times: as many as
    /// the header counts, or one where the header counts none and there is
    /// exactly one local time type. Every transition type names a local
    /// time type.
    pub open spec fn wf(self) -> bool {
        &&& self.times.len() == self.types.len()
        &&& self.times.len() == (if self.is_fixed_offset() {
            1
        } else {
            self.header.transition_count as int
        })
        &&& self.local_times.len() == self.header.local_time_type_count
        &&& forall|i: int|
            0 <= i < self.types.len() ==> (#[trigger] self.types[i]) < self.local_times.len()
        &&& self.leap_seconds.len() == self.header.leap_count
        &&& self.std_wall_flags.len() == self.header.std_flag_count
        &&& self.ut_local_flags.len() == self.header.gmt_flag_count
    }

    /// Whether the file describes a zone that never changed: no transition
    /// and one local time type.
    pub open spec fn is_fixed_offset(self) -> bool {
        self.header.transition_count == 0 && self.header.local_time_type_count == 1
    }

    /// The body itself, or, for a zone that never changed, the body with one
    /// transition at the earliest instant there is, to the only local time
    /// type.
    pub open spec fn with_sentinel(self) -> ZoneBodyView {
        if self.is_fixed_offset() {
            ZoneBodyView { times: seq![i64::MIN], types: seq![0u8], ..self }
        } else {
            self
        }
    }
}

/// The tables sized by `header`, in a body that begins at `base`, as they
/// stand in the file. The passes run in stream order and the first that
/// fails gives the error.
pub open spec fn spec_tables(bytes: Seq<u8>, header: Header, base: int, wide: bool) -> Result<
    ZoneBodyView,
    DecodeError,
> {
    match spec_decode_transition_times(
        bytes,
        base + HEADER_LEN,
        header.transition_count as int,
        wide,
    ) {
        Err(e) => Err(e),
        Ok(times) => match spec_decode_transition_types(
            bytes,
            header.types_start(base, wide),
            header.transition_count as int,
            header.local_time_type_count as int,
        ) {
            Err(e) => Err(e),
            Ok(types) => match spec_decode_local_time_data(
                bytes,
                header.local_types_start(base, wide),
                header.local_time_type_count as int,
                header.abbreviation_char_count as int,
            ) {
                Err(e) => Err(e),
                Ok(local_times) => match spec_decode_leap_seconds(
                    bytes,
                    header.leaps_start(base, wide),
                    header.leap_count as int,
                    wide,
                ) {
                    Err(e) => Err(e),
                    Ok(leap_seconds) => match spec_decode_std_wall_flags(
                        bytes,
                        header.std_flags_start(base, wide),
                        header.std_flag_count as int,
                    ) {
                        Err(e) => Err(e),
                        Ok(std_wall_flags) => match spec_decode_ut_local_flags(
                            bytes,
                            header.ut_flags_start(base, wide),
                            header.gmt_flag_count as int,
                        ) {
                            Err(e) => Err(e),
                            Ok(ut_local_flags) => Ok(
                                ZoneBodyView {
                                    header,
                                    times,
                                    types,
                                    local_times,
                                    leap_seconds,
                                    std_wall_flags,
                                    ut_local_flags,
                                },
                            ),
                        },
                    },
                },
            },
        },
    }
}

/// The body that begins at `base`, or the reason why there is none. A zone
/// that never changed gets its one transition here.
pub open spec fn spec_body(bytes: Seq<u8>, base: int, wide: bool) -> Result<
    ZoneBodyView,
    DecodeError,
> {
    match spec_header(bytes, base) {
        Err(e) => Err(e),
        Ok(header) => match spec_tables(bytes, header, base, wide) {
            Err(e) => Err(e),
            Ok(tables) => Ok(tables.with_sentinel()),
        },
    }
}

/// Where the body that begins at `base` ends. Meant for a `base` at which
/// `spec_body` finds a body.
pub open spec fn spec_body_end(bytes: Seq<u8>, base: int, wide: bool) -> int {
    match spec_header(bytes, base) {
        Err(_) => base,
        Ok(header) => header.body_end(base, wide),
    }
}

/// The tables that the six passes give agree with the header that sized
/// them, every transition type names a local time type, and the last table
/// ends within the buffer.
pub proof fn lemma_tables_agree_with_header(bytes: Seq<u8>, header: Header, base: int, wide: bool)
    requires
        0 <= base,
    ensures
        spec_tables(bytes, header, base, wide) matches Ok(tables) ==> {
            &&& tables.header == header
            &&& tables.times.len() == header.transition_count
            &&& tables.types.len() == header.transition_count
            &&& tables.local_times.len() == header.local_time_type_count
            &&& tables.leap_seconds.len() == header.leap_count
            &&& tables.std_wall_flags.len() == header.std_flag_count
            &&& tables.ut_local_flags.len() == header.gmt_flag_count
            &&& forall|i: int|
                0 <= i < tables.types.len() ==> (#[trigger] tables.types[i])
                    < header.local_time_type_count
            &&& header.body_end(base, wide) <= bytes.len()
        },
{
    if let Ok(tables) = spec_tables(bytes, header, base, wide) {
        let start = header.types_start(base, wide);
        assert forall|i: int| 0 <= i < tables.types.len() implies (#[trigger] tables.types[i])
            < header.local_time_type_count by {
            assert(tables.types[i] == bytes[start + i]);
        }
    }
}

/// Every body that is decoded is well formed.
pub proof fn lemma_body_well_formed(bytes: Seq<u8>, base: int, wide: bool)
    requires
        0 <= base,
    ensures
        spec_body(bytes, base, wide) matches Ok(body) ==> body.wf() && base <= spec_body_end(
            bytes,
            base,
            wide,
        ) <= bytes.len(),
{
    if let Ok(header) = spec_header(bytes, base) {
        lemma_tables_agree_with_header(bytes, header, base, wide);
    }
}

impl Header {
    /// Runs the six passes over the tables of a body that begins at `base`
    /// and says where the last table ends.
    pub fn decode_tables(&self, buf: &[u8], base: usize, wide: bool) -> (tables: Result<
        (ZoneBody, usize),
        DecodeError,
    >)
        requires
            base + HEADER_LEN <= buf.len(),
        ensures
            match tables {
                Ok((zone, end)) => {
                    &&& spec_tables(buf@, *self, base as int, wide) == Ok::<
                        ZoneBodyView,
                        DecodeError,
                    >(zone@)
                    &&& end == self.body_end(base as int, wide)
                    &&& end <= buf.len()
                },
                Err(e) => spec_tables(buf@, *self, base as int, wide) == Err::<
                    ZoneBodyView,
                    DecodeError,
                >(e),
            },
    {
        let times_start = base + HEADER_LEN;
        let transition_times = match self.decode_transition_times(buf, times_start, wide) {
            Ok(times) => times,
            Err(e) => { return Err(e); },
        };
        let types_start = times_start + (if wide {
            8 * (self.transition_count as usize)
        } else {
            4 * (self.transition_count as usize)
        });
        let transition_types = match self.decode_transition_types(buf, types_start) {
            Ok(types) => types,
            Err(e) => { return Err(e); },
        };
        let local_start = types_start + self.transition_count as usize;
        let local_times = match self.decode_local_time_data(buf, local_start) {
            Ok(local_times) => local_times,
            Err(e) => { return Err(e); },
        };
        let leaps_start = local_start + 6 * (self.local_time_type_count as usize)
            + self.abbreviation_char_count as usize;
        let leap_seconds_data = match self.decode_leap_second_corrections(buf, leaps_start, wide) {
            Ok(leaps) => leaps,
            Err(e) => { return Err(e); },
        };
        let flags1_start = leaps_start + (if wide {
            12 * (self.leap_count as usize)
        } else {
            8 * (self.leap_count as usize)
        });
        let transition_flags1 = match self.decode_transition_flags1(buf, flags1_start) {
            Ok(flags) => flags,
            Err(e) => { return Err(e); },
        };
        let flags2_start = flags1_start + self.std_flag_count as usize;
        let transition_flags2 = match self.decode_transition_flags2(buf, flags2_start) {
            Ok(flags) => flags,
            Err(e) => { return Err(e); },
        };
        let end = flags2_start + self.gmt_flag_count as usize;
        Ok(
            (
                ZoneBody {
                    header: *self,
                    transition_times,
                    transition_types,
                    local_times,
                    leap_seconds_data,
                    transition_flags1,
                    transition_flags2,
                },
                end,
            ),
        )
    }
}

/// Decodes the body that begins at `base` and says where it ends.
pub fn read_zone_info(buf: &[u8], base: usize, wide: bool) -> (body: Result<
    (ZoneBody, usize),
    DecodeError,
>)
    requires
        base <= buf.len(),
    ensures
        match body {
            Ok((zone, end)) => {
                &&& spec_body(buf@, base as int, wide) == Ok::<ZoneBodyView, DecodeError>(zone@)
                &&& end == spec_body_end(buf@, base as int, wide)
                &&& base <= end <= buf.len()
                &&& zone@.wf()
            },
            Err(e) => spec_body(buf@, base as int, wide) == Err::<ZoneBodyView, DecodeError>(e),
        },
{
    let header = match Header::decode(buf, base) {
        Ok(header) => header,
        Err(e) => { return Err(e); },
    };
    let (mut zone, end) = match header.decode_tables(buf, base, wide) {
        Ok(tables) => tables,
        Err(e) => { return Err(e); },
    };
    let ghost tables = zone@;
    proof {
        lemma_tables_agree_with_header(buf@, header, base as int, wide);
        lemma_body_well_formed(buf@, base as int, wide);
    }
    // A zone that never changed has one local time type and no transition.
    // It gets one transition, at the earliest instant there is.
    if zone.transition_times.len() == 0 && zone.local_times.len() == 1 {
        zone.transition_times.push(i64::MIN);
        zone.transition_types.push(0);
    }
    proof {
        assert(zone@.times =~= tables.with_sentinel().times);
        assert(zone@.types =~= tables.with_sentinel().types);
        assert(zone@ == tables.with_sentinel());
    }
    Ok((zone, end))
}

} // verus!
