//! The six tables that follow a header, as functions of the bytes.

use crate::error::{DecodeError, Field};
use crate::wire::{be_i32_at, be_i64_at};
use vstd::prelude::*;
use vstd::utf8::{decode_utf8, valid_utf8};

verus! {

/// Attributes associated to transition
#[derive(Debug, Copy, Clone, PartialEq, Eq, Structural)]
pub enum TransitionTimeFlag {
    Standard,
    WallClock,
    Universal,
    Local,
}

/// One local time type: an offset from UT, whether it is daylight saving
/// time, and the zone's abbreviation while it is in force.
#[derive(Debug, Clone)]
pub struct LocalTimeType {
    pub ut_offset: i32,
    pub isdst: bool,
    pub abbreviation: String,
}

/// What a `LocalTimeType` holds, the abbreviation as a sequence of characters.
pub struct LocalTimeTypeView {
    pub ut_offset: i32,
    pub isdst: bool,
    pub abbreviation: Seq<char>,
}

impl View for LocalTimeType {
    type V = LocalTimeTypeView;

    open spec fn view(&self) -> LocalTimeTypeView {
        LocalTimeTypeView {
            ut_offset: self.ut_offset,
            isdst: self.isdst,
            abbreviation: self.abbreviation@,
        }
    }
}

/// The views of the local time types of `types`, in their order.
pub open spec fn local_time_views(types: Seq<LocalTimeType>) -> Seq<LocalTimeTypeView> {
    Seq::new(types.len(), |i: int| types[i]@)
}

/// Number of bytes that `count` timestamps take: eight each in a wide body,
/// four each in a legacy body.
pub open spec fn timestamps_len(wide: bool, count: int) -> int {
    if wide {
        8 * count
    } else {
        4 * count
    }
}

/// The timestamp stored at `pos`.
pub open spec fn timestamp_at(bytes: Seq<u8>, pos: int, wide: bool) -> i64 {
    if wide {
        be_i64_at(bytes, pos) as i64
    } else {
        be_i32_at(bytes, pos) as i64
    }
}

/// The table of `count` transition times that begins at `start`.
pub open spec fn spec_transition_times(bytes: Seq<u8>, start: int, count: int, wide: bool) -> Seq<
    i64,
> {
    Seq::new(count as nat, |i: int| timestamp_at(bytes, start + timestamps_len(wide, i), wide))
}

/// The first pass: the transition times, or the buffer is too short for
/// them.
pub open spec fn spec_decode_transition_times(
    bytes: Seq<u8>,
    start: int,
    count: int,
    wide: bool,
) -> Result<Seq<i64>, DecodeError> {
    if bytes.len() < start + timestamps_len(wide, count) {
        Err(DecodeError::Truncated(Field::TransitionTimes))
    } else {
        Ok(spec_transition_times(bytes, start, count, wide))
    }
}

/// The table of `count` transition types that begins at `start`.
pub open spec fn spec_transition_types(bytes: Seq<u8>, start: int, count: int) -> Seq<u8> {
    bytes.subrange(start, start + count)
}

/// Whether each of the `count` transition types that begin at `start` is
/// below `type_count`.
pub open spec fn type_indices_valid(bytes: Seq<u8>, start: int, count: int, type_count: int) -> bool {
    forall|i: int| 0 <= i < count ==> (#[trigger] bytes[start + i]) < type_count
}

/// The second pass: the transition types. The buffer must hold them all,
/// and each must name one of the `type_count` local time types.
pub open spec fn spec_decode_transition_types(
    bytes: Seq<u8>,
    start: int,
    count: int,
    type_count: int,
) -> Result<Seq<u8>, DecodeError> {
    if bytes.len() < start + count {
        Err(DecodeError::Truncated(Field::TransitionTypes))
    } else if !type_indices_valid(bytes, start, count, type_count) {
        Err(DecodeError::TypeIndexOutOfRange)
    } else {
        Ok(spec_transition_types(bytes, start, count))
    }
}

/// Length of the abbreviation that begins at `start`: the number of bytes
/// from there up to the next zero byte of `pool`, or up to the end of
/// `pool` where no zero byte follows.
pub open spec fn abbreviation_len(pool: Seq<u8>, start: int) -> int
    decreases pool.len() - start,
{
    if 0 <= start < pool.len() && pool[start] != 0 {
        1 + abbreviation_len(pool, start + 1)
    } else {
        0
    }
}

/// Whether the abbreviation that begins at `start` ends within the pool. A
/// zero byte ends it, or else the end of the pool; nothing ends one that
/// begins beyond the end of the pool.
pub open spec fn is_terminated(pool: Seq<u8>, start: int) -> bool {
    0 <= start <= pool.len()
}

/// The bytes of the abbreviation that begins at `start`, without the zero
/// byte that may end it.
pub open spec fn abbreviation_bytes(pool: Seq<u8>, start: int) -> Seq<u8> {
    pool.subrange(start, start + abbreviation_len(pool, start))
}

/// The abbreviation pool: `len` bytes that begin at `start`.
pub open spec fn spec_pool(bytes: Seq<u8>, start: int, len: int) -> Seq<u8> {
    bytes.subrange(start, start + len)
}

/// Where in the pool the abbreviation of record `index` begins; the records
/// begin at `start`.
pub open spec fn abbreviation_offset(bytes: Seq<u8>, start: int, index: int) -> int {
    bytes[start + 6 * index + 5] as int
}

/// Record `index` of the local time types that begin at `start`, its
/// abbreviation taken from `pool`.
pub open spec fn spec_local_time_type(
    bytes: Seq<u8>,
    start: int,
    index: int,
    pool: Seq<u8>,
) -> LocalTimeTypeView {
    LocalTimeTypeView {
        ut_offset: be_i32_at(bytes, start + 6 * index) as i32,
        isdst: bytes[start + 6 * index + 4] != 0,
        abbreviation: decode_utf8(
            abbreviation_bytes(pool, abbreviation_offset(bytes, start, index)),
        ),
    }
}

/// The `count` local time types that begin at `start`, followed by a pool of
/// `pool_len` bytes.
pub open spec fn spec_local_time_types(
    bytes: Seq<u8>,
    start: int,
    count: int,
    pool_len: int,
) -> Seq<LocalTimeTypeView> {
    Seq::new(
        count as nat,
        |i: int| spec_local_time_type(bytes, start, i, spec_pool(bytes, start + 6 * count, pool_len)),
    )
}

/// Whether the abbreviation of record `index` ends within the pool.
pub open spec fn record_terminated(
    bytes: Seq<u8>,
    start: int,
    count: int,
    pool_len: int,
    index: int,
) -> bool {
    is_terminated(
        spec_pool(bytes, start + 6 * count, pool_len),
        abbreviation_offset(bytes, start, index),
    )
}

/// The bytes of the abbreviation of record `index`.
pub open spec fn record_text(
    bytes: Seq<u8>,
    start: int,
    count: int,
    pool_len: int,
    index: int,
) -> Seq<u8> {
    abbreviation_bytes(
        spec_pool(bytes, start + 6 * count, pool_len),
        abbreviation_offset(bytes, start, index),
    )
}

/// Whether the abbreviation of every record ends within the pool.
pub open spec fn all_terminated(bytes: Seq<u8>, start: int, count: int, pool_len: int) -> bool {
    forall|j: int| 0 <= j < count ==> #[trigger] record_terminated(bytes, start, count, pool_len, j)
}

/// Whether the abbreviation of every record is UTF-8.
pub open spec fn all_text(bytes: Seq<u8>, start: int, count: int, pool_len: int) -> bool {
    forall|j: int|
        0 <= j < count ==> valid_utf8(#[trigger] record_text(bytes, start, count, pool_len, j))
}

/// The third pass: the local time types and the pool of their
/// abbreviations. The buffer must hold both, every abbreviation must end
/// within the pool, and every abbreviation must be text.
pub open spec fn spec_decode_local_time_data(
    bytes: Seq<u8>,
    start: int,
    count: int,
    pool_len: int,
) -> Result<Seq<LocalTimeTypeView>, DecodeError> {
    if bytes.len() < start + 6 * count + pool_len {
        Err(DecodeError::Truncated(Field::LocalTimeTypes))
    } else if !all_terminated(bytes, start, count, pool_len) {
        Err(DecodeError::UnterminatedAbbreviation)
    } else if !all_text(bytes, start, count, pool_len) {
        Err(DecodeError::InvalidAbbreviationText)
    } else {
        Ok(spec_local_time_types(bytes, start, count, pool_len))
    }
}

/// Number of bytes that `count` leap second records take.
pub open spec fn leaps_len(wide: bool, count: int) -> int {
    timestamps_len(wide, count) + 4 * count
}

/// The table of `count` leap second corrections that begins at `start`: the
/// instant of each and the total correction from then on.
pub open spec fn spec_leap_seconds(bytes: Seq<u8>, start: int, count: int, wide: bool) -> Seq<
    (i64, i32),
> {
    Seq::new(
        count as nat,
        |i: int|
            (
                timestamp_at(bytes, start + leaps_len(wide, i), wide),
                be_i32_at(bytes, start + leaps_len(wide, i) + timestamps_len(wide, 1)) as i32,
            ),
    )
}

/// The fourth pass: the leap second corrections, or the buffer is too short
/// for them.
pub open spec fn spec_decode_leap_seconds(
    bytes: Seq<u8>,
    start: int,
    count: int,
    wide: bool,
) -> Result<Seq<(i64, i32)>, DecodeError> {
    if bytes.len() < start + leaps_len(wide, count) {
        Err(DecodeError::Truncated(Field::LeapSeconds))
    } else {
        Ok(spec_leap_seconds(bytes, start, count, wide))
    }
}

/// What a byte of the standard/wall table says.
pub open spec fn std_wall_flag(byte: u8) -> TransitionTimeFlag {
    if byte == 0 {
        TransitionTimeFlag::WallClock
    } else {
        TransitionTimeFlag::Standard
    }
}

/// What a byte of the UT/local table says.
pub open spec fn ut_local_flag(byte: u8) -> TransitionTimeFlag {
    if byte == 0 {
        TransitionTimeFlag::Local
    } else {
        TransitionTimeFlag::Universal
    }
}

/// The table of `count` standard/wall flags that begins at `start`.
pub open spec fn spec_std_wall_flags(bytes: Seq<u8>, start: int, count: int) -> Seq<
    TransitionTimeFlag,
> {
    Seq::new(count as nat, |i: int| std_wall_flag(bytes[start + i]))
}

/// The table of `count` UT/local flags that begins at `start`.
pub open spec fn spec_ut_local_flags(bytes: Seq<u8>, start: int, count: int) -> Seq<
    TransitionTimeFlag,
> {
    Seq::new(count as nat, |i: int| ut_local_flag(bytes[start + i]))
}

/// The fifth pass: the standard/wall flags, or the buffer is too short for
/// them.
pub open spec fn spec_decode_std_wall_flags(bytes: Seq<u8>, start: int, count: int) -> Result<
    Seq<TransitionTimeFlag>,
    DecodeError,
> {
    if bytes.len() < start + count {
        Err(DecodeError::Truncated(Field::StdWallFlags))
    } else {
        Ok(spec_std_wall_flags(bytes, start, count))
    }
}

/// The sixth pass: the UT/local flags, or the buffer is too short for them.
pub open spec fn spec_decode_ut_local_flags(bytes: Seq<u8>, start: int, count: int) -> Result<
    Seq<TransitionTimeFlag>,
    DecodeError,
> {
    if bytes.len() < start + count {
        Err(DecodeError::Truncated(Field::UtLocalFlags))
    } else {
        Ok(spec_ut_local_flags(bytes, start, count))
    }
}

} // verus!
