//! The decoders of the six tables, one pass each, in stream order.

use crate::error::{DecodeError, Field};
use crate::header::Header;
use crate::tables::{
    abbreviation_len, abbreviation_offset, all_terminated, is_terminated, leaps_len,
    local_time_views, record_terminated, record_text, spec_decode_leap_seconds,
    spec_decode_local_time_data, spec_decode_std_wall_flags, spec_decode_transition_times,
    spec_decode_transition_types, spec_decode_ut_local_flags, spec_leap_seconds,
    spec_local_time_type, spec_local_time_types, spec_pool, spec_std_wall_flags,
    spec_transition_times, spec_transition_types, spec_ut_local_flags, timestamp_at,
    timestamps_len, type_indices_valid, LocalTimeType, LocalTimeTypeView, TransitionTimeFlag,
};
use crate::text::decode_text;
use crate::wire::{read_i32_at, read_i64_at};
use vstd::prelude::*;
use vstd::slice::slice_subrange;
use vstd::utf8::valid_utf8;

verus! {

/// Where a table of `count` records of `size` bytes each ends that begins at
/// `pos`, or `None` where the buffer is too short to hold it.
pub fn table_end(len: usize, pos: usize, count: u32, size: usize) -> (end: Option<usize>)
    requires
        pos <= len,
        1 <= size <= 16,
    ensures
        match end {
            Some(e) => e == pos + count * size && e <= len,
            None => pos + count * size > len,
        },
{
    let avail = len - pos;
    let quota = avail / size;
    if quota < count as usize {
        assert(count * size > avail) by (nonlinear_arith)
            requires
                quota == (avail as int) / (size as int),
                quota < count,
                size >= 1,
        ;
        None
    } else {
        assert(count * size <= avail) by (nonlinear_arith)
            requires
                quota == (avail as int) / (size as int),
                quota >= count,
                size >= 1,
                avail >= 0,
        ;
        Some(pos + (count as usize) * size)
    }
}

/// Reads a four-byte timestamp and widens it.
pub fn consume_32bit_timestamps(buf: &[u8], pos: usize) -> (instant: i64)
    requires
        pos + 4 <= buf.len(),
    ensures
        instant == timestamp_at(buf@, pos as int, false),
{
    read_i32_at(buf, pos) as i64
}

/// Reads an eight-byte timestamp.
pub fn consume_64bit_timestamps(buf: &[u8], pos: usize) -> (instant: i64)
    requires
        pos + 8 <= buf.len(),
    ensures
        instant == timestamp_at(buf@, pos as int, true),
{
    read_i64_at(buf, pos)
}

/// Reads the timestamp at `pos` in the width of the body.
pub fn read_timestamp(buf: &[u8], pos: usize, wide: bool) -> (instant: i64)
    requires
        pos + timestamps_len(wide, 1) <= buf.len(),
    ensures
        instant == timestamp_at(buf@, pos as int, wide),
{
    if wide {
        consume_64bit_timestamps(buf, pos)
    } else {
        consume_32bit_timestamps(buf, pos)
    }
}

/// Length of the abbreviation that begins `offset` bytes into the pool, or
/// `None` where it begins beyond the end of the pool. The pool is the
/// `pool_len` bytes of `buf` from `pool_start` on.
pub fn find_terminator(buf: &[u8], pool_start: usize, pool_len: u32, offset: u8) -> (len: Option<
    usize,
>)
    requires
        pool_start + pool_len <= buf.len(),
    ensures
        len is Some <==> is_terminated(
            spec_pool(buf@, pool_start as int, pool_len as int),
            offset as int,
        ),
        len matches Some(n) ==> n == abbreviation_len(
            spec_pool(buf@, pool_start as int, pool_len as int),
            offset as int,
        ) && offset + n <= pool_len,
{
    let ghost pool = spec_pool(buf@, pool_start as int, pool_len as int);
    let end = pool_len as usize;
    let start = offset as usize;
    if start > end {
        return None;
    }
    let mut cursor = start;
    while cursor < end && buf[pool_start + cursor] != 0
        invariant
            start <= cursor <= end,
            end == pool_len,
            pool_start + pool_len <= buf.len(),
            pool == spec_pool(buf@, pool_start as int, pool_len as int),
            abbreviation_len(pool, start as int) == (cursor - start) + abbreviation_len(
                pool,
                cursor as int,
            ),
        decreases end - cursor,
    {
        cursor = cursor + 1;
    }
    Some(cursor - start)
}

impl Header {
    /// Returns the coded transition times.
    ///
    /// `pos` is the start of the table with transition times.
    pub fn decode_transition_times(&self, buf: &[u8], pos: usize, wide: bool) -> (times: Result<
        Vec<i64>,
        DecodeError,
    >)
        requires
            pos <= buf.len(),
        ensures
            match times {
                Ok(v) => Ok::<Seq<i64>, DecodeError>(v@),
                Err(e) => Err(e),
            } == spec_decode_transition_times(
                buf@,
                pos as int,
                self.transition_count as int,
                wide,
            ),
    {
        let count = self.transition_count;
        let end = if wide {
            table_end(buf.len(), pos, count, 8)
        } else {
            table_end(buf.len(), pos, count, 4)
        };
        if end.is_none() {
            return Err(DecodeError::Truncated(Field::TransitionTimes));
        }
        let step: usize = if wide {
            8
        } else {
            4
        };
        let mut transition_times: Vec<i64> = Vec::new();
        let mut cursor: usize = pos;
        let mut i: u32 = 0;
        while i < count
            invariant
                i <= count,
                step == timestamps_len(wide, 1),
                cursor == pos + timestamps_len(wide, i as int),
                pos + timestamps_len(wide, count as int) <= buf.len(),
                transition_times@ == spec_transition_times(buf@, pos as int, i as int, wide),
            decreases count - i,
        {
            transition_times.push(read_timestamp(buf, cursor, wide));
            cursor = cursor + step;
            i = i + 1;
        }
        Ok(transition_times)
    }

    /// Returns the types of the local time startings.
    ///
    /// `pos` is the start of the table with transition types. A type that
    /// is not among the local time types of this header is refused.
    pub fn decode_transition_types(&self, buf: &[u8], pos: usize) -> (types: Result<
        Vec<u8>,
        DecodeError,
    >)
        requires
            pos <= buf.len(),
        ensures
            match types {
                Ok(v) => Ok::<Seq<u8>, DecodeError>(v@),
                Err(e) => Err(e),
            } == spec_decode_transition_types(
                buf@,
                pos as int,
                self.transition_count as int,
                self.local_time_type_count as int,
            ),
    {
        let count = self.transition_count;
        if table_end(buf.len(), pos, count, 1).is_none() {
            return Err(DecodeError::Truncated(Field::TransitionTypes));
        }
        let mut transition_types: Vec<u8> = Vec::new();
        let mut i: u32 = 0;
        while i < count
            invariant
                i <= count,
                count == self.transition_count,
                pos + count <= buf.len(),
                transition_types@ == spec_transition_types(buf@, pos as int, i as int),
                type_indices_valid(
                    buf@,
                    pos as int,
                    i as int,
                    self.local_time_type_count as int,
                ),
            decreases count - i,
        {
            let index = buf[pos + i as usize];
            if index as u32 >= self.local_time_type_count {
                assert(buf@[pos + i] >= self.local_time_type_count);
                return Err(DecodeError::TypeIndexOutOfRange);
            }
            transition_types.push(index);
            i = i + 1;
        }
        Ok(transition_types)
    }

    /// Returns the local time startings data.
    ///
    /// This function consumes the char buffer as well to incorporate it in
    /// the result. `pos` is the start of the table with local time
    /// startings data. An abbreviation ends at the next zero byte of the
    /// char buffer, or at its end.
    pub fn decode_local_time_data(&self, buf: &[u8], pos: usize) -> (types: Result<
        Vec<LocalTimeType>,
        DecodeError,
    >)
        requires
            pos <= buf.len(),
        ensures
            match types {
                Ok(v) => Ok::<Seq<LocalTimeTypeView>, DecodeError>(local_time_views(v@)),
                Err(e) => Err(e),
            } == spec_decode_local_time_data(
                buf@,
                pos as int,
                self.local_time_type_count as int,
                self.abbreviation_char_count as int,
            ),
    {
        let count = self.local_time_type_count;
        let pool_len = self.abbreviation_char_count;
        let pool_start = match table_end(buf.len(), pos, count, 6) {
            Some(end) => end,
            None => { return Err(DecodeError::Truncated(Field::LocalTimeTypes)); },
        };
        if table_end(buf.len(), pool_start, pool_len, 1).is_none() {
            return Err(DecodeError::Truncated(Field::LocalTimeTypes));
        }
        let ghost pool = spec_pool(buf@, pool_start as int, pool_len as int);
        let mut lengths: Vec<usize> = Vec::new();
        let mut i: u32 = 0;
        while i < count
            invariant
                i <= count,
                count == self.local_time_type_count,
                pool_len == self.abbreviation_char_count,
                pool_start == pos + 6 * count,
                pool_start + pool_len <= buf.len(),
                pool == spec_pool(buf@, pool_start as int, pool_len as int),
                lengths@.len() == i,
                forall|j: int|
                    0 <= j < i ==> #[trigger] record_terminated(
                        buf@,
                        pos as int,
                        count as int,
                        pool_len as int,
                        j,
                    ),
                forall|j: int|
                    0 <= j < i ==> (#[trigger] lengths@[j]) == abbreviation_len(
                        pool,
                        abbreviation_offset(buf@, pos as int, j),
                    ) && abbreviation_offset(buf@, pos as int, j) + lengths@[j] <= pool_len,
            decreases count - i,
        {
            let offset = buf[pos + 6 * (i as usize) + 5];
            match find_terminator(buf, pool_start, pool_len, offset) {
                Some(len) => {
                    lengths.push(len);
                },
                None => {
                    assert(!record_terminated(
                        buf@,
                        pos as int,
                        count as int,
                        pool_len as int,
                        i as int,
                    ));
                    return Err(DecodeError::UnterminatedAbbreviation);
                },
            }
            i = i + 1;
        }
        let mut local_time_data: Vec<LocalTimeType> = Vec::new();
        let mut i: u32 = 0;
        while i < count
            invariant
                i <= count,
                count == self.local_time_type_count,
                pool_len == self.abbreviation_char_count,
                pool_start == pos + 6 * count,
                pool_start + pool_len <= buf.len(),
                pool == spec_pool(buf@, pool_start as int, pool_len as int),
                all_terminated(buf@, pos as int, count as int, pool_len as int),
                lengths@.len() == count,
                forall|j: int|
                    0 <= j < count ==> (#[trigger] lengths@[j]) == abbreviation_len(
                        pool,
                        abbreviation_offset(buf@, pos as int, j),
                    ) && abbreviation_offset(buf@, pos as int, j) + lengths@[j] <= pool_len,
                forall|j: int|
                    0 <= j < i ==> valid_utf8(
                        #[trigger] record_text(buf@, pos as int, count as int, pool_len as int, j),
                    ),
                local_time_data@.len() == i,
                forall|j: int|
                    0 <= j < i ==> (#[trigger] local_time_data@[j])@ == spec_local_time_type(
                        buf@,
                        pos as int,
                        j,
                        pool,
                    ),
            decreases count - i,
        {
            let record = pos + 6 * (i as usize);
            let ut_offset = read_i32_at(buf, record);
            let isdst = buf[record + 4];
            let offset = buf[record + 5] as usize;
            assert(record_terminated(buf@, pos as int, count as int, pool_len as int, i as int));
            let len = lengths[i as usize];
            let text = slice_subrange(buf, pool_start + offset, pool_start + offset + len);
            assert(text@ =~= record_text(
                buf@,
                pos as int,
                count as int,
                pool_len as int,
                i as int,
            ));
            let abbreviation = match decode_text(text) {
                Some(abbreviation) => abbreviation,
                None => {
                    return Err(DecodeError::InvalidAbbreviationText);
                },
            };
            local_time_data.push(LocalTimeType { ut_offset, isdst: isdst != 0, abbreviation });
            i = i + 1;
        }
        assert(local_time_views(local_time_data@) =~= spec_local_time_types(
            buf@,
            pos as int,
            count as int,
            pool_len as int,
        ));
        Ok(local_time_data)
    }

    /// Returns the list of leap second transition changes.
    ///
    /// `pos` is the start of the table with leap second transitions.
    pub fn decode_leap_second_corrections(&self, buf: &[u8], pos: usize, wide: bool) -> (leaps:
        Result<Vec<(i64, i32)>, DecodeError>)
        requires
            pos <= buf.len(),
        ensures
            match leaps {
                Ok(v) => Ok::<Seq<(i64, i32)>, DecodeError>(v@),
                Err(e) => Err(e),
            } == spec_decode_leap_seconds(buf@, pos as int, self.leap_count as int, wide),
    {
        let count = self.leap_count;
        let end = if wide {
            table_end(buf.len(), pos, count, 12)
        } else {
            table_end(buf.len(), pos, count, 8)
        };
        if end.is_none() {
            return Err(DecodeError::Truncated(Field::LeapSeconds));
        }
        let step: usize = if wide {
            8
        } else {
            4
        };
        let mut leap_second_corrections: Vec<(i64, i32)> = Vec::new();
        let mut cursor: usize = pos;
        let mut i: u32 = 0;
        while i < count
            invariant
                i <= count,
                step == timestamps_len(wide, 1),
                cursor == pos + leaps_len(wide, i as int),
                pos + leaps_len(wide, count as int) <= buf.len(),
                leap_second_corrections@ == spec_leap_seconds(buf@, pos as int, i as int, wide),
            decreases count - i,
        {
            let transition_time = read_timestamp(buf, cursor, wide);
            let seconds = read_i32_at(buf, cursor + step);
            leap_second_corrections.push((transition_time, seconds));
            cursor = cursor + step + 4;
            i = i + 1;
        }
        Ok(leap_second_corrections)
    }

    /// Returns the list of transition moment flags (wall clock or standard).
    ///
    /// `pos` is the start of the table with wall clock or standard
    /// transition moments.
    pub fn decode_transition_flags1(&self, buf: &[u8], pos: usize) -> (flags: Result<
        Vec<TransitionTimeFlag>,
        DecodeError,
    >)
        requires
            pos <= buf.len(),
        ensures
            match flags {
                Ok(v) => Ok::<Seq<TransitionTimeFlag>, DecodeError>(v@),
                Err(e) => Err(e),
            } == spec_decode_std_wall_flags(buf@, pos as int, self.std_flag_count as int),
    {
        let count = self.std_flag_count;
        if table_end(buf.len(), pos, count, 1).is_none() {
            return Err(DecodeError::Truncated(Field::StdWallFlags));
        }
        let mut transition_flags: Vec<TransitionTimeFlag> = Vec::new();
        let mut i: u32 = 0;
        while i < count
            invariant
                i <= count,
                pos + count <= buf.len(),
                transition_flags@ == spec_std_wall_flags(buf@, pos as int, i as int),
            decreases count - i,
        {
            transition_flags.push(
                match buf[pos + i as usize] {
                    0 => TransitionTimeFlag::WallClock,
                    _ => TransitionTimeFlag::Standard,
                },
            );
            i = i + 1;
        }
        Ok(transition_flags)
    }

    /// Returns the list of transition moment flags (local or universal).
    ///
    /// `pos` is the start of the table with local or universal transition
    /// moments.
    pub fn decode_transition_flags2(&self, buf: &[u8], pos: usize) -> (flags: Result<
        Vec<TransitionTimeFlag>,
        DecodeError,
    >)
        requires
            pos <= buf.len(),
        ensures
            match flags {
                Ok(v) => Ok::<Seq<TransitionTimeFlag>, DecodeError>(v@),
                Err(e) => Err(e),
            } == spec_decode_ut_local_flags(buf@, pos as int, self.gmt_flag_count as int),
    {
        let count = self.gmt_flag_count;
        if table_end(buf.len(), pos, count, 1).is_none() {
            return Err(DecodeError::Truncated(Field::UtLocalFlags));
        }
        let mut transition_flags: Vec<TransitionTimeFlag> = Vec::new();
        let mut i: u32 = 0;
        while i < count
            invariant
                i <= count,
                pos + count <= buf.len(),
                transition_flags@ == spec_ut_local_flags(buf@, pos as int, i as int),
            decreases count - i,
        {
            transition_flags.push(
                match buf[pos + i as usize] {
                    0 => TransitionTimeFlag::Local,
                    _ => TransitionTimeFlag::Universal,
                },
            );
            i = i + 1;
        }
        Ok(transition_flags)
    }
}

} // verus!
