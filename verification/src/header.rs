//! The fixed envelope at the start of each body of a zone file.

use crate::error::{DecodeError, Field};
use crate::wire::{be_u32_at, read_u32_at};
use vstd::prelude::*;

verus! {

/// Length of a header in bytes.
pub const HEADER_LEN: usize = 44;

/// The version byte of a file with a second, 64-bit body.
pub const VERSION_2: u8 = 0x32;

/// The version byte of a file whose rule string may use the later extensions.
pub const VERSION_3: u8 = 0x33;

/// The four bytes that every header begins with: `TZif`.
pub open spec fn magic() -> Seq<u8> {
    seq![0x54u8, 0x5Au8, 0x69u8, 0x66u8]
}

/// The version byte and the six table sizes of one body.
#[derive(Debug, Clone, Copy, PartialEq, Eq, Structural)]
pub struct Header {
    pub version: u8,
    pub gmt_flag_count: u32,
    pub std_flag_count: u32,
    pub leap_count: u32,
    pub transition_count: u32,
    pub local_time_type_count: u32,
    pub abbreviation_char_count: u32,
}

/// The header that begins at `base`, or the reason why there is none.
///
/// The magic is judged as soon as its four bytes are there; after that the
/// first field that the buffer does not hold in full is named.
pub open spec fn spec_header(bytes: Seq<u8>, base: int) -> Result<Header, DecodeError> {
    if bytes.len() < base + 4 {
        Err(DecodeError::Truncated(Field::Magic))
    } else if bytes.subrange(base, base + 4) != magic() {
        Err(DecodeError::BadMagic)
    } else if bytes.len() < base + 5 {
        Err(DecodeError::Truncated(Field::Version))
    } else if bytes.len() < base + 20 {
        Err(DecodeError::Truncated(Field::Reserved))
    } else if bytes.len() < base + 24 {
        Err(DecodeError::Truncated(Field::GmtFlagCount))
    } else if bytes.len() < base + 28 {
        Err(DecodeError::Truncated(Field::StdFlagCount))
    } else if bytes.len() < base + 32 {
        Err(DecodeError::Truncated(Field::LeapCount))
    } else if bytes.len() < base + 36 {
        Err(DecodeError::Truncated(Field::TransitionCount))
    } else if bytes.len() < base + 40 {
        Err(DecodeError::Truncated(Field::LocalTimeTypeCount))
    } else if bytes.len() < base + 44 {
        Err(DecodeError::Truncated(Field::AbbreviationCharCount))
    } else {
        Ok(
            Header {
                version: bytes[base + 4],
                gmt_flag_count: be_u32_at(bytes, base + 20) as u32,
                std_flag_count: be_u32_at(bytes, base + 24) as u32,
                leap_count: be_u32_at(bytes, base + 28) as u32,
                transition_count: be_u32_at(bytes, base + 32) as u32,
                local_time_type_count: be_u32_at(bytes, base + 36) as u32,
                abbreviation_char_count: be_u32_at(bytes, base + 40) as u32,
            },
        )
    }
}

impl Header {
    /// Whether a second body with 64-bit timestamps and a rule string follow
    /// the first body.
    pub open spec fn spec_has_wide_body(&self) -> bool {
        self.version == VERSION_2 || self.version == VERSION_3
    }

    /// Whether a second body with 64-bit timestamps and a rule string follow
    /// the first body.
    #[verifier::when_used_as_spec(spec_has_wide_body)]
    pub fn has_wide_body(&self) -> (wide: bool)
        ensures
            wide == self.spec_has_wide_body(),
    {
        self.version == VERSION_2 || self.version == VERSION_3
    }

    /// Reads one count of the header, or says that `field` is cut short.
    fn read_count(buf: &[u8], pos: usize, field: Field) -> (count: Result<u32, DecodeError>)
        requires
            pos <= buf.len(),
        ensures
            count == (if buf@.len() < pos + 4 {
                Err::<u32, DecodeError>(DecodeError::Truncated(field))
            } else {
                Ok(be_u32_at(buf@, pos as int) as u32)
            }),
    {
        if buf.len() - pos < 4 {
            Err(DecodeError::Truncated(field))
        } else {
            Ok(read_u32_at(buf, pos))
        }
    }

    /// Decodes the header that begins at `base`.
    pub fn decode(buf: &[u8], base: usize) -> (header: Result<Header, DecodeError>)
        requires
            base <= buf.len(),
        ensures
            header == spec_header(buf@, base as int),
            header is Ok ==> base + HEADER_LEN <= buf.len(),
    {
        let avail = buf.len() - base;
        if avail < 4 {
            return Err(DecodeError::Truncated(Field::Magic));
        }
        if buf[base] != 0x54 || buf[base + 1] != 0x5A || buf[base + 2] != 0x69 || buf[base + 3]
            != 0x66 {
            return Err(DecodeError::BadMagic);
        }
        assert(buf@.subrange(base as int, base + 4) =~= magic());
        if avail < 5 {
            return Err(DecodeError::Truncated(Field::Version));
        }
        let version = buf[base + 4];
        if avail < 20 {
            return Err(DecodeError::Truncated(Field::Reserved));
        }
        let gmt_flag_count = match Self::read_count(buf, base + 20, Field::GmtFlagCount) {
            Ok(count) => count,
            Err(e) => { return Err(e); },
        };
        let std_flag_count = match Self::read_count(buf, base + 24, Field::StdFlagCount) {
            Ok(count) => count,
            Err(e) => { return Err(e); },
        };
        let leap_count = match Self::read_count(buf, base + 28, Field::LeapCount) {
            Ok(count) => count,
            Err(e) => { return Err(e); },
        };
        let transition_count = match Self::read_count(buf, base + 32, Field::TransitionCount) {
            Ok(count) => count,
            Err(e) => { return Err(e); },
        };
        let local_time_type_count = match Self::read_count(
            buf,
            base + 36,
            Field::LocalTimeTypeCount,
        ) {
            Ok(count) => count,
            Err(e) => { return Err(e); },
        };
        let abbreviation_char_count = match Self::read_count(
            buf,
            base + 40,
            Field::AbbreviationCharCount,
        ) {
            Ok(count) => count,
            Err(e) => { return Err(e); },
        };
        Ok(
            Header {
                version,
                gmt_flag_count,
                std_flag_count,
                leap_count,
                transition_count,
                local_time_type_count,
                abbreviation_char_count,
            },
        )
    }
}

} // verus!
