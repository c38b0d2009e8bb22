//! Parsing of `tzfile(5)` time zone data and queries on the parsed zone.

pub mod body;
pub mod decode;
pub mod error;
pub mod header;
pub mod laws;
pub mod lookup;
pub mod tables;
pub mod text;
pub mod timeline;
pub mod wire;
pub mod zone;

pub use crate::error::{DecodeError, Field};
pub use crate::lookup::LookupError;
pub use crate::tables::TransitionTimeFlag;
pub use crate::zone::{ZoneInfo, ZoneInfoElement};
