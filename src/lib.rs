//! Single-byte text codecs for ISO8859-1 (Latin-1) and ISO8859-10 (Latin-6): characters
//! validated on construction, their classification, their mapping to Unicode scalar values,
//! and strings that hold only valid characters.

pub mod classes;
pub mod latin1;
pub mod latin6;
pub mod latin6_map;
pub mod latin6_str;
pub mod text;

pub use crate::latin1::{FromIso8859_1Error, IsoLatin1Char, IsoLatin1CharError, IsoLatin1String};
pub use crate::latin6::{map_byte_to_char, map_char_to_byte, IsoLatin6Char, IsoLatin6CharError};
pub use crate::latin6_str::{FromIso8859_10Error, IsoLatin6Str};
pub use crate::text::Alignment;
