//! A multicodec table entry as plain values: the numeric code and the
//! canonical name that identify a codec.

use vstd::prelude::*;
use crate::text::{lower_hex, push_lower_hex};

verus! {

/// One entry of the multicodec table: its code (not varint-encoded) and its
/// canonical name, such as `0x12` and `"sha2-256"`. Entries are ordered by
/// code, then by name; the table lists its codecs in increasing code order.
#[derive(Clone, Copy, Debug, Eq, Hash, Ord, PartialEq, PartialOrd)]
pub struct CodecEntry {
    /// The multicodec code.
    pub code: u64,
    /// The canonical name of the codec.
    pub name: &'static str,
}

/// How a codec renders for debugging: its name, then its code in lowercase
/// hexadecimal, as in `sha2-256 (0x12)`.
pub open spec fn codec_debug_text(c: CodecEntry) -> Seq<char> {
    c.name@ + " (0x"@ + lower_hex(c.code as nat) + ")"@
}

impl CodecEntry {
    /// The entry with the given code and name.
    pub fn new(code: u64, name: &'static str) -> (c: Self)
        ensures
            c.code == code,
            c.name == name,
    {
        CodecEntry { code, name }
    }

    /// The debugging text of the codec: `name (0xcode)`.
    pub fn debug_text(&self) -> (s: String)
        ensures
            s@ == codec_debug_text(*self),
    {
        let mut s = String::from_str(self.name);
        s.append(" (0x");
        push_lower_hex(&mut s, self.code);
        s.append(")");
        s
    }
}

} // verus!
