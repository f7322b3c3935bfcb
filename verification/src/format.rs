use vstd::prelude::*;

verus! {

/// A pixel format, identified at the kernel boundary by its four-character
/// code: four ASCII bytes packed little-endian into a `u32`.
#[derive(Clone, Copy, Debug, PartialEq, Eq, Structural)]
pub enum Format {
    /// `[23:0]` R:G:B 8:8:8 little endian; code `"RG24"`.
    RGB888,
    /// `[31:0]` x:R:G:B 8:8:8:8 little endian; code `"XR24"`.
    XRGB8888,
}

/// The four-character code of a format: `'R' | 'G' << 8 | '2' << 16 | '4' << 24`
/// for [`Format::RGB888`], and likewise `"XR24"` for [`Format::XRGB8888`].
pub open spec fn spec_format_code(f: Format) -> u32 {
    match f {
        Format::RGB888 => 0x34324752,
        Format::XRGB8888 => 0x34325258,
    }
}

/// The format a four-character code stands for, if this library knows it.
pub open spec fn spec_format_from_code(code: u32) -> Option<Format> {
    if code == 0x34324752 {
        Some(Format::RGB888)
    } else if code == 0x34325258 {
        Some(Format::XRGB8888)
    } else {
        None
    }
}

impl Format {
    /// Returns the four-character code transmitted at the kernel boundary.
    pub fn code(self) -> (r: u32)
        ensures
            r == spec_format_code(self),
    {
        match self {
            Format::RGB888 => 0x34324752,
            Format::XRGB8888 => 0x34325258,
        }
    }

    /// Decodes a four-character code; unknown codes yield `None`.
    pub fn from_code(code: u32) -> (r: Option<Format>)
        ensures
            r == spec_format_from_code(code),
    {
        if code == 0x34324752 {
            Some(Format::RGB888)
        } else if code == 0x34325258 {
            Some(Format::XRGB8888)
        } else {
            None
        }
    }
}

/// Decoding a format's own code gives that format back.
pub proof fn lemma_format_code_round_trip(f: Format)
    ensures
        spec_format_from_code(spec_format_code(f)) == Some(f),
{
}

} // verus!
