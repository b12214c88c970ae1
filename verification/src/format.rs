//! Image sizes and pixel formats.

use vstd::prelude::*;

verus! {

/// Width of the fixed stream, and of the variable stream's encoder until a client resizes it.
pub const WIDTH: u32 = 1920;

/// Height of the fixed stream, and of the variable stream's encoder until a client resizes it.
pub const HEIGHT: u32 = 1080;

/// Width that the camera is first asked for on the variable stream.
pub const VARIABLE_WIDTH: u32 = 1080;

/// Height that the camera is first asked for on the variable stream.
pub const VARIABLE_HEIGHT: u32 = 720;

/// Four-character code of the raw images, `NV12`.
pub const PF: [u8; 4] = [0x4e, 0x56, 0x31, 0x32];

/// Four-character code of the encoded images, `H264`.
pub const ENCODED_PF: [u8; 4] = [0x48, 0x32, 0x36, 0x34];

/// The size of an image in pixels.
#[derive(Debug, Clone, Copy, PartialEq, Eq, Structural)]
pub struct Size {
    pub width: u32,
    pub height: u32,
}

/// A pixel format: a four-character code as a little-endian number, and a
/// vendor's modifier of the memory layout (0 is the linear layout).
#[derive(Debug, Clone, Copy, PartialEq, Eq, Structural)]
pub struct PixelFormat {
    pub fourcc: u32,
    pub modifier: u64,
}

/// The number whose little-endian bytes are `code`.
pub open spec fn fourcc_value(code: Seq<u8>) -> int {
    code[0] + 0x100 * code[1] + 0x1_0000 * code[2] + 0x100_0000 * code[3]
}

/// Packs a four-character code into a number, the first character lowest.
pub fn fourcc(code: &[u8; 4]) -> (value: u32)
    ensures
        value == fourcc_value(code@),
{
    code[0] as u32 + 0x100 * (code[1] as u32) + 0x1_0000 * (code[2] as u32) + 0x100_0000 * (
    code[3] as u32)
}

/// The pixel format of the raw images.
pub open spec fn raw_pixel_format() -> PixelFormat {
    PixelFormat { fourcc: 0x3231_564e, modifier: 0 }
}

/// The pixel format that both camera streams are configured with.
pub fn pixel_format() -> (format: PixelFormat)
    ensures
        format == raw_pixel_format(),
        format.fourcc == fourcc_value(PF@),
{
    PixelFormat { fourcc: fourcc(&PF), modifier: 0 }
}

/// A code can be read back from its number: the number has four bytes, and they are
/// the characters of the code, the first one lowest.
pub proof fn law_fourcc_holds_code(code: Seq<u8>)
    requires
        code.len() == 4,
    ensures
        0 <= fourcc_value(code) < 0x1_0000_0000,
        fourcc_value(code) % 0x100 == code[0],
        fourcc_value(code) / 0x100 % 0x100 == code[1],
        fourcc_value(code) / 0x1_0000 % 0x100 == code[2],
        fourcc_value(code) / 0x100_0000 == code[3],
{
}

/// The raw images are linear, and their pixel format is the one that is called `NV12`.
pub proof fn law_raw_images_are_nv12()
    ensures
        raw_pixel_format().fourcc % 0x100 == "NV12"@[0] as int,
        raw_pixel_format().fourcc / 0x100 % 0x100 == "NV12"@[1] as int,
        raw_pixel_format().fourcc / 0x1_0000 % 0x100 == "NV12"@[2] as int,
        raw_pixel_format().fourcc / 0x100_0000 == "NV12"@[3] as int,
        raw_pixel_format().modifier == 0,
{
    reveal_strlit("NV12");
}

} // verus!
