use vstd::prelude::*;

verus! {

pub const DISPLAY_WIDTH: usize = 240;
pub const DISPLAY_HEIGHT: usize = 160;
pub const SCALE: usize = 3;
pub const SCALED_WIDTH: usize = DISPLAY_WIDTH * SCALE;
pub const SCALED_HEIGHT: usize = DISPLAY_HEIGHT * SCALE;

/// The red, green and blue bytes of a 0x00RRGGBB pixel.
pub open spec fn red(p: u32) -> u8 {
    ((p >> 16) & 0xFF) as u8
}

pub open spec fn green(p: u32) -> u8 {
    ((p >> 8) & 0xFF) as u8
}

pub open spec fn blue(p: u32) -> u8 {
    (p & 0xFF) as u8
}

/// Converts the emulator's frame buffer (one 0x00RRGGBB word per pixel) to packed RGB
/// bytes at native resolution.
pub fn to_rgb(src: &[u32]) -> (r: Vec<u8>)
    requires
        src@.len() == DISPLAY_WIDTH * DISPLAY_HEIGHT,
    ensures
        r@.len() == 3 * src@.len(),
        forall|i: int|
            0 <= i < src@.len() ==> {
                &&& #[trigger] r@[3 * i] == red(src@[i])
                &&& r@[3 * i + 1] == green(src@[i])
                &&& r@[3 * i + 2] == blue(src@[i])
            },
{
    let mut out: Vec<u8> = Vec::with_capacity(DISPLAY_WIDTH * DISPLAY_HEIGHT * 3);
    let mut i: usize = 0;
    while i < src.len()
        invariant
            src@.len() == DISPLAY_WIDTH * DISPLAY_HEIGHT,
            i <= src@.len(),
            out@.len() == 3 * i,
            forall|j: int|
                0 <= j < i ==> {
                    &&& #[trigger] out@[3 * j] == red(src@[j])
                    &&& out@[3 * j + 1] == green(src@[j])
                    &&& out@[3 * j + 2] == blue(src@[j])
                },
        decreases src@.len() - i,
    {
        let pixel = src[i];
        let ghost before = out@;
        out.push(((pixel >> 16) & 0xFF) as u8);
        out.push(((pixel >> 8) & 0xFF) as u8);
        out.push((pixel & 0xFF) as u8);
        assert(out@ == before + seq![red(pixel), green(pixel), blue(pixel)]);
        assert forall|j: int| 0 <= j <= i implies {
            &&& #[trigger] out@[3 * j] == red(src@[j])
            &&& out@[3 * j + 1] == green(src@[j])
            &&& out@[3 * j + 2] == blue(src@[j])
        } by {
            if j < i {
                assert(out@[3 * j] == before[3 * j]);
                assert(out@[3 * j + 1] == before[3 * j + 1]);
                assert(out@[3 * j + 2] == before[3 * j + 2]);
            }
        }
        i = i + 1;
    }
    out
}

} // verus!
