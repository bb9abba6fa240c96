//! Turning a picture of palette indexes into RGBA bytes.

use vstd::prelude::*;

verus! {

/// Colours in the console's system palette.
pub const SYSTEM_PALETTE_LEN: usize = 64;

/// The RGBA byte `i` of the picture: four bytes per pixel, the colour the pixel's palette
/// index (taken modulo 64) selects, then an opaque alpha.
pub open spec fn rgba_byte(palette: Seq<(u8, u8, u8)>, indexes: Seq<u8>, i: int) -> u8 {
    let c = palette[(indexes[i / 4] % 64) as int];
    if i % 4 == 0 {
        c.0
    } else if i % 4 == 1 {
        c.1
    } else if i % 4 == 2 {
        c.2
    } else {
        255
    }
}

/// Holds the last picture as palette indexes and the system palette that colours it.
pub struct PixelsRenderer {
    pub palette_buffer: Vec<u8>,
    pub palette: Vec<(u8, u8, u8)>,
}

impl PixelsRenderer {
    pub open spec fn wf(&self) -> bool {
        self.palette_buffer@.len() == 256 * 240 && self.palette@.len() == 64
    }

    /// A renderer with a blank picture; `palette` must hold the 64 system colours.
    pub fn new(palette: Vec<(u8, u8, u8)>) -> (r: PixelsRenderer)
        requires
            palette@.len() == SYSTEM_PALETTE_LEN,
        ensures
            r.wf(),
            r.palette@ == palette@,
            r.palette_buffer@ == Seq::new(256 * 240, |i: int| 0u8),
    {
        let mut palette_buffer: Vec<u8> = Vec::with_capacity(256 * 240);
        let mut i: usize = 0;
        while i < 256 * 240
            invariant
                i <= 256 * 240,
                palette_buffer@ == Seq::new(i as nat, |k: int| 0u8),
            decreases 256 * 240 - i,
        {
            palette_buffer.push(0);
            i = i + 1;
            assert(palette_buffer@ =~= Seq::new(i as nat, |k: int| 0u8));
        }
        PixelsRenderer { palette_buffer, palette }
    }

    /// Writes the picture into `buf` as RGBA bytes.
    pub fn draw_to(&self, buf: &mut Vec<u8>)
        requires
            self.wf(),
            old(buf)@.len() == 4 * 256 * 240,
        ensures
            final(buf)@ == Seq::new(
                4 * 256 * 240,
                |i: int| rgba_byte(self.palette@, self.palette_buffer@, i),
            ),
    {
        let mut index: usize = 0;
        while index < 256 * 240
            invariant
                self.wf(),
                buf@.len() == 4 * 256 * 240,
                index <= 256 * 240,
                forall|j: int|
                    0 <= j < 4 * index ==> buf@[j] == rgba_byte(self.palette@, self.palette_buffer@, j),
            decreases 256 * 240 - index,
        {
            let col = self.palette[(self.palette_buffer[index] % 64) as usize];
            let base = 4 * index;
            buf.set(base, col.0);
            buf.set(base + 1, col.1);
            buf.set(base + 2, col.2);
            buf.set(base + 3, 255);
            proof {
                assert forall|j: int| 0 <= j < 4 * (index + 1) implies buf@[j] == rgba_byte(
                    self.palette@,
                    self.palette_buffer@,
                    j,
                ) by {
                    if j >= 4 * index {
                        assert(j / 4 == index as int);
                    }
                }
            }
            index = index + 1;
        }
        assert(buf@ =~= Seq::new(
            4 * 256 * 240,
            |i: int| rgba_byte(self.palette@, self.palette_buffer@, i),
        ));
    }
}

} // verus!
