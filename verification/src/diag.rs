use vstd::prelude::*;

verus! {

/// Number of columns the matrix animation cycles through.
pub const MATRIX_COLUMNS: u8 = 8;

/// Number of pixels on the animated strip.
pub const STRIP_PIXELS: usize = 8;

/// Self-contained state of the matrix animation: which column the moving bit
/// occupies. No other component reads it.
#[derive(Clone, Copy, Debug, PartialEq, Eq, Structural)]
pub struct MatrixState {
    /// Current column, always below `MATRIX_COLUMNS`.
    pub column: u8,
}

impl MatrixState {
    /// The column index is in range.
    pub open spec fn wf(self) -> bool {
        self.column < MATRIX_COLUMNS
    }

    /// The animation starts at the first column.
    pub fn new() -> (r: MatrixState)
        ensures
            r.column == 0,
            r.wf(),
    {
        MatrixState { column: 0 }
    }

    /// Advance the moving bit one column, wrapping at the last column so the
    /// pattern cycles forever.
    pub fn advance(&mut self)
        requires
            old(self).wf(),
        ensures
            final(self).column == (old(self).column + 1) % (MATRIX_COLUMNS as int),
            final(self).wf(),
    {
        if self.column + 1 < MATRIX_COLUMNS {
            self.column = self.column + 1;
        } else {
            self.column = 0;
        }
    }
}

/// The color shown for a position on a 256-step color wheel: red fades to
/// green over the first third, green to blue over the second, blue back to
/// red over the last.
pub open spec fn wheel_rgb(pos: u8) -> (u8, u8, u8) {
    if pos < 85 {
        ((255 - 3 * pos) as u8, (3 * pos) as u8, 0u8)
    } else if pos < 170 {
        (0u8, (255 - 3 * (pos - 85)) as u8, (3 * (pos - 85)) as u8)
    } else {
        ((3 * (pos - 170)) as u8, 0u8, (255 - 3 * (pos - 170)) as u8)
    }
}

/// Compute one color-wheel entry.
pub fn wheel_color(pos: u8) -> (r: (u8, u8, u8))
    ensures
        r == wheel_rgb(pos),
{
    if pos < 85 {
        (255 - 3 * pos, 3 * pos, 0)
    } else if pos < 170 {
        (0, 255 - 3 * (pos - 85), 3 * (pos - 85))
    } else {
        (3 * (pos - 170), 0, 255 - 3 * (pos - 170))
    }
}

/// Every wheel color has total intensity 255: the animation shifts
/// brightness between the channels and never changes their sum.
pub proof fn lemma_wheel_brightness(pos: u8)
    ensures
        wheel_rgb(pos).0 + wheel_rgb(pos).1 + wheel_rgb(pos).2 == 255,
{
}

/// The wheel position pixel `i` of a frame at `offset` shows: the offset
/// advanced by the pixel index, wrapping around the wheel.
pub open spec fn pixel_pos(offset: u8, i: int) -> u8 {
    ((offset + i) % 256) as u8
}

/// Compute one frame of the strip animation: `pixels` colors, pixel `i`
/// showing the wheel color at `offset + i`. Successive offsets advance the
/// whole pattern along the strip.
pub fn strip_frame(offset: u8, pixels: usize) -> (r: Vec<(u8, u8, u8)>)
    ensures
        r@.len() == pixels,
        forall|i: int| 0 <= i < pixels ==> r@[i] == wheel_rgb(pixel_pos(offset, i)),
{
    let mut out: Vec<(u8, u8, u8)> = Vec::new();
    let mut i: usize = 0;
    while i < pixels
        invariant
            i <= pixels,
            out@.len() == i,
            forall|j: int| 0 <= j < i ==> out@[j] == wheel_rgb(pixel_pos(offset, j)),
        decreases pixels - i,
    {
        let pos = (((offset as usize) + (i % 256)) % 256) as u8;
        proof {
            vstd::arithmetic::div_mod::lemma_add_mod_noop(offset as int, i as int, 256);
            assert(pos == pixel_pos(offset, i as int));
        }
        out.push(wheel_color(pos));
        i = i + 1;
    }
    out
}

} // verus!
