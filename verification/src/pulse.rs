//! The pulse-code encoder for addressable RGBW LED strips of the SK6812 kind.
//!
//! A pixel is sent as 32 bits, one pulse code each, followed by a low pulse
//! that latches it. The codes of one pixel must go out back to back.

use vstd::prelude::*;
use crate::board::{Board, Cell, Grid};
use crate::color::Rgbw;

verus! {

/// Output level of one half of a pulse code.
#[derive(Clone, Copy, Debug, PartialEq, Eq, Structural)]
pub enum Level {
    Low,
    High,
}

/// One pulse code: a level held for `length1` ticks, then a level held for
/// `length2` ticks.
#[derive(Clone, Copy, Debug, PartialEq, Eq, Structural)]
pub struct PulseCode {
    pub level1: Level,
    pub length1: u16,
    pub level2: Level,
    pub length2: u16,
}

/// High time of a zero bit, in ticks of the undivided 80 MHz channel clock.
pub const T0H: u16 = 40;

/// Low time of a zero bit.
pub const T0L: u16 = 85;

/// High time of a one bit.
pub const T1H: u16 = 80;

/// Low time of a one bit.
pub const T1L: u16 = 45;

/// Length of the low pulse that ends a pixel and latches it, in ticks of the
/// channel clock whatever its divider: a longer pause latches as well.
pub const LATCH_TICKS: u16 = 800;

/// Largest clock divider at which every pulse still lasts at least one tick.
pub const MAX_DIVIDER: u8 = 40;

/// The four pulse lengths of the data bits, in ticks of the channel clock.
#[derive(Clone, Copy, Debug, PartialEq, Eq, Structural)]
pub struct Timing {
    pub t0h: u16,
    pub t0l: u16,
    pub t1h: u16,
    pub t1l: u16,
}

/// The pulse lengths at a channel clock of 80 MHz divided by `divider`: the
/// undivided lengths divided likewise, rounded down.
pub open spec fn timing_at(divider: nat) -> Timing {
    Timing {
        t0h: (T0H as nat / divider) as u16,
        t0l: (T0L as nat / divider) as u16,
        t1h: (T1H as nat / divider) as u16,
        t1l: (T1L as nat / divider) as u16,
    }
}

/// Number of pulse codes that make up one pixel: 32 data bits and the latch.
pub const CODES_PER_PIXEL: usize = 33;

/// Bit `bit` of `byte`, bit 0 being the least significant.
pub open spec fn bit_set(byte: u8, bit: u8) -> bool {
    byte & (1u8 << bit) != 0
}

/// The pulse code of a data bit: high for `t1h` then low for `t1l` for a one,
/// high for `t0h` then low for `t0l` for a zero.
pub open spec fn bit_code(one: bool, timing: Timing) -> PulseCode {
    if one {
        PulseCode { level1: Level::High, length1: timing.t1h, level2: Level::Low, length2: timing.t1l }
    } else {
        PulseCode { level1: Level::High, length1: timing.t0h, level2: Level::Low, length2: timing.t0l }
    }
}

/// The code that ends a pixel: low for `LATCH_TICKS`, and nothing after it.
pub open spec fn latch_code() -> PulseCode {
    PulseCode { level1: Level::Low, length1: LATCH_TICKS, level2: Level::Low, length2: 0 }
}

/// The four bytes of a pixel in the order the strip takes them: green, red,
/// blue, white.
pub open spec fn wire_bytes(pixel: Rgbw) -> Seq<u8> {
    seq![pixel.g, pixel.r, pixel.b, pixel.w]
}

/// The 33 pulse codes of a pixel: for each wire byte in turn its eight bits,
/// most significant first, then the latch.
pub open spec fn pixel_codes(pixel: Rgbw, timing: Timing) -> Seq<PulseCode> {
    Seq::new(
        33,
        |i: int|
            if i < 32 {
                bit_code(bit_set(wire_bytes(pixel)[i / 8], (7 - i % 8) as u8), timing)
            } else {
                latch_code()
            },
    )
}

/// The pixel shown for a cell: dark for an empty cell, the dimmed colour for
/// an occupied one.
pub open spec fn cell_pixel(cell: Cell) -> Rgbw {
    match cell {
        Some(color) => color.pixel(),
        None => Rgbw { r: 0, g: 0, b: 0, w: 0 },
    }
}

/// The pixels of a grid in the order they are sent: row after row from the
/// top, each row from the left.
pub open spec fn grid_pixels(grid: Grid) -> Seq<Rgbw> {
    grid.rows.map_values(|row: Seq<Cell>| row.map_values(|cell: Cell| cell_pixel(cell))).flatten()
}

impl Timing {
    /// The pulse lengths for a channel whose clock is 80 MHz divided by
    /// `divider`. There are none for a divider of zero, nor for one so large
    /// that a pulse would last less than a tick.
    pub fn for_divider(divider: u8) -> (timing: Option<Timing>)
        ensures
            timing == if 1 <= divider <= MAX_DIVIDER {
                Some(timing_at(divider as nat))
            } else {
                None
            },
            timing matches Some(t) ==> t.t0h >= 1 && t.t0l >= 1 && t.t1h >= 1 && t.t1l >= 1,
    {
        if divider == 0 || divider > MAX_DIVIDER {
            return None;
        }
        let d = divider as u16;
        assert(40u16 / d >= 1 && 45u16 / d >= 1 && 80u16 / d >= 1 && 85u16 / d >= 1) by (nonlinear_arith)
            requires
                1 <= d <= 40,
        ;
        Some(Timing { t0h: T0H / d, t0l: T0L / d, t1h: T1H / d, t1l: T1L / d })
    }
}

/// Encodes one pixel as the 33 pulse codes that the strip takes for it, with
/// the given pulse lengths.
pub fn encode_pixel(pixel: Rgbw, timing: Timing) -> (codes: [PulseCode; 33])
    ensures
        codes@ == pixel_codes(pixel, timing),
{
    let latch = PulseCode { level1: Level::Low, length1: LATCH_TICKS, level2: Level::Low, length2: 0 };
    let mut codes: [PulseCode; 33] = [latch; 33];
    let bytes: [u8; 4] = [pixel.g, pixel.r, pixel.b, pixel.w];
    assert(bytes@ =~= wire_bytes(pixel));
    let mut idx: usize = 0;
    while idx < 32
        invariant
            idx <= 32,
            bytes@ == wire_bytes(pixel),
            latch == latch_code(),
            forall|i: int| 0 <= i < idx ==> codes@[i] == pixel_codes(pixel, timing)[i],
            forall|i: int| idx <= i < 33 ==> codes@[i] == latch,
        decreases 32 - idx,
    {
        let byte = bytes[idx / 8];
        let bit: u8 = 7 - (idx % 8) as u8;
        let code = if (byte & (1u8 << bit)) != 0 {
            PulseCode { level1: Level::High, length1: timing.t1h, level2: Level::Low, length2: timing.t1l }
        } else {
            PulseCode { level1: Level::High, length1: timing.t0h, level2: Level::Low, length2: timing.t0l }
        };
        codes[idx] = code;
        idx = idx + 1;
    }
    assert(codes@ =~= pixel_codes(pixel, timing));
    codes
}

/// Encodes one pixel for a channel that runs at the undivided clock.
pub fn create_led_bits(r: u8, g: u8, b: u8, w: u8) -> (codes: [PulseCode; 33])
    ensures
        codes@ == pixel_codes(Rgbw { r, g, b, w }, timing_at(1)),
{
    encode_pixel(Rgbw { r, g, b, w }, Timing { t0h: T0H, t0l: T0L, t1h: T1H, t1l: T1L })
}

/// The pixel to show for a cell.
pub fn pixel_of(cell: Cell) -> (pixel: Rgbw)
    ensures
        pixel == cell_pixel(cell),
{
    match cell {
        Some(color) => color.rgbw(),
        None => Rgbw { r: 0, g: 0, b: 0, w: 0 },
    }
}

/// The pixels of a frame in the order they are to be sent.
pub fn frame_pixels(frame: &Board) -> (pixels: Vec<Rgbw>)
    requires
        frame.wf(),
    ensures
        pixels@ == grid_pixels(frame@),
{
    let ghost per_row = frame@.rows.map_values(
        |row: Seq<Cell>| row.map_values(|cell: Cell| cell_pixel(cell)),
    );
    let mut pixels: Vec<Rgbw> = Vec::new();
    let height = frame.height();
    let width = frame.width();
    let mut y: usize = 0;
    while y < height
        invariant
            frame.wf(),
            height == frame@.height(),
            width == frame@.width,
            y <= height,
            per_row == frame@.rows.map_values(
                |row: Seq<Cell>| row.map_values(|cell: Cell| cell_pixel(cell)),
            ),
            pixels@ == per_row.take(y as int).flatten_alt(),
        decreases height - y,
    {
        let ghost done = pixels@;
        let mut x: usize = 0;
        while x < width
            invariant
                frame.wf(),
                y < height,
                height == frame@.height(),
                width == frame@.width,
                frame@.rows[y as int].len() == width,
                per_row.len() == height,
                per_row[y as int] == frame@.rows[y as int].map_values(|cell: Cell| cell_pixel(cell)),
                x <= width,
                pixels@ =~= done + per_row[y as int].take(x as int),
            decreases width - x,
        {
            pixels.push(pixel_of(frame.get(x, y)));
            x = x + 1;
        }
        proof {
            assert(per_row.take(y + 1).drop_last() =~= per_row.take(y as int));
        }
        y = y + 1;
    }
    proof {
        assert(per_row.take(height as int) =~= per_row);
        per_row.lemma_flatten_and_flatten_alt_are_equivalent();
    }
    pixels
}

/// Rows of one width, laid end to end: there are `rows * width` items, and
/// the item of column `x` in row `y` is item `y * width + x`.
proof fn lemma_row_major<A>(rows: Seq<Seq<A>>, width: nat, x: int, y: int)
    requires
        forall|j: int| 0 <= j < rows.len() ==> (#[trigger] rows[j]).len() == width,
        0 <= y < rows.len(),
        0 <= x < width,
    ensures
        rows.flatten_alt().len() == rows.len() * width,
        0 <= y * width + x < rows.len() * width,
        rows.flatten_alt()[y * width + x] == rows[y][x],
    decreases rows.len(),
{
    let n = rows.len() as int;
    let w = width as int;
    let head = rows.drop_last();
    assert((n - 1) * w + w == n * w) by (nonlinear_arith);
    assert(0 <= y * w && y * w + w <= n * w) by (nonlinear_arith)
        requires
            0 <= y < n,
            0 <= w,
    ;
    if n > 1 {
        lemma_row_major(head, width, x, if y < n - 1 { y } else { 0 });
    } else {
        assert(head.flatten_alt().len() == 0);
    }
    assert(head.flatten_alt().len() == (n - 1) * w);
    if y == n - 1 {
        assert(y * w == (n - 1) * w);
    } else {
        assert(y * w + w <= (n - 1) * w) by (nonlinear_arith)
            requires
                0 <= y < n - 1,
                0 <= w,
        ;
    }
}

/// The pixels of a grid are sent row after row: there are `width * height`
/// of them, and the cell in column `x` of row `y` is pixel `y * width + x`.
pub proof fn lemma_pixels_row_major(grid: Grid, x: int, y: int)
    requires
        grid.wf(),
        grid.contains(x, y),
    ensures
        grid_pixels(grid).len() == grid.height() * grid.width,
        0 <= y * grid.width + x < grid_pixels(grid).len(),
        grid_pixels(grid)[y * grid.width + x] == cell_pixel(grid.at(x, y)),
{
    let per_row = grid.rows.map_values(|row: Seq<Cell>| row.map_values(|cell: Cell| cell_pixel(cell)));
    per_row.lemma_flatten_and_flatten_alt_are_equivalent();
    lemma_row_major(per_row, grid.width, x, y);
}

} // verus!
