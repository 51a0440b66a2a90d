//! The encoder for a chain of 8x8 dot-matrix modules driven by MAX7219
//! shift-register chips.
//!
//! The modules hang on one chip-select line. Every transfer is one frame of
//! two bytes per module, shifted through the whole chain. Modules are numbered
//! from 1; the highest number is the module wired closest to the controller.

use vstd::prelude::*;
use crate::board::{Board, Grid};

verus! {

/// Register that ignores what is written to it.
pub const REG_NOOP: u8 = 0x00;

/// Register of the first of the eight scan lines; the others follow it.
pub const REG_DIGIT0: u8 = 0x01;

/// Register that selects BCD decoding per scan line.
pub const REG_DECODE_MODE: u8 = 0x09;

/// Register that sets the brightness.
pub const REG_INTENSITY: u8 = 0x0a;

/// Register that sets how many scan lines are driven.
pub const REG_SCAN_LIMIT: u8 = 0x0b;

/// Register that switches between shutdown and normal operation.
pub const REG_SHUTDOWN: u8 = 0x0c;

/// Register that switches the display test on and off.
pub const REG_DISPLAY_TEST: u8 = 0x0f;

/// The brightness the modules are run at, out of 15.
pub const INTENSITY: u8 = 0x01;

/// Number of modules in the chain that shows the 8 by 32 board.
pub const CHAIN_LENGTH: usize = 4;

/// Largest number of modules in a chain: as many bands of eight rows as the
/// highest board has.
pub const MAX_MODULES: usize = 0x1fff;

/// One register write for one module.
#[derive(Clone, Copy, Debug, PartialEq, Eq, Structural)]
pub struct Command {
    pub register: u8,
    pub value: u8,
}

/// The cell `(x, y)` exists and is occupied.
pub open spec fn lit(grid: Grid, x: int, y: int) -> bool {
    grid.contains(x, y) && grid.at(x, y) is Some
}

/// What row `local_row` of a band adds to a column byte when its cell is
/// lit: bit `7 - local_row`.
pub open spec fn row_bit(grid: Grid, module: int, column: int, local_row: int) -> nat {
    if lit(grid, column, (module - 1) * 8 + local_row) {
        if local_row == 0 {
            128
        } else if local_row == 1 {
            64
        } else if local_row == 2 {
            32
        } else if local_row == 3 {
            16
        } else if local_row == 4 {
            8
        } else if local_row == 5 {
            4
        } else if local_row == 6 {
            2
        } else {
            1
        }
    } else {
        0
    }
}

/// The byte sent to scan line `column` of module `module`. The module shows
/// the band of board rows `8 * (module - 1)` to `8 * module - 1`, turned by a
/// quarter: a scan line is a board column, and row `r` of the band is bit
/// `7 - r` of the byte.
pub open spec fn column_byte(grid: Grid, module: int, column: int) -> nat {
    row_bit(grid, module, column, 0) + row_bit(grid, module, column, 1) + row_bit(
        grid,
        module,
        column,
        2,
    ) + row_bit(grid, module, column, 3) + row_bit(grid, module, column, 4) + row_bit(
        grid,
        module,
        column,
        5,
    ) + row_bit(grid, module, column, 6) + row_bit(grid, module, column, 7)
}

/// The frame that carries `command` to module `target` of a chain of
/// `modules`: the command stands at position `modules - target`, and every
/// other position holds a no-op, so that no other module changes.
pub open spec fn addressed(modules: nat, target: nat, command: Command) -> Seq<u8> {
    Seq::new(
        2 * modules,
        |i: int|
            if i / 2 == modules - target {
                if i % 2 == 0 {
                    command.register
                } else {
                    command.value
                }
            } else {
                REG_NOOP
            },
    )
}

/// The commands that set a module up, in order: no BCD decoding, the fixed
/// brightness, all eight scan lines, normal operation, display test off.
pub open spec fn setup_commands() -> Seq<Command> {
    seq![
        Command { register: REG_DECODE_MODE, value: 0x00 },
        Command { register: REG_INTENSITY, value: INTENSITY },
        Command { register: REG_SCAN_LIMIT, value: 0x07 },
        Command { register: REG_SHUTDOWN, value: 0x01 },
        Command { register: REG_DISPLAY_TEST, value: 0x00 },
    ]
}

/// The command that writes scan line `column` of module `module` for `grid`.
pub open spec fn line_command(grid: Grid, module: int, column: int) -> Command {
    Command { register: (REG_DIGIT0 + column) as u8, value: column_byte(grid, module, column) as u8 }
}

/// Whether the bit that stands for row `local_row` of a band is set in `byte`.
spec fn row_bit_set(byte: u8, local_row: int) -> bool {
    byte & (1u8 << ((7 - local_row) as u8)) != 0
}

proof fn lemma_or_bit(byte: u8, bit: u8, other: u8)
    by (bit_vector)
    requires
        bit < 8,
        other < 8,
    ensures
        ((byte | (1u8 << bit)) & (1u8 << other) != 0) == (other == bit || byte & (1u8 << other) != 0),
{
}

proof fn lemma_byte_is_sum_of_bits(byte: u8)
    by (bit_vector)
    ensures
        byte == (byte & 128) + (byte & 64) + (byte & 32) + (byte & 16) + (byte & 8) + (byte & 4) + (
        byte & 2) + (byte & 1),
        byte & 128 == 0 || byte & 128 == 128,
        byte & 64 == 0 || byte & 64 == 64,
        byte & 32 == 0 || byte & 32 == 32,
        byte & 16 == 0 || byte & 16 == 16,
        byte & 8 == 0 || byte & 8 == 8,
        byte & 4 == 0 || byte & 4 == 4,
        byte & 2 == 0 || byte & 2 == 2,
        byte & 1 == 0 || byte & 1 == 1,
        1u8 << 7 == 128,
        1u8 << 6 == 64,
        1u8 << 5 == 32,
        1u8 << 4 == 16,
        1u8 << 3 == 8,
        1u8 << 2 == 4,
        1u8 << 1 == 2,
        1u8 << 0 == 1,
        0u8 & (1u8 << 7) == 0,
        0u8 & (1u8 << 6) == 0,
        0u8 & (1u8 << 5) == 0,
        0u8 & (1u8 << 4) == 0,
        0u8 & (1u8 << 3) == 0,
        0u8 & (1u8 << 2) == 0,
        0u8 & (1u8 << 1) == 0,
        0u8 & (1u8 << 0) == 0,
{
}

/// Builds the byte for one scan line of one module.
fn column_bits(frame: &Board, module: usize, column: usize) -> (byte: u8)
    requires
        frame.wf(),
        1 <= module <= MAX_MODULES,
        column < 8,
    ensures
        byte as nat == column_byte(frame@, module as int, column as int),
{
    let top: usize = (module - 1) * 8;
    let mut byte: u8 = 0;
    let mut local_row: usize = 0;
    proof {
        lemma_byte_is_sum_of_bits(0);
    }
    while local_row < 8
        invariant
            frame.wf(),
            column < 8,
            top == (module - 1) * 8,
            top <= 0xfff0,
            local_row <= 8,
            forall|r: int|
                0 <= r < 8 ==> (#[trigger] row_bit_set(byte, r) == (r < local_row && lit(
                    frame@,
                    column as int,
                    top + r,
                ))),
        decreases 8 - local_row,
    {
        let y = top + local_row;
        let ghost before = byte;
        if column < frame.width() && y < frame.height() {
            if frame.get(column, y).is_some() {
                byte = byte | (1u8 << ((7 - local_row) as u8));
                proof {
                    assert forall|r: int| 0 <= r < 8 implies (#[trigger] row_bit_set(byte, r) == (r
                        < local_row + 1 && lit(frame@, column as int, top + r))) by {
                        assert(row_bit_set(before, r) == (r < local_row && lit(
                            frame@,
                            column as int,
                            top + r,
                        )));
                        lemma_or_bit(before, (7 - local_row) as u8, (7 - r) as u8);
                    }
                }
            }
        }
        local_row = local_row + 1;
    }
    proof {
        lemma_byte_is_sum_of_bits(byte);
        assert(row_bit_set(byte, 0) == lit(frame@, column as int, top + 0));
        assert(row_bit_set(byte, 1) == lit(frame@, column as int, top + 1));
        assert(row_bit_set(byte, 2) == lit(frame@, column as int, top + 2));
        assert(row_bit_set(byte, 3) == lit(frame@, column as int, top + 3));
        assert(row_bit_set(byte, 4) == lit(frame@, column as int, top + 4));
        assert(row_bit_set(byte, 5) == lit(frame@, column as int, top + 5));
        assert(row_bit_set(byte, 6) == lit(frame@, column as int, top + 6));
        assert(row_bit_set(byte, 7) == lit(frame@, column as int, top + 7));
    }
    byte
}

/// The eight scan-line bytes of one module for a frame.
pub fn column_data(frame: &Board, module: usize) -> (data: [u8; 8])
    requires
        frame.wf(),
        1 <= module <= MAX_MODULES,
    ensures
        forall|column: int|
            0 <= column < 8 ==> (#[trigger] data@[column]) as nat == column_byte(
                frame@,
                module as int,
                column,
            ),
{
    let mut data: [u8; 8] = [0; 8];
    let mut column: usize = 0;
    while column < 8
        invariant
            frame.wf(),
            1 <= module <= MAX_MODULES,
            column <= 8,
            forall|c: int|
                0 <= c < column ==> (#[trigger] data@[c]) as nat == column_byte(
                    frame@,
                    module as int,
                    c,
                ),
        decreases 8 - column,
    {
        data[column] = column_bits(frame, module, column);
        column = column + 1;
    }
    data
}

/// Builds the frame that carries `command` to module `target` of a chain of
/// `modules` and leaves the other modules as they are.
pub fn address(modules: usize, target: usize, command: Command) -> (frame: Vec<u8>)
    requires
        1 <= target <= modules <= MAX_MODULES,
    ensures
        frame@ == addressed(modules as nat, target as nat, command),
{
    let mut frame: Vec<u8> = Vec::new();
    let mut position: usize = 0;
    while position < modules
        invariant
            1 <= target <= modules <= MAX_MODULES,
            position <= modules,
            frame@.len() == 2 * position,
            forall|i: int|
                0 <= i < 2 * position ==> frame@[i] == addressed(
                    modules as nat,
                    target as nat,
                    command,
                )[i],
        decreases modules - position,
    {
        if position == modules - target {
            frame.push(command.register);
            frame.push(command.value);
        } else {
            frame.push(REG_NOOP);
            frame.push(0x00);
        }
        position = position + 1;
    }
    frame
}

/// The commands that set one module up, in the order they are to be sent.
pub fn setup_sequence() -> (commands: [Command; 5])
    ensures
        commands@ == setup_commands(),
{
    let commands = [
        Command { register: REG_DECODE_MODE, value: 0x00 },
        Command { register: REG_INTENSITY, value: INTENSITY },
        Command { register: REG_SCAN_LIMIT, value: 0x07 },
        Command { register: REG_SHUTDOWN, value: 0x01 },
        Command { register: REG_DISPLAY_TEST, value: 0x00 },
    ];
    commands
}

/// The frames that set up a chain of `modules`: for each module from 1 up,
/// its five setup commands.
pub fn setup_frames(modules: usize) -> (frames: Vec<Vec<u8>>)
    requires
        modules <= MAX_MODULES,
    ensures
        frames@.len() == 5 * modules,
        forall|i: int|
            0 <= i < 5 * modules ==> (#[trigger] frames@[i])@ == addressed(
                modules as nat,
                (i / 5 + 1) as nat,
                setup_commands()[i % 5],
            ),
{
    let commands = setup_sequence();
    let mut frames: Vec<Vec<u8>> = Vec::new();
    let mut module: usize = 1;
    while module <= modules
        invariant
            modules <= MAX_MODULES,
            1 <= module <= modules + 1,
            commands@ == setup_commands(),
            frames@.len() == 5 * (module - 1),
            forall|i: int|
                0 <= i < 5 * (module - 1) ==> (#[trigger] frames@[i])@ == addressed(
                    modules as nat,
                    (i / 5 + 1) as nat,
                    setup_commands()[i % 5],
                ),
        decreases modules + 1 - module,
    {
        let mut step: usize = 0;
        while step < 5
            invariant
                1 <= module <= modules <= MAX_MODULES,
                step <= 5,
                commands@ == setup_commands(),
                frames@.len() == 5 * (module - 1) + step,
                forall|i: int|
                    0 <= i < 5 * (module - 1) + step ==> (#[trigger] frames@[i])@ == addressed(
                        modules as nat,
                        (i / 5 + 1) as nat,
                        setup_commands()[i % 5],
                    ),
            decreases 5 - step,
        {
            frames.push(address(modules, module, commands[step]));
            step = step + 1;
        }
        module = module + 1;
    }
    frames
}

/// The frames that show `frame` on a chain of `modules`: for each module from
/// 1 up, its eight scan lines from the first. The whole picture is sent every
/// time.
pub fn render_frames(frame: &Board, modules: usize) -> (frames: Vec<Vec<u8>>)
    requires
        frame.wf(),
        modules <= MAX_MODULES,
    ensures
        frames@.len() == 8 * modules,
        forall|i: int|
            0 <= i < 8 * modules ==> (#[trigger] frames@[i])@ == addressed(
                modules as nat,
                (i / 8 + 1) as nat,
                line_command(frame@, i / 8 + 1, i % 8),
            ),
{
    let mut frames: Vec<Vec<u8>> = Vec::new();
    let mut module: usize = 1;
    while module <= modules
        invariant
            frame.wf(),
            modules <= MAX_MODULES,
            1 <= module <= modules + 1,
            frames@.len() == 8 * (module - 1),
            forall|i: int|
                0 <= i < 8 * (module - 1) ==> (#[trigger] frames@[i])@ == addressed(
                    modules as nat,
                    (i / 8 + 1) as nat,
                    line_command(frame@, i / 8 + 1, i % 8),
                ),
        decreases modules + 1 - module,
    {
        let data = column_data(frame, module);
        let mut column: usize = 0;
        while column < 8
            invariant
                frame.wf(),
                1 <= module <= modules <= MAX_MODULES,
                column <= 8,
                forall|c: int|
                    0 <= c < 8 ==> (#[trigger] data@[c]) as nat == column_byte(
                        frame@,
                        module as int,
                        c,
                    ),
                frames@.len() == 8 * (module - 1) + column,
                forall|i: int|
                    0 <= i < 8 * (module - 1) + column ==> (#[trigger] frames@[i])@ == addressed(
                        modules as nat,
                        (i / 8 + 1) as nat,
                        line_command(frame@, i / 8 + 1, i % 8),
                    ),
            decreases 8 - column,
        {
            let command = Command { register: REG_DIGIT0 + column as u8, value: data[column] };
            frames.push(address(modules, module, command));
            column = column + 1;
        }
        module = module + 1;
    }
    frames
}

proof fn lemma_bits_of_sum(
    b0: bool,
    b1: bool,
    b2: bool,
    b3: bool,
    b4: bool,
    b5: bool,
    b6: bool,
    b7: bool,
    v: u8,
)
    by (bit_vector)
    requires
        v == (if b0 { 128u8 } else { 0u8 }) + (if b1 { 64u8 } else { 0u8 }) + (if b2 { 32u8 } else { 0u8 })
            + (if b3 { 16u8 } else { 0u8 }) + (if b4 { 8u8 } else { 0u8 }) + (if b5 { 4u8 } else { 0u8 })
            + (if b6 { 2u8 } else { 0u8 }) + (if b7 { 1u8 } else { 0u8 }),
    ensures
        (v & (1u8 << 7u8) != 0) == b0,
        (v & (1u8 << 6u8) != 0) == b1,
        (v & (1u8 << 5u8) != 0) == b2,
        (v & (1u8 << 4u8) != 0) == b3,
        (v & (1u8 << 3u8) != 0) == b4,
        (v & (1u8 << 2u8) != 0) == b5,
        (v & (1u8 << 1u8) != 0) == b6,
        (v & (1u8 << 0u8) != 0) == b7,
{
}

/// A column byte fits in eight bits, and its bit `7 - r` is set exactly when
/// the cell in row `r` of the band is lit.
pub proof fn lemma_column_bits(grid: Grid, module: int, column: int, r: int)
    requires
        0 <= r < 8,
    ensures
        column_byte(grid, module, column) < 256,
        crate::pulse::bit_set(column_byte(grid, module, column) as u8, (7 - r) as u8) == lit(
            grid,
            column,
            (module - 1) * 8 + r,
        ),
{
    let top = (module - 1) * 8;
    let v = column_byte(grid, module, column) as u8;
    lemma_bits_of_sum(
        lit(grid, column, top + 0),
        lit(grid, column, top + 1),
        lit(grid, column, top + 2),
        lit(grid, column, top + 3),
        lit(grid, column, top + 4),
        lit(grid, column, top + 5),
        lit(grid, column, top + 6),
        lit(grid, column, top + 7),
        v,
    );
}

/// A lit cell in one of the first eight columns sets its own bit, bit
/// `7 - y % 8` of scan line `x` of module `y / 8 + 1`; where it is the only
/// lit cell, that byte holds nothing else and every other byte is zero.
pub proof fn lemma_lone_cell(grid: Grid, x: int, y: int, module: int, column: int)
    requires
        0 <= x < 8,
        lit(grid, x, y),
        forall|i: int, j: int| lit(grid, i, j) ==> i == x && j == y,
        module >= 1,
        0 <= column < 8,
    ensures
        column_byte(grid, y / 8 + 1, x) == row_bit(grid, y / 8 + 1, x, y % 8),
        row_bit(grid, y / 8 + 1, x, y % 8) > 0,
        !(module == y / 8 + 1 && column == x) ==> column_byte(grid, module, column) == 0,
{
    let home = y / 8 + 1;
}

} // verus!
