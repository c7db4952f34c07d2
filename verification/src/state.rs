//! The machine as a mathematical value, and the effect of every instruction
//! as a function on such values.

use crate::memory::MEMORY_SIZE;
use crate::screen::{HEIGHT, PIXELS, WIDTH};
use vstd::prelude::*;

verus! {

/// Number of general-purpose registers, `V0` to `VF`.
pub const REGISTERS: usize = 16;

/// Index of `VF`, the register that arithmetic, shift and draw instructions
/// overwrite with their flag.
pub const FLAG: usize = 0xF;

/// Number of pixel columns that one sprite row covers: one per bit of a byte.
pub const SPRITE_WIDTH: usize = 8;

/// Which historical behaviour the shift and jump-with-offset instructions follow.
#[derive(Clone, Copy, Debug, PartialEq, Eq, Structural)]
pub enum Compatibility {
    /// Shifts read `VY`; the jump with offset adds `V0`.
    Original,
    /// Shifts read `VX`; the jump with offset adds `VX`.
    New,
}

/// The compatibility that a configuration name selects: `original` and
/// `new` select their modes, every other name selects none.
pub open spec fn selected_compatibility(name: Seq<char>) -> Option<Compatibility> {
    if name =~= "original"@ {
        Some(Compatibility::Original)
    } else if name =~= "new"@ {
        Some(Compatibility::New)
    } else {
        None
    }
}

impl Compatibility {
    /// Reads a compatibility from its configuration name.
    pub fn from_name(name: &str) -> (compatibility: Option<Compatibility>)
        ensures
            compatibility == selected_compatibility(name@),
    {
        proof {
            reveal_strlit("original");
            reveal_strlit("new");
        }
        let length: usize = name.unicode_len();
        if length == 3 {
            if name.get_char(0) == 'n' && name.get_char(1) == 'e' && name.get_char(2) == 'w' {
                assert(name@ =~= "new"@);
                Some(Compatibility::New)
            } else {
                None
            }
        } else if length == 8 {
            if name.get_char(0) == 'o' && name.get_char(1) == 'r' && name.get_char(2) == 'i'
                && name.get_char(3) == 'g' && name.get_char(4) == 'i' && name.get_char(5) == 'n'
                && name.get_char(6) == 'a' && name.get_char(7) == 'l' {
                assert(name@ =~= "original"@);
                Some(Compatibility::Original)
            } else {
                None
            }
        } else {
            None
        }
    }
}

/// A condition that ends the emulation session. The machine is left as it
/// was before the instruction that raised it.
#[derive(Clone, Copy, Debug, PartialEq, Eq, Structural)]
pub enum Fault {
    /// A return was executed while no return address was on the stack.
    StackEmpty,
    /// A jump with offset was invoked in the form that belongs to the other
    /// compatibility mode.
    CompatibilityMismatch,
    /// The program counter does not address two bytes of memory.
    FetchOutsideMemory,
    /// A sprite row lies beyond the end of memory.
    SpriteOutsideMemory,
    /// A sprite cell lies beyond the end of the framebuffer.
    SpriteOutsideDisplay,
}

/// Why an instruction was not executed.
#[derive(Clone, Copy, Debug, PartialEq, Eq, Structural)]
pub enum ExecuteError {
    /// The instruction word belongs to no known instruction. The session can
    /// go on with the next instruction.
    NotRecognized { instruction: u16 },
    /// The instruction raised a fault. The session cannot go on.
    Fatal(Fault),
}

/// The machine as a mathematical value: what a
/// [`Processor`](crate::processor::Processor) holds, with sequences in place
/// of arrays and vectors. Every instruction is a function from one such
/// value to the next.
#[verifier::ext_equal]
pub struct MachineState {
    /// Program counter.
    pub pc: u16,
    /// Index register.
    pub i: u16,
    /// Return addresses, newest last.
    pub stack: Seq<u16>,
    pub delay_timer: u8,
    pub sound_timer: u8,
    /// The sixteen registers.
    pub v: Seq<u8>,
    /// The bytes of memory, by address.
    pub memory: Seq<u8>,
    /// The pixels, row after row.
    pub gfx: Seq<bool>,
    pub compatibility: Compatibility,
}

/// `a + b` modulo 256.
pub open spec fn wrapped_sum(a: u8, b: u8) -> u8 {
    ((a + b) % 256) as u8
}

/// 1 when `a + b` does not fit in a byte, else 0.
pub open spec fn carry(a: u8, b: u8) -> u8 {
    if a + b > 255 {
        1
    } else {
        0
    }
}

/// `a - b` modulo 256.
pub open spec fn wrapped_difference(a: u8, b: u8) -> u8 {
    ((a - b) % 256) as u8
}

/// 1 when `a - b` needs no borrow, else 0.
pub open spec fn no_borrow(a: u8, b: u8) -> u8 {
    if a >= b {
        1
    } else {
        0
    }
}

/// The weight of the bit in column `col` of a byte, column 0 being the most
/// significant bit.
pub open spec fn bit_weight(col: int) -> int {
    if col == 0 {
        128
    } else if col == 1 {
        64
    } else if col == 2 {
        32
    } else if col == 3 {
        16
    } else if col == 4 {
        8
    } else if col == 5 {
        4
    } else if col == 6 {
        2
    } else {
        1
    }
}

/// Whether the bit of `byte` in column `col` is set.
pub open spec fn bit_at(byte: u8, col: int) -> bool {
    (byte as int / bit_weight(col)) % 2 == 1
}

/// Whether a sprite of `rows` rows whose top-left pixel is the cell `origin`
/// touches `cell`. Cells are counted along the flat framebuffer, so a row
/// that starts near the right edge runs on into the next line.
pub open spec fn sprite_covers(origin: int, rows: int, cell: int) -> bool {
    let offset = cell - origin;
    0 <= offset && offset / (WIDTH as int) < rows && offset % (WIDTH as int) < SPRITE_WIDTH
}

impl MachineState {
    /// The sizes that the fixed-size parts of a machine have.
    pub open spec fn wf(self) -> bool {
        &&& self.v.len() == REGISTERS
        &&& self.memory.len() == MEMORY_SIZE
        &&& self.gfx.len() == PIXELS
    }

    /// The same machine with the program counter at `pc`.
    pub open spec fn with_pc(self, pc: u16) -> MachineState {
        MachineState { pc, ..self }
    }

    /// The same machine with register `x` holding `value`.
    pub open spec fn with_register(self, x: int, value: u8) -> MachineState {
        MachineState { v: self.v.update(x, value), ..self }
    }

    /// The same machine with register `x` holding `value` and, written after
    /// it, `VF` holding `flag`: where `x` is `VF` itself, the flag stays.
    pub open spec fn with_flagged_register(self, x: int, value: u8, flag: u8) -> MachineState {
        MachineState { v: self.v.update(x, value).update(FLAG as int, flag), ..self }
    }

    /// The instruction word that the program counter addresses: the byte at
    /// `pc` is its high half, the byte after it its low half.
    pub open spec fn fetched(self) -> u16 {
        (self.memory[self.pc as int] * 256 + self.memory[self.pc + 1]) as u16
    }

    /// Whether the program counter addresses two bytes of memory.
    pub open spec fn can_fetch(self) -> bool {
        self.pc + 1 < MEMORY_SIZE
    }

    /// Whether the program counter can move past one more instruction.
    pub open spec fn can_skip(self) -> bool {
        self.pc + 2 <= u16::MAX
    }

    /// The machine with the program counter moved past one instruction.
    pub open spec fn advanced(self) -> MachineState {
        self.with_pc((self.pc + 2) as u16)
    }

    /// All pixels off.
    pub open spec fn clear_screen(self) -> MachineState {
        MachineState { gfx: Seq::new(PIXELS as nat, |cell: int| false), ..self }
    }

    /// The newest return address leaves the stack and becomes the program
    /// counter.
    pub open spec fn return_from_subroutine(self) -> MachineState {
        MachineState { pc: self.stack.last(), stack: self.stack.drop_last(), ..self }
    }

    /// The program counter goes onto the stack and `nnn` takes its place.
    pub open spec fn call(self, nnn: u16) -> MachineState {
        MachineState { pc: nnn, stack: self.stack.push(self.pc), ..self }
    }

    /// The next instruction is passed over when `condition` holds.
    pub open spec fn skip_if(self, condition: bool) -> MachineState {
        if condition {
            self.advanced()
        } else {
            self
        }
    }

    /// `VX` grows by `nn`, modulo 256. No flag is written.
    pub open spec fn add_immediate(self, x: int, nn: u8) -> MachineState {
        self.with_register(x, wrapped_sum(self.v[x], nn))
    }

    /// `VX` becomes `VX + VY` modulo 256 and `VF` the carry.
    pub open spec fn add_registers(self, x: int, y: int) -> MachineState {
        self.with_flagged_register(
            x,
            wrapped_sum(self.v[x], self.v[y]),
            carry(self.v[x], self.v[y]),
        )
    }

    /// `VX` becomes `minuend - subtrahend` modulo 256, taken from the
    /// registers of those indices, and `VF` is 1 when no borrow was needed.
    pub open spec fn subtract_registers(self, x: int, minuend: int, subtrahend: int)
        -> MachineState {
        self.with_flagged_register(
            x,
            wrapped_difference(self.v[minuend], self.v[subtrahend]),
            no_borrow(self.v[minuend], self.v[subtrahend]),
        )
    }

    /// The register that a shift reads: `VY` under `Original`, `VX` under
    /// `New`.
    pub open spec fn shift_source(self, x: int, y: int) -> u8 {
        match self.compatibility {
            Compatibility::Original => self.v[y],
            Compatibility::New => self.v[x],
        }
    }

    /// `VX` becomes the shift source halved and `VF` the bit that fell off.
    pub open spec fn shift_right(self, x: int, y: int) -> MachineState {
        let source = self.shift_source(x, y);
        self.with_flagged_register(x, (source / 2) as u8, (source % 2) as u8)
    }

    /// `VX` becomes the shift source doubled, modulo 256, and `VF` the bit
    /// that fell off.
    pub open spec fn shift_left(self, x: int, y: int) -> MachineState {
        let source = self.shift_source(x, y);
        self.with_flagged_register(x, ((source * 2) % 256) as u8, (source / 128) as u8)
    }

    /// The program counter becomes `nnn` plus the content of `register`.
    pub open spec fn jump_with_offset(self, nnn: u16, register: int) -> MachineState {
        self.with_pc((nnn + self.v[register]) as u16)
    }

    /// `VX` becomes the bits of `random` that `nn` lets through.
    pub open spec fn randomize(self, x: int, nn: u8, random: u8) -> MachineState {
        self.with_register(x, random & nn)
    }

    /// The framebuffer cell of the top-left pixel of a sprite drawn at
    /// (`VX`, `VY`): both coordinates wrap into the display.
    pub open spec fn sprite_origin(self, x: int, y: int) -> int {
        (self.v[y] as int % HEIGHT as int) * WIDTH as int + self.v[x] as int % WIDTH as int
    }

    /// Whether the `n` sprite rows that start at `i` lie within memory.
    pub open spec fn sprite_in_memory(self, n: int) -> bool {
        n > 0 ==> self.i + n <= MEMORY_SIZE
    }

    /// Whether every cell of an `n`-row sprite drawn at (`VX`, `VY`) lies
    /// within the framebuffer.
    pub open spec fn sprite_on_display(self, x: int, y: int, n: int) -> bool {
        n > 0 ==> self.sprite_origin(x, y) + (n - 1) * WIDTH + SPRITE_WIDTH <= PIXELS
    }

    /// The sprite pixel that falls on `cell` when the sprite's top-left pixel
    /// is the cell `origin`: row by row from the byte at `i` on, most
    /// significant bit first.
    pub open spec fn sprite_pixel(self, origin: int, cell: int) -> bool {
        let offset = cell - origin;
        bit_at(self.memory[self.i + offset / (WIDTH as int)], offset % (WIDTH as int))
    }

    /// Whether drawing turns `cell` from on to off.
    pub open spec fn erases(self, origin: int, rows: int, cell: int) -> bool {
        sprite_covers(origin, rows, cell) && self.gfx[cell] && self.sprite_pixel(origin, cell)
    }

    /// The framebuffer after the sprite has been combined into it by
    /// exclusive or.
    pub open spec fn drawn(self, origin: int, rows: int) -> Seq<bool> {
        Seq::new(
            PIXELS as nat,
            |cell: int|
                if sprite_covers(origin, rows, cell) {
                    self.gfx[cell] ^ self.sprite_pixel(origin, cell)
                } else {
                    self.gfx[cell]
                },
        )
    }

    /// Whether drawing turns any pixel from on to off.
    pub open spec fn collides(self, origin: int, rows: int) -> bool {
        exists|cell: int| 0 <= cell < PIXELS && #[trigger] self.erases(origin, rows, cell)
    }

    /// The `n`-row sprite at `i` is drawn at (`VX`, `VY`); `VF` becomes 1 if
    /// any pixel went from on to off during the whole draw, else 0.
    pub open spec fn draw(self, x: int, y: int, n: int) -> MachineState {
        let origin = self.sprite_origin(x, y);
        MachineState {
            gfx: self.drawn(origin, n),
            v: self.v.update(
                FLAG as int,
                if self.collides(origin, n) {
                    1
                } else {
                    0
                },
            ),
            ..self
        }
    }
}

} // verus!
