//! The instructions, one type each, with the operands that each accepts,
//! the fault that it may raise and the state that it yields.

use crate::memory::MEMORY_SIZE;
use crate::processor::Processor;
use crate::screen::{HEIGHT, PIXELS, WIDTH};
use crate::state::{
    bit_at, sprite_covers, Compatibility, Fault, MachineState, FLAG, REGISTERS, SPRITE_WIDTH,
};
use crate::trusted::{filled, random_byte};
use vstd::prelude::*;

verus! {

/// One instruction of the machine: a transition from one machine state to
/// the next, selected by the operand list `data`.
pub trait OpCode {
    /// The operand lists, and the machines, that the instruction is defined
    /// for.
    spec fn accepts(state: MachineState, data: Seq<u16>) -> bool;

    /// The fault that the instruction raises on `state`, if any.
    spec fn fault(state: MachineState, data: Seq<u16>) -> Option<Fault>;

    /// Whether the instruction may take `state` to `next`.
    spec fn yields(state: MachineState, data: Seq<u16>, next: MachineState) -> bool;

    /// Executes the instruction. It succeeds exactly when the instruction
    /// raises no fault; a fault leaves the processor as it was.
    fn execute(processor: &mut Processor, data: &[u16]) -> (outcome: Result<(), Fault>)
        requires
            Self::accepts(old(processor)@, data@),
        ensures
            match outcome {
                Ok(()) => Self::fault(old(processor)@, data@) is None && Self::yields(
                    old(processor)@,
                    data@,
                    final(processor)@,
                ),
                Err(fault) => Self::fault(old(processor)@, data@) == Some(fault)
                    && final(processor)@ == old(processor)@,
            },
    ;
}

/// What [`OpCode::execute`] owes, as a relation between the state before,
/// the operands, the outcome and the state after: success and a next state
/// that `Op` yields, exactly when `Op` raises no fault; else that fault, and
/// the state untouched.
pub open spec fn performs<Op: OpCode>(
    state: MachineState,
    data: Seq<u16>,
    outcome: Result<(), Fault>,
    next: MachineState,
) -> bool {
    match outcome {
        Ok(()) => Op::fault(state, data) is None && Op::yields(state, data, next),
        Err(fault) => Op::fault(state, data) == Some(fault) && next == state,
    }
}

/// An operand list that starts with a 12-bit address `NNN`.
pub open spec fn has_nnn(data: Seq<u16>) -> bool {
    data.len() >= 1 && data[0] <= 0xFFF
}

/// An operand list that starts with a register index `X`.
pub open spec fn has_x(data: Seq<u16>) -> bool {
    data.len() >= 1 && data[0] < REGISTERS
}

/// An operand list that starts with a register index `X` and a byte `NN`.
pub open spec fn has_x_nn(data: Seq<u16>) -> bool {
    data.len() >= 2 && data[0] < REGISTERS && data[1] <= 0xFF
}

/// An operand list that starts with two register indices `X` and `Y`.
pub open spec fn has_x_y(data: Seq<u16>) -> bool {
    data.len() >= 2 && data[0] < REGISTERS && data[1] < REGISTERS
}

/// 00E0: clear the framebuffer.
pub struct OpCode00E0 {}

impl OpCode for OpCode00E0 {
    open spec fn accepts(state: MachineState, data: Seq<u16>) -> bool {
        true
    }

    open spec fn fault(state: MachineState, data: Seq<u16>) -> Option<Fault> {
        None
    }

    open spec fn yields(state: MachineState, data: Seq<u16>, next: MachineState) -> bool {
        next == state.clear_screen()
    }

    fn execute(processor: &mut Processor, data: &[u16]) -> (outcome: Result<(), Fault>) {
        processor.gfx = filled(false);
        assert(processor@ =~= old(processor)@.clear_screen());
        Ok(())
    }
}

/// 00EE: return from a subroutine. Raises [`Fault::StackEmpty`] when no return
/// address is on the stack.
pub struct OpCode00EE {}

impl OpCode for OpCode00EE {
    open spec fn accepts(state: MachineState, data: Seq<u16>) -> bool {
        true
    }

    open spec fn fault(state: MachineState, data: Seq<u16>) -> Option<Fault> {
        if state.stack.len() == 0 {
            Some(Fault::StackEmpty)
        } else {
            None
        }
    }

    open spec fn yields(state: MachineState, data: Seq<u16>, next: MachineState) -> bool {
        next == state.return_from_subroutine()
    }

    fn execute(processor: &mut Processor, data: &[u16]) -> (outcome: Result<(), Fault>) {
        match processor.stack.pop() {
            Some(return_address) => {
                processor.pc = return_address;
                assert(processor@ =~= old(processor)@.return_from_subroutine());
                Ok(())
            },
            None => {
                assert(processor@ =~= old(processor)@);
                Err(Fault::StackEmpty)
            },
        }
    }
}

/// 1NNN: jump to `NNN`.
pub struct OpCode1NNN {}

impl OpCode for OpCode1NNN {
    open spec fn accepts(state: MachineState, data: Seq<u16>) -> bool {
        has_nnn(data)
    }

    open spec fn fault(state: MachineState, data: Seq<u16>) -> Option<Fault> {
        None
    }

    open spec fn yields(state: MachineState, data: Seq<u16>, next: MachineState) -> bool {
        next == state.with_pc(data[0])
    }

    fn execute(processor: &mut Processor, data: &[u16]) -> (outcome: Result<(), Fault>) {
        processor.pc = data[0];
        Ok(())
    }
}

/// 2NNN: call the subroutine at `NNN`.
pub struct OpCode2NNN {}

impl OpCode for OpCode2NNN {
    open spec fn accepts(state: MachineState, data: Seq<u16>) -> bool {
        has_nnn(data)
    }

    open spec fn fault(state: MachineState, data: Seq<u16>) -> Option<Fault> {
        None
    }

    open spec fn yields(state: MachineState, data: Seq<u16>, next: MachineState) -> bool {
        next == state.call(data[0])
    }

    fn execute(processor: &mut Processor, data: &[u16]) -> (outcome: Result<(), Fault>) {
        let nnn: u16 = data[0];
        processor.stack.push(processor.pc);
        processor.pc = nnn;
        Ok(())
    }
}

/// 3XNN: skip the next instruction if `VX` equals `NN`.
pub struct OpCode3XNN {}

impl OpCode for OpCode3XNN {
    open spec fn accepts(state: MachineState, data: Seq<u16>) -> bool {
        has_x_nn(data) && state.can_skip()
    }

    open spec fn fault(state: MachineState, data: Seq<u16>) -> Option<Fault> {
        None
    }

    open spec fn yields(state: MachineState, data: Seq<u16>, next: MachineState) -> bool {
        next == state.skip_if(state.v[data[0] as int] == data[1])
    }

    fn execute(processor: &mut Processor, data: &[u16]) -> (outcome: Result<(), Fault>) {
        let x: usize = data[0] as usize;
        let nn: u8 = data[1] as u8;
        if processor.v[x] == nn {
            processor.pc += 2;
        }
        Ok(())
    }
}

/// 4XNN: skip the next instruction if `VX` differs from `NN`.
pub struct OpCode4XNN {}

impl OpCode for OpCode4XNN {
    open spec fn accepts(state: MachineState, data: Seq<u16>) -> bool {
        has_x_nn(data) && state.can_skip()
    }

    open spec fn fault(state: MachineState, data: Seq<u16>) -> Option<Fault> {
        None
    }

    open spec fn yields(state: MachineState, data: Seq<u16>, next: MachineState) -> bool {
        next == state.skip_if(state.v[data[0] as int] != data[1])
    }

    fn execute(processor: &mut Processor, data: &[u16]) -> (outcome: Result<(), Fault>) {
        let x: usize = data[0] as usize;
        let nn: u8 = data[1] as u8;
        if processor.v[x] != nn {
            processor.pc += 2;
        }
        Ok(())
    }
}

/// 5XY0: skip the next instruction if `VX` equals `VY`.
pub struct OpCode5XY0 {}

impl OpCode for OpCode5XY0 {
    open spec fn accepts(state: MachineState, data: Seq<u16>) -> bool {
        has_x_y(data) && state.can_skip()
    }

    open spec fn fault(state: MachineState, data: Seq<u16>) -> Option<Fault> {
        None
    }

    open spec fn yields(state: MachineState, data: Seq<u16>, next: MachineState) -> bool {
        next == state.skip_if(state.v[data[0] as int] == state.v[data[1] as int])
    }

    fn execute(processor: &mut Processor, data: &[u16]) -> (outcome: Result<(), Fault>) {
        let x: usize = data[0] as usize;
        let y: usize = data[1] as usize;
        if processor.v[x] == processor.v[y] {
            processor.pc += 2;
        }
        Ok(())
    }
}

/// 6XNN: set `VX` to `NN`.
pub struct OpCode6XNN {}

impl OpCode for OpCode6XNN {
    open spec fn accepts(state: MachineState, data: Seq<u16>) -> bool {
        has_x_nn(data)
    }

    open spec fn fault(state: MachineState, data: Seq<u16>) -> Option<Fault> {
        None
    }

    open spec fn yields(state: MachineState, data: Seq<u16>, next: MachineState) -> bool {
        next == state.with_register(data[0] as int, data[1] as u8)
    }

    fn execute(processor: &mut Processor, data: &[u16]) -> (outcome: Result<(), Fault>) {
        let x: usize = data[0] as usize;
        let nn: u8 = data[1] as u8;
        processor.v[x] = nn;
        Ok(())
    }
}

/// 7XNN: add `NN` to `VX`, modulo 256, without touching the flag.
pub struct OpCode7XNN {}

impl OpCode for OpCode7XNN {
    open spec fn accepts(state: MachineState, data: Seq<u16>) -> bool {
        has_x_nn(data)
    }

    open spec fn fault(state: MachineState, data: Seq<u16>) -> Option<Fault> {
        None
    }

    open spec fn yields(state: MachineState, data: Seq<u16>, next: MachineState) -> bool {
        next == state.add_immediate(data[0] as int, data[1] as u8)
    }

    fn execute(processor: &mut Processor, data: &[u16]) -> (outcome: Result<(), Fault>) {
        let x: usize = data[0] as usize;
        let nn: u8 = data[1] as u8;
        processor.v[x] = processor.v[x].wrapping_add(nn);
        Ok(())
    }
}

/// 8XY0: set `VX` to `VY`.
pub struct OpCode8XY0 {}

impl OpCode for OpCode8XY0 {
    open spec fn accepts(state: MachineState, data: Seq<u16>) -> bool {
        has_x_y(data)
    }

    open spec fn fault(state: MachineState, data: Seq<u16>) -> Option<Fault> {
        None
    }

    open spec fn yields(state: MachineState, data: Seq<u16>, next: MachineState) -> bool {
        next == state.with_register(data[0] as int, state.v[data[1] as int])
    }

    fn execute(processor: &mut Processor, data: &[u16]) -> (outcome: Result<(), Fault>) {
        let x: usize = data[0] as usize;
        let y: usize = data[1] as usize;
        processor.v[x] = processor.v[y];
        Ok(())
    }
}

/// 8XY1: set `VX` to the bitwise or of `VX` and `VY`.
pub struct OpCode8XY1 {}

impl OpCode for OpCode8XY1 {
    open spec fn accepts(state: MachineState, data: Seq<u16>) -> bool {
        has_x_y(data)
    }

    open spec fn fault(state: MachineState, data: Seq<u16>) -> Option<Fault> {
        None
    }

    open spec fn yields(state: MachineState, data: Seq<u16>, next: MachineState) -> bool {
        next == state.with_register(
            data[0] as int,
            state.v[data[0] as int] | state.v[data[1] as int],
        )
    }

    fn execute(processor: &mut Processor, data: &[u16]) -> (outcome: Result<(), Fault>) {
        let x: usize = data[0] as usize;
        let y: usize = data[1] as usize;
        processor.v[x] = processor.v[x] | processor.v[y];
        Ok(())
    }
}

/// 8XY2: set `VX` to the bitwise and of `VX` and `VY`.
pub struct OpCode8XY2 {}

impl OpCode for OpCode8XY2 {
    open spec fn accepts(state: MachineState, data: Seq<u16>) -> bool {
        has_x_y(data)
    }

    open spec fn fault(state: MachineState, data: Seq<u16>) -> Option<Fault> {
        None
    }

    open spec fn yields(state: MachineState, data: Seq<u16>, next: MachineState) -> bool {
        next == state.with_register(
            data[0] as int,
            state.v[data[0] as int] & state.v[data[1] as int],
        )
    }

    fn execute(processor: &mut Processor, data: &[u16]) -> (outcome: Result<(), Fault>) {
        let x: usize = data[0] as usize;
        let y: usize = data[1] as usize;
        processor.v[x] = processor.v[x] & processor.v[y];
        Ok(())
    }
}

/// 8XY3: set `VX` to the bitwise exclusive or of `VX` and `VY`.
pub struct OpCode8XY3 {}

impl OpCode for OpCode8XY3 {
    open spec fn accepts(state: MachineState, data: Seq<u16>) -> bool {
        has_x_y(data)
    }

    open spec fn fault(state: MachineState, data: Seq<u16>) -> Option<Fault> {
        None
    }

    open spec fn yields(state: MachineState, data: Seq<u16>, next: MachineState) -> bool {
        next == state.with_register(
            data[0] as int,
            state.v[data[0] as int] ^ state.v[data[1] as int],
        )
    }

    fn execute(processor: &mut Processor, data: &[u16]) -> (outcome: Result<(), Fault>) {
        let x: usize = data[0] as usize;
        let y: usize = data[1] as usize;
        processor.v[x] = processor.v[x] ^ processor.v[y];
        Ok(())
    }
}

/// 8XY4: add `VY` to `VX`, modulo 256; `VF` becomes the carry.
pub struct OpCode8XY4 {}

impl OpCode for OpCode8XY4 {
    open spec fn accepts(state: MachineState, data: Seq<u16>) -> bool {
        has_x_y(data)
    }

    open spec fn fault(state: MachineState, data: Seq<u16>) -> Option<Fault> {
        None
    }

    open spec fn yields(state: MachineState, data: Seq<u16>, next: MachineState) -> bool {
        next == state.add_registers(data[0] as int, data[1] as int)
    }

    fn execute(processor: &mut Processor, data: &[u16]) -> (outcome: Result<(), Fault>) {
        let x: usize = data[0] as usize;
        let y: usize = data[1] as usize;
        let augend: u8 = processor.v[x];
        let addend: u8 = processor.v[y];
        processor.v[x] = augend.wrapping_add(addend);
        processor.v[FLAG] = if addend > u8::MAX - augend {
            1
        } else {
            0
        };
        Ok(())
    }
}

/// 8XY5: subtract `VY` from `VX`, modulo 256; `VF` becomes 1 when no borrow was
/// needed, else 0.
pub struct OpCode8XY5 {}

impl OpCode for OpCode8XY5 {
    open spec fn accepts(state: MachineState, data: Seq<u16>) -> bool {
        has_x_y(data)
    }

    open spec fn fault(state: MachineState, data: Seq<u16>) -> Option<Fault> {
        None
    }

    open spec fn yields(state: MachineState, data: Seq<u16>, next: MachineState) -> bool {
        next == state.subtract_registers(data[0] as int, data[0] as int, data[1] as int)
    }

    fn execute(processor: &mut Processor, data: &[u16]) -> (outcome: Result<(), Fault>) {
        let x: usize = data[0] as usize;
        let y: usize = data[1] as usize;
        let minuend: u8 = processor.v[x];
        let subtrahend: u8 = processor.v[y];
        processor.v[x] = minuend.wrapping_sub(subtrahend);
        processor.v[FLAG] = if minuend >= subtrahend {
            1
        } else {
            0
        };
        Ok(())
    }
}

/// 8XY6: shift right by one bit; `VF` becomes the bit shifted out. Under
/// `Compatibility::Original` `VY` is shifted into `VX`, under
/// `Compatibility::New` `VX` is shifted in place.
pub struct OpCode8XY6 {}

impl OpCode for OpCode8XY6 {
    open spec fn accepts(state: MachineState, data: Seq<u16>) -> bool {
        has_x_y(data)
    }

    open spec fn fault(state: MachineState, data: Seq<u16>) -> Option<Fault> {
        None
    }

    open spec fn yields(state: MachineState, data: Seq<u16>, next: MachineState) -> bool {
        next == state.shift_right(data[0] as int, data[1] as int)
    }

    fn execute(processor: &mut Processor, data: &[u16]) -> (outcome: Result<(), Fault>) {
        let x: usize = data[0] as usize;
        let y: usize = data[1] as usize;
        let source: u8 = match processor.compatibility {
            Compatibility::Original => processor.v[y],
            Compatibility::New => processor.v[x],
        };
        assert(source >> 1 == source / 2 && source & 1 == source % 2) by (bit_vector);
        processor.v[x] = source >> 1;
        processor.v[FLAG] = source & 1;
        Ok(())
    }
}

/// 8XY7: set `VX` to `VY` minus `VX`, modulo 256; `VF` becomes 1 when no borrow
/// was needed, else 0.
pub struct OpCode8XY7 {}

impl OpCode for OpCode8XY7 {
    open spec fn accepts(state: MachineState, data: Seq<u16>) -> bool {
        has_x_y(data)
    }

    open spec fn fault(state: MachineState, data: Seq<u16>) -> Option<Fault> {
        None
    }

    open spec fn yields(state: MachineState, data: Seq<u16>, next: MachineState) -> bool {
        next == state.subtract_registers(data[0] as int, data[1] as int, data[0] as int)
    }

    fn execute(processor: &mut Processor, data: &[u16]) -> (outcome: Result<(), Fault>) {
        let x: usize = data[0] as usize;
        let y: usize = data[1] as usize;
        let minuend: u8 = processor.v[y];
        let subtrahend: u8 = processor.v[x];
        processor.v[x] = minuend.wrapping_sub(subtrahend);
        processor.v[FLAG] = if minuend >= subtrahend {
            1
        } else {
            0
        };
        Ok(())
    }
}

/// 8XYE: shift left by one bit; `VF` becomes the bit shifted out. Under
/// `Compatibility::Original` `VY` is shifted into `VX`, under
/// `Compatibility::New` `VX` is shifted in place.
pub struct OpCode8XYE {}

impl OpCode for OpCode8XYE {
    open spec fn accepts(state: MachineState, data: Seq<u16>) -> bool {
        has_x_y(data)
    }

    open spec fn fault(state: MachineState, data: Seq<u16>) -> Option<Fault> {
        None
    }

    open spec fn yields(state: MachineState, data: Seq<u16>, next: MachineState) -> bool {
        next == state.shift_left(data[0] as int, data[1] as int)
    }

    fn execute(processor: &mut Processor, data: &[u16]) -> (outcome: Result<(), Fault>) {
        let x: usize = data[0] as usize;
        let y: usize = data[1] as usize;
        let source: u8 = match processor.compatibility {
            Compatibility::Original => processor.v[y],
            Compatibility::New => processor.v[x],
        };
        assert((source & 0x7F) << 1 == (source * 2) % 256 && source >> 7 == source / 128)
            by (bit_vector);
        processor.v[x] = (source & 0x7F) << 1;
        processor.v[FLAG] = source >> 7;
        Ok(())
    }
}

/// 9XY0: skip the next instruction if `VX` differs from `VY`.
pub struct OpCode9XY0 {}

impl OpCode for OpCode9XY0 {
    open spec fn accepts(state: MachineState, data: Seq<u16>) -> bool {
        has_x_y(data) && state.can_skip()
    }

    open spec fn fault(state: MachineState, data: Seq<u16>) -> Option<Fault> {
        None
    }

    open spec fn yields(state: MachineState, data: Seq<u16>, next: MachineState) -> bool {
        next == state.skip_if(state.v[data[0] as int] != state.v[data[1] as int])
    }

    fn execute(processor: &mut Processor, data: &[u16]) -> (outcome: Result<(), Fault>) {
        let x: usize = data[0] as usize;
        let y: usize = data[1] as usize;
        if processor.v[x] != processor.v[y] {
            processor.pc += 2;
        }
        Ok(())
    }
}

/// ANNN: set `I` to `NNN`.
pub struct OpCodeANNN {}

impl OpCode for OpCodeANNN {
    open spec fn accepts(state: MachineState, data: Seq<u16>) -> bool {
        has_nnn(data)
    }

    open spec fn fault(state: MachineState, data: Seq<u16>) -> Option<Fault> {
        None
    }

    open spec fn yields(state: MachineState, data: Seq<u16>, next: MachineState) -> bool {
        next == (MachineState { i: data[0], ..state })
    }

    fn execute(processor: &mut Processor, data: &[u16]) -> (outcome: Result<(), Fault>) {
        processor.i = data[0];
        Ok(())
    }
}

/// BNNN: jump to `NNN` plus `V0`, the jump with offset of
/// `Compatibility::Original`. Raises [`Fault::CompatibilityMismatch`] under
/// `Compatibility::New`.
pub struct OpCodeBNNN {}

impl OpCode for OpCodeBNNN {
    open spec fn accepts(state: MachineState, data: Seq<u16>) -> bool {
        has_nnn(data)
    }

    open spec fn fault(state: MachineState, data: Seq<u16>) -> Option<Fault> {
        if state.compatibility == Compatibility::New {
            Some(Fault::CompatibilityMismatch)
        } else {
            None
        }
    }

    open spec fn yields(state: MachineState, data: Seq<u16>, next: MachineState) -> bool {
        next == state.jump_with_offset(data[0], 0)
    }

    fn execute(processor: &mut Processor, data: &[u16]) -> (outcome: Result<(), Fault>) {
        if processor.compatibility == Compatibility::New {
            return Err(Fault::CompatibilityMismatch);
        }
        let nnn: u16 = data[0];
        processor.pc = nnn + processor.v[0] as u16;
        Ok(())
    }
}

/// BXNN: jump to `XNN` plus `VX`, the jump with offset of
/// `Compatibility::New`. The operands are `X` and the whole payload `XNN`.
/// Raises [`Fault::CompatibilityMismatch`] under `Compatibility::Original`.
pub struct OpCodeBXNN {}

impl OpCode for OpCodeBXNN {
    open spec fn accepts(state: MachineState, data: Seq<u16>) -> bool {
        data.len() >= 2 && data[0] < REGISTERS && data[1] <= 0xFFF
    }

    open spec fn fault(state: MachineState, data: Seq<u16>) -> Option<Fault> {
        if state.compatibility == Compatibility::Original {
            Some(Fault::CompatibilityMismatch)
        } else {
            None
        }
    }

    open spec fn yields(state: MachineState, data: Seq<u16>, next: MachineState) -> bool {
        next == state.jump_with_offset(data[1], data[0] as int)
    }

    fn execute(processor: &mut Processor, data: &[u16]) -> (outcome: Result<(), Fault>) {
        if processor.compatibility == Compatibility::Original {
            return Err(Fault::CompatibilityMismatch);
        }
        let x: usize = data[0] as usize;
        let nnn: u16 = data[1];
        processor.pc = nnn + processor.v[x] as u16;
        Ok(())
    }
}

/// CXNN: set `VX` to a random byte masked by `NN`.
pub struct OpCodeCXNN {}

impl OpCodeCXNN {
    /// What CXNN does once the random byte is drawn: `VX` becomes the bits of
    /// `random` that `NN` lets through.
    pub fn execute_with(processor: &mut Processor, data: &[u16], random: u8)
        requires
            has_x_nn(data@),
        ensures
            final(processor)@ == old(processor)@.randomize(data[0] as int, data[1] as u8, random),
    {
        let x: usize = data[0] as usize;
        let nn: u8 = data[1] as u8;
        processor.v[x] = random & nn;
    }
}

impl OpCode for OpCodeCXNN {
    open spec fn accepts(state: MachineState, data: Seq<u16>) -> bool {
        has_x_nn(data)
    }

    open spec fn fault(state: MachineState, data: Seq<u16>) -> Option<Fault> {
        None
    }

    open spec fn yields(state: MachineState, data: Seq<u16>, next: MachineState) -> bool {
        exists|random: u8| next == #[trigger] state.randomize(data[0] as int, data[1] as u8, random)
    }

    fn execute(processor: &mut Processor, data: &[u16]) -> (outcome: Result<(), Fault>) {
        let random: u8 = random_byte();
        OpCodeCXNN::execute_with(processor, data, random);
        Ok(())
    }
}

/// DXYN: draw the `N`-row sprite at `I` at (`VX`, `VY`).
pub struct OpCodeDXYN {}

/// Whether `cell` is among the sprite cells that come before column `col` of
/// row `row`, rows counted from the top and columns from the left.
spec fn painted(origin: int, row: int, col: int, cell: int) -> bool {
    let offset = cell - origin;
    let cell_row = offset / (WIDTH as int);
    let cell_col = offset % (WIDTH as int);
    &&& 0 <= offset
    &&& cell_col < SPRITE_WIDTH
    &&& (cell_row < row || (cell_row == row && cell_col < col))
}

/// Whether painting `cell` turns it off, for a cell painted before column
/// `col` of row `row`.
spec fn erased(state: MachineState, origin: int, row: int, col: int, cell: int) -> bool {
    painted(origin, row, col, cell) && state.gfx[cell] && state.sprite_pixel(origin, cell)
}

/// Whether painting the cells before column `col` of row `row` turns any of
/// them off.
spec fn any_erased(state: MachineState, origin: int, row: int, col: int) -> bool {
    exists|cell: int| 0 <= cell < PIXELS && #[trigger] erased(state, origin, row, col, cell)
}

/// A cell that painting the cells before column `col` of row `row` turns
/// off, where there is one.
spec fn erased_cell(state: MachineState, origin: int, row: int, col: int) -> int {
    choose|cell: int| 0 <= cell < PIXELS && #[trigger] erased(state, origin, row, col, cell)
}

/// The framebuffer once the cells before column `col` of row `row` are
/// painted.
spec fn painting(state: MachineState, origin: int, row: int, col: int, gfx: Seq<bool>) -> bool {
    &&& gfx.len() == PIXELS
    &&& forall|cell: int|
        0 <= cell < PIXELS ==> #[trigger] gfx[cell] == if painted(origin, row, col, cell) {
            state.gfx[cell] ^ state.sprite_pixel(origin, cell)
        } else {
            state.gfx[cell]
        }
}

/// Shifting a byte right until the bit of column `col` is the lowest, and
/// masking that bit, reads the bit of that column.
proof fn lemma_shifted_bit(byte: u8, col: int)
    requires
        0 <= col < SPRITE_WIDTH,
    ensures
        ((byte >> ((7 - col) as u8)) & 1 == 1) == bit_at(byte, col),
{
    assert({
        &&& ((byte >> 7u8) & 1 == 1) == (byte / 128 % 2 == 1)
        &&& ((byte >> 6u8) & 1 == 1) == (byte / 64 % 2 == 1)
        &&& ((byte >> 5u8) & 1 == 1) == (byte / 32 % 2 == 1)
        &&& ((byte >> 4u8) & 1 == 1) == (byte / 16 % 2 == 1)
        &&& ((byte >> 3u8) & 1 == 1) == (byte / 8 % 2 == 1)
        &&& ((byte >> 2u8) & 1 == 1) == (byte / 4 % 2 == 1)
        &&& ((byte >> 1u8) & 1 == 1) == (byte / 2 % 2 == 1)
        &&& ((byte >> 0u8) & 1 == 1) == (byte / 1 % 2 == 1)
    }) by (bit_vector);
}

impl OpCode for OpCodeDXYN {
    open spec fn accepts(state: MachineState, data: Seq<u16>) -> bool {
        &&& data.len() >= 3
        &&& data[0] < REGISTERS
        &&& data[1] < REGISTERS
        &&& data[2] <= 0xF
    }

    open spec fn fault(state: MachineState, data: Seq<u16>) -> Option<Fault> {
        if !state.sprite_in_memory(data[2] as int) {
            Some(Fault::SpriteOutsideMemory)
        } else if !state.sprite_on_display(data[0] as int, data[1] as int, data[2] as int) {
            Some(Fault::SpriteOutsideDisplay)
        } else {
            None
        }
    }

    open spec fn yields(state: MachineState, data: Seq<u16>, next: MachineState) -> bool {
        next == state.draw(data[0] as int, data[1] as int, data[2] as int)
    }

    fn execute(processor: &mut Processor, data: &[u16]) -> (outcome: Result<(), Fault>) {
        let x: usize = data[0] as usize;
        let y: usize = data[1] as usize;
        let height: usize = data[2] as usize;
        let sprite_x: usize = processor.v[x] as usize % WIDTH;
        let sprite_y: usize = processor.v[y] as usize % HEIGHT;
        let origin: usize = sprite_y * WIDTH + sprite_x;
        let start: usize = processor.i as usize;
        let ghost before = processor@;
        if height > 0 && start + height > MEMORY_SIZE {
            return Err(Fault::SpriteOutsideMemory);
        }
        if height > 0 && origin + (height - 1) * WIDTH + SPRITE_WIDTH > PIXELS {
            return Err(Fault::SpriteOutsideDisplay);
        }
        let mut flipped: bool = false;
        let mut row: usize = 0;
        while row < height
            invariant
                row <= height <= 0xF,
                origin == before.sprite_origin(x as int, y as int),
                start == before.i,
                height > 0 ==> start + height <= MEMORY_SIZE,
                height > 0 ==> origin + (height - 1) * WIDTH + SPRITE_WIDTH <= PIXELS,
                processor@ == (MachineState { gfx: processor.gfx@, ..before }),
                painting(before, origin as int, row as int, 0, processor.gfx@),
                flipped <==> any_erased(before, origin as int, row as int, 0),
            decreases height - row,
        {
            let sprite: u8 = processor.memory.data[start + row];
            let mut col: usize = 0;
            while col < SPRITE_WIDTH
                invariant
                    row < height <= 0xF,
                    col <= SPRITE_WIDTH,
                    origin == before.sprite_origin(x as int, y as int),
                    start == before.i,
                    start + height <= MEMORY_SIZE,
                    origin + (height - 1) * WIDTH + SPRITE_WIDTH <= PIXELS,
                    sprite == before.memory[start + row],
                    processor@ == (MachineState { gfx: processor.gfx@, ..before }),
                    painting(before, origin as int, row as int, col as int, processor.gfx@),
                    flipped <==> any_erased(before, origin as int, row as int, col as int),
                decreases SPRITE_WIDTH - col,
            {
                let shift: u8 = (7 - col) as u8;
                let lit: bool = (sprite >> shift) & 1 == 1;
                let gfx_i: usize = origin + row * WIDTH + col;
                let prev_gfx: bool = processor.gfx[gfx_i];
                let ghost flipped_before = flipped;
                processor.gfx[gfx_i] = prev_gfx ^ lit;
                if prev_gfx && lit {
                    flipped = true;
                }
                proof {
                    let o = origin as int;
                    let r = row as int;
                    let c = col as int;
                    let offset = gfx_i - origin;
                    assert(offset / (WIDTH as int) == row && offset % (WIDTH as int) == col);
                    lemma_shifted_bit(sprite, c);
                    assert(lit == before.sprite_pixel(o, gfx_i as int));
                    assert forall|cell: int|
                        painted(o, r, c + 1, cell) <==> (painted(o, r, c, cell)
                            || cell == gfx_i) by {}
                    assert(erased(before, o, r, c + 1, gfx_i as int) == (prev_gfx && lit));
                    if flipped_before {
                        assert(erased(before, o, r, c + 1, erased_cell(before, o, r, c)));
                    }
                    if any_erased(before, o, r, c + 1) {
                        let cell = erased_cell(before, o, r, c + 1);
                        assert(cell == gfx_i || erased(before, o, r, c, cell));
                    }
                }
                col += 1;
            }
            proof {
                let o = origin as int;
                let r = row as int;
                assert forall|cell: int|
                    painted(o, r, SPRITE_WIDTH as int, cell) <==> painted(o, r + 1, 0, cell) by {}
                if flipped {
                    assert(erased(
                        before,
                        o,
                        r + 1,
                        0,
                        erased_cell(before, o, r, SPRITE_WIDTH as int),
                    ));
                }
                if any_erased(before, o, r + 1, 0) {
                    assert(erased(
                        before,
                        o,
                        r,
                        SPRITE_WIDTH as int,
                        erased_cell(before, o, r + 1, 0),
                    ));
                }
            }
            row += 1;
        }
        processor.v[FLAG] = if flipped {
            1
        } else {
            0
        };
        proof {
            let o = origin as int;
            let n = height as int;
            assert forall|cell: int| painted(o, n, 0, cell) <==> sprite_covers(o, n, cell) by {}
            assert(processor.gfx@ =~= before.drawn(o, n));
            if flipped {
                assert(before.erases(o, n, erased_cell(before, o, n, 0)));
            }
            if before.collides(o, n) {
                let cell = choose|cell: int|
                    0 <= cell < PIXELS && #[trigger] before.erases(o, n, cell);
                assert(erased(before, o, n, 0, cell));
            }
            assert(processor@ =~= before.draw(x as int, y as int, n));
        }
        Ok(())
    }
}

/// FX07: set `VX` to the delay timer.
pub struct OpCodeFX07 {}

impl OpCode for OpCodeFX07 {
    open spec fn accepts(state: MachineState, data: Seq<u16>) -> bool {
        has_x(data)
    }

    open spec fn fault(state: MachineState, data: Seq<u16>) -> Option<Fault> {
        None
    }

    open spec fn yields(state: MachineState, data: Seq<u16>, next: MachineState) -> bool {
        next == state.with_register(data[0] as int, state.delay_timer)
    }

    fn execute(processor: &mut Processor, data: &[u16]) -> (outcome: Result<(), Fault>) {
        let x: usize = data[0] as usize;
        processor.v[x] = processor.delay_timer;
        Ok(())
    }
}

/// FX15: set the delay timer to `VX`.
pub struct OpCodeFX15 {}

impl OpCode for OpCodeFX15 {
    open spec fn accepts(state: MachineState, data: Seq<u16>) -> bool {
        has_x(data)
    }

    open spec fn fault(state: MachineState, data: Seq<u16>) -> Option<Fault> {
        None
    }

    open spec fn yields(state: MachineState, data: Seq<u16>, next: MachineState) -> bool {
        next == (MachineState { delay_timer: state.v[data[0] as int], ..state })
    }

    fn execute(processor: &mut Processor, data: &[u16]) -> (outcome: Result<(), Fault>) {
        let x: usize = data[0] as usize;
        processor.delay_timer = processor.v[x];
        Ok(())
    }
}

/// FX18: set the sound timer to `VX`.
pub struct OpCodeFX18 {}

impl OpCode for OpCodeFX18 {
    open spec fn accepts(state: MachineState, data: Seq<u16>) -> bool {
        has_x(data)
    }

    open spec fn fault(state: MachineState, data: Seq<u16>) -> Option<Fault> {
        None
    }

    open spec fn yields(state: MachineState, data: Seq<u16>, next: MachineState) -> bool {
        next == (MachineState { sound_timer: state.v[data[0] as int], ..state })
    }

    fn execute(processor: &mut Processor, data: &[u16]) -> (outcome: Result<(), Fault>) {
        let x: usize = data[0] as usize;
        processor.sound_timer = processor.v[x];
        Ok(())
    }
}

} // verus!
