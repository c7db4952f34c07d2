//! The processor, its view as a machine state, the instruction table and the
//! fetch-decode-execute cycle.

use crate::memory::{Memory, MEMORY_SIZE};
use crate::opcodes::{
    performs, OpCode, OpCode00E0, OpCode00EE, OpCode1NNN, OpCode2NNN, OpCode3XNN, OpCode4XNN,
    OpCode5XY0, OpCode6XNN, OpCode7XNN, OpCode8XY0, OpCode8XY1, OpCode8XY2, OpCode8XY3,
    OpCode8XY4, OpCode8XY5, OpCode8XY6, OpCode8XY7, OpCode8XYE, OpCode9XY0, OpCodeANNN,
    OpCodeBNNN, OpCodeBXNN, OpCodeCXNN, OpCodeDXYN, OpCodeFX07, OpCodeFX15, OpCodeFX18,
};
use crate::screen::PIXELS;
use crate::state::{Compatibility, ExecuteError, Fault, MachineState, REGISTERS};
use crate::trusted::filled;
use vstd::prelude::*;

verus! {

/// The whole mutable state of the machine.
#[derive(Debug)]
pub struct Processor {
    /// Program counter: the address of the next instruction.
    pub pc: u16,
    /// Index register: the address that sprite data is read from.
    pub i: u16,
    /// Return addresses of the subroutines being executed, newest last.
    pub stack: Vec<u16>,
    /// Delay timer, counted down by the host.
    pub delay_timer: u8,
    /// Sound timer, counted down by the host.
    pub sound_timer: u8,
    /// The registers `V0` to `VF`.
    pub v: [u8; REGISTERS],
    pub memory: Memory,
    /// The framebuffer, row after row; `true` is a lit pixel.
    pub gfx: [bool; PIXELS],
    /// Fixed when the processor is made.
    pub compatibility: Compatibility,
}

impl View for Processor {
    type V = MachineState;

    open spec fn view(&self) -> MachineState {
        MachineState {
            pc: self.pc,
            i: self.i,
            stack: self.stack@,
            delay_timer: self.delay_timer,
            sound_timer: self.sound_timer,
            v: self.v@,
            memory: self.memory@,
            gfx: self.gfx@,
            compatibility: self.compatibility,
        }
    }
}

/// The machine at the start of a session: the program counter at the
/// address where programs are loaded, everything else zero, empty or off.
pub open spec fn initial_state(compatibility: Compatibility) -> MachineState {
    MachineState {
        pc: Memory::ROM_BEGIN_INDEX as u16,
        i: 0,
        stack: Seq::empty(),
        delay_timer: 0,
        sound_timer: 0,
        v: Seq::new(REGISTERS as nat, |x: int| 0u8),
        memory: Seq::new(MEMORY_SIZE as nat, |address: int| 0u8),
        gfx: Seq::new(PIXELS as nat, |cell: int| false),
        compatibility,
    }
}

/// The family of an instruction word: its top four bits.
pub open spec fn family(instruction: u16) -> u16 {
    instruction / 0x1000
}

/// The payload of an instruction word: its lower twelve bits.
pub open spec fn payload(instruction: u16) -> u16 {
    instruction % 0x1000
}

/// The field `X` of a payload: its bits 8 to 11.
pub open spec fn field_x(rest: u16) -> u16 {
    (rest / 0x100 % 0x10) as u16
}

/// The field `Y` of a payload: its bits 4 to 7.
pub open spec fn field_y(rest: u16) -> u16 {
    (rest / 0x10 % 0x10) as u16
}

/// The field `N` of a payload: its lowest four bits.
pub open spec fn field_n(rest: u16) -> u16 {
    rest % 0x10
}

/// The field `NN` of a payload: its lowest eight bits.
pub open spec fn field_nn(rest: u16) -> u16 {
    rest % 0x100
}

/// The instruction word made of a family and a payload.
pub open spec fn instruction_word(first: u16, rest: u16) -> u16 {
    (first * 0x1000 + rest) as u16
}

/// Whether the instructions of family `first` may skip the instruction that
/// follows them.
pub open spec fn may_skip(first: u16) -> bool {
    first == 0x3 || first == 0x4 || first == 0x5 || first == 0x9
}

/// What executing the instruction `Op` on the operands `data` owes, with
/// the fault, if there is one, reported as fatal.
pub open spec fn runs<Op: OpCode>(
    state: MachineState,
    data: Seq<u16>,
    outcome: Result<(), ExecuteError>,
    next: MachineState,
) -> bool {
    match outcome {
        Ok(()) => performs::<Op>(state, data, Ok(()), next),
        Err(ExecuteError::Fatal(fault)) => performs::<Op>(state, data, Err(fault), next),
        Err(ExecuteError::NotRecognized { .. }) => false,
    }
}

/// What an instruction word that belongs to no instruction owes: the error
/// that carries the word, and the state untouched.
pub open spec fn rejects(
    state: MachineState,
    first: u16,
    rest: u16,
    outcome: Result<(), ExecuteError>,
    next: MachineState,
) -> bool {
    &&& outcome == Err::<(), ExecuteError>(
        ExecuteError::NotRecognized { instruction: instruction_word(first, rest) },
    )
    &&& next == state
}

/// The instruction table: which instruction the family `first` and the
/// payload `rest` select, with which operands, and so what executing them
/// on `state` owes.
pub open spec fn executes(
    state: MachineState,
    first: u16,
    rest: u16,
    outcome: Result<(), ExecuteError>,
    next: MachineState,
) -> bool {
    let x = field_x(rest);
    let y = field_y(rest);
    let n = field_n(rest);
    let nn = field_nn(rest);
    if first == 0x0 {
        if rest == 0x0E0 {
            runs::<OpCode00E0>(state, seq![], outcome, next)
        } else if rest == 0x0EE {
            runs::<OpCode00EE>(state, seq![], outcome, next)
        } else {
            rejects(state, first, rest, outcome, next)
        }
    } else if first == 0x1 {
        runs::<OpCode1NNN>(state, seq![rest], outcome, next)
    } else if first == 0x2 {
        runs::<OpCode2NNN>(state, seq![rest], outcome, next)
    } else if first == 0x3 {
        runs::<OpCode3XNN>(state, seq![x, nn], outcome, next)
    } else if first == 0x4 {
        runs::<OpCode4XNN>(state, seq![x, nn], outcome, next)
    } else if first == 0x5 {
        runs::<OpCode5XY0>(state, seq![x, y], outcome, next)
    } else if first == 0x6 {
        runs::<OpCode6XNN>(state, seq![x, nn], outcome, next)
    } else if first == 0x7 {
        runs::<OpCode7XNN>(state, seq![x, nn], outcome, next)
    } else if first == 0x8 {
        if n == 0x0 {
            runs::<OpCode8XY0>(state, seq![x, y], outcome, next)
        } else if n == 0x1 {
            runs::<OpCode8XY1>(state, seq![x, y], outcome, next)
        } else if n == 0x2 {
            runs::<OpCode8XY2>(state, seq![x, y], outcome, next)
        } else if n == 0x3 {
            runs::<OpCode8XY3>(state, seq![x, y], outcome, next)
        } else if n == 0x4 {
            runs::<OpCode8XY4>(state, seq![x, y], outcome, next)
        } else if n == 0x5 {
            runs::<OpCode8XY5>(state, seq![x, y], outcome, next)
        } else if n == 0x6 {
            runs::<OpCode8XY6>(state, seq![x, y], outcome, next)
        } else if n == 0x7 {
            runs::<OpCode8XY7>(state, seq![x, y], outcome, next)
        } else if n == 0xE {
            runs::<OpCode8XYE>(state, seq![x, y], outcome, next)
        } else {
            rejects(state, first, rest, outcome, next)
        }
    } else if first == 0x9 {
        runs::<OpCode9XY0>(state, seq![x, y], outcome, next)
    } else if first == 0xA {
        runs::<OpCodeANNN>(state, seq![rest], outcome, next)
    } else if first == 0xB {
        match state.compatibility {
            Compatibility::Original => runs::<OpCodeBNNN>(state, seq![rest], outcome, next),
            Compatibility::New => runs::<OpCodeBXNN>(state, seq![x, rest], outcome, next),
        }
    } else if first == 0xC {
        runs::<OpCodeCXNN>(state, seq![x, nn], outcome, next)
    } else if first == 0xD {
        runs::<OpCodeDXYN>(state, seq![x, y, n], outcome, next)
    } else if first == 0xF {
        if nn == 0x07 {
            runs::<OpCodeFX07>(state, seq![x], outcome, next)
        } else if nn == 0x15 {
            runs::<OpCodeFX15>(state, seq![x], outcome, next)
        } else if nn == 0x18 {
            runs::<OpCodeFX18>(state, seq![x], outcome, next)
        } else {
            rejects(state, first, rest, outcome, next)
        }
    } else {
        rejects(state, first, rest, outcome, next)
    }
}

/// What one cycle owes. Where the program counter addresses no instruction,
/// the fetch fault and the state untouched. Else the program counter moves
/// past the instruction that it addresses, and that instruction is executed
/// on what results: an instruction that is not executed leaves the program
/// counter behind it.
pub open spec fn cycles(
    state: MachineState,
    outcome: Result<(), ExecuteError>,
    next: MachineState,
) -> bool {
    if state.can_fetch() {
        let instruction = state.fetched();
        executes(state.advanced(), family(instruction), payload(instruction), outcome, next)
    } else {
        &&& outcome == Err::<(), ExecuteError>(ExecuteError::Fatal(Fault::FetchOutsideMemory))
        &&& next == state
    }
}

/// The outcome of an instruction as the outcome of an execution.
fn raised(outcome: Result<(), Fault>) -> (lifted: Result<(), ExecuteError>)
    ensures
        lifted == match outcome {
            Ok(()) => Ok::<(), ExecuteError>(()),
            Err(fault) => Err(ExecuteError::Fatal(fault)),
        },
{
    match outcome {
        Ok(()) => Ok(()),
        Err(fault) => Err(ExecuteError::Fatal(fault)),
    }
}

impl Processor {
    /// A processor at the start of a session, with `Compatibility::Original`.
    pub fn init() -> (processor: Processor)
        ensures
            processor@ == initial_state(Compatibility::Original),
    {
        Processor::init_compat(Compatibility::Original)
    }

    /// A processor at the start of a session, with the given compatibility.
    pub fn init_compat(compatibility: Compatibility) -> (processor: Processor)
        ensures
            processor@ == initial_state(compatibility),
    {
        let processor = Processor {
            pc: Memory::ROM_BEGIN_INDEX as u16,
            i: 0,
            stack: Vec::new(),
            delay_timer: 0,
            sound_timer: 0,
            v: filled(0u8),
            memory: Memory::init(),
            gfx: filled(false),
            compatibility,
        };
        assert(processor@ =~= initial_state(compatibility));
        processor
    }

    /// The instruction word at the program counter, high byte first.
    pub fn fetch(&self) -> (instruction: u16)
        requires
            self@.can_fetch(),
        ensures
            instruction == self@.fetched(),
    {
        let first_half: u16 = self.memory.data[self.pc as usize] as u16;
        let second_half: u16 = self.memory.data[self.pc as usize + 1] as u16;
        assert((first_half << 8 | second_half) == first_half * 256 + second_half) by (bit_vector)
            requires
                first_half < 256,
                second_half < 256,
        ;
        first_half << 8 | second_half
    }

    /// Splits an instruction word into its family, the top four bits, and
    /// its payload, the other twelve.
    pub fn decode(&self, instruction: u16) -> (parts: (u16, u16))
        ensures
            parts == (family(instruction), payload(instruction)),
    {
        let first: u16 = (instruction & 0xF000) >> 12;
        let rest: u16 = instruction & 0x0FFF;
        assert((instruction & 0xF000) >> 12 == instruction / 0x1000) by (bit_vector);
        assert(instruction & 0x0FFF == instruction % 0x1000) by (bit_vector);
        (first, rest)
    }

    /// Executes the instruction that the family `first` and the payload
    /// `rest` select, as [`executes`] lays down. A word that selects none is
    /// reported with [`ExecuteError::NotRecognized`] and changes nothing; a
    /// fault of the selected instruction is reported with
    /// [`ExecuteError::Fatal`] and changes nothing either.
    pub fn execute(&mut self, first: u16, rest: u16) -> (outcome: Result<(), ExecuteError>)
        requires
            first <= 0xF,
            rest <= 0xFFF,
            may_skip(first) ==> old(self)@.can_skip(),
        ensures
            executes(old(self)@, first, rest, outcome, final(self)@),
    {
        let x: u16 = (rest & 0xF00) >> 8;
        let y: u16 = (rest & 0x0F0) >> 4;
        let n: u16 = rest & 0x00F;
        let nn: u16 = rest & 0x0FF;
        assert((rest & 0xF00) >> 8 == rest / 0x100 % 0x10) by (bit_vector);
        assert((rest & 0x0F0) >> 4 == rest / 0x10 % 0x10) by (bit_vector);
        assert(rest & 0x00F == rest % 0x10) by (bit_vector);
        assert(rest & 0x0FF == rest % 0x100) by (bit_vector);
        let not_recognized: Result<(), ExecuteError> = Err(
            ExecuteError::NotRecognized { instruction: first << 12 | rest },
        );
        assert(first << 12 | rest == first * 0x1000 + rest) by (bit_vector)
            requires
                first <= 0xF,
                rest <= 0xFFF,
        ;
        match first {
            0x0 => match rest {
                0x0E0 => raised(OpCode00E0::execute(self, &[])),
                0x0EE => raised(OpCode00EE::execute(self, &[])),
                _ => not_recognized,
            },
            0x1 => raised(OpCode1NNN::execute(self, &[rest])),
            0x2 => raised(OpCode2NNN::execute(self, &[rest])),
            0x3 => raised(OpCode3XNN::execute(self, &[x, nn])),
            0x4 => raised(OpCode4XNN::execute(self, &[x, nn])),
            0x5 => raised(OpCode5XY0::execute(self, &[x, y])),
            0x6 => raised(OpCode6XNN::execute(self, &[x, nn])),
            0x7 => raised(OpCode7XNN::execute(self, &[x, nn])),
            0x8 => match n {
                0x0 => raised(OpCode8XY0::execute(self, &[x, y])),
                0x1 => raised(OpCode8XY1::execute(self, &[x, y])),
                0x2 => raised(OpCode8XY2::execute(self, &[x, y])),
                0x3 => raised(OpCode8XY3::execute(self, &[x, y])),
                0x4 => raised(OpCode8XY4::execute(self, &[x, y])),
                0x5 => raised(OpCode8XY5::execute(self, &[x, y])),
                0x6 => raised(OpCode8XY6::execute(self, &[x, y])),
                0x7 => raised(OpCode8XY7::execute(self, &[x, y])),
                0xE => raised(OpCode8XYE::execute(self, &[x, y])),
                _ => not_recognized,
            },
            0x9 => raised(OpCode9XY0::execute(self, &[x, y])),
            0xA => raised(OpCodeANNN::execute(self, &[rest])),
            0xB => match self.compatibility {
                Compatibility::Original => raised(OpCodeBNNN::execute(self, &[rest])),
                Compatibility::New => raised(OpCodeBXNN::execute(self, &[x, rest])),
            },
            0xC => raised(OpCodeCXNN::execute(self, &[x, nn])),
            0xD => raised(OpCodeDXYN::execute(self, &[x, y, n])),
            0xF => match nn {
                0x07 => raised(OpCodeFX07::execute(self, &[x])),
                0x15 => raised(OpCodeFX15::execute(self, &[x])),
                0x18 => raised(OpCodeFX18::execute(self, &[x])),
                _ => not_recognized,
            },
            _ => not_recognized,
        }
    }

    /// One fetch-decode-execute cycle, as [`cycles`] lays down. The program
    /// counter is advanced before the instruction is executed, so jumps,
    /// calls and skips work on the address of the following instruction.
    pub fn cycle(&mut self) -> (outcome: Result<(), ExecuteError>)
        ensures
            cycles(old(self)@, outcome, final(self)@),
    {
        if self.pc as usize + 1 >= MEMORY_SIZE {
            return Err(ExecuteError::Fatal(Fault::FetchOutsideMemory));
        }
        let instruction: u16 = self.fetch();
        self.pc += 2;
        let (first, rest) = self.decode(instruction);
        self.execute(first, rest)
    }
}

} // verus!
