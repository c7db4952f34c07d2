//! What the instruction table implies for every machine, proved from the
//! contracts of the instructions.

use crate::opcodes::{performs, OpCodeBNNN, OpCodeBXNN};
use crate::processor::{
    cycles, executes, family, field_n, field_nn, instruction_word, payload, Processor,
};
use crate::screen::PIXELS;
use crate::state::{
    sprite_covers, Compatibility, ExecuteError, Fault, MachineState, FLAG, REGISTERS,
};
use vstd::prelude::*;

verus! {

/// The payload of an instruction whose fields are `X` and `NN`.
pub open spec fn payload_x_nn(x: u16, nn: u16) -> u16 {
    (x * 0x100 + nn) as u16
}

/// The payload of an instruction whose fields are `X`, `Y` and `N`.
pub open spec fn payload_x_y_n(x: u16, y: u16, n: u16) -> u16 {
    (x * 0x100 + y * 0x10 + n) as u16
}

/// The view of every processor has the sizes of a machine, so what is proved
/// of well-formed machines holds of every processor.
pub proof fn processor_is_well_formed(processor: Processor)
    ensures
        processor@.wf(),
{
}

/// After 6XNN, `VX` holds `NN`.
pub proof fn load_then_read(
    state: MachineState,
    x: u16,
    nn: u16,
    outcome: Result<(), ExecuteError>,
    next: MachineState,
)
    requires
        state.wf(),
        x < REGISTERS,
        nn <= 0xFF,
        executes(state, 0x6, payload_x_nn(x, nn), outcome, next),
    ensures
        outcome is Ok,
        next.v[x as int] == nn,
{
}

/// After 7XNN, `VX` holds the sum of its old content and `NN` modulo 256,
/// and every other register, `VF` among them, holds what it held.
pub proof fn add_immediate_wraps_and_spares_flag(
    state: MachineState,
    x: u16,
    nn: u16,
    outcome: Result<(), ExecuteError>,
    next: MachineState,
)
    requires
        state.wf(),
        x < REGISTERS,
        nn <= 0xFF,
        executes(state, 0x7, payload_x_nn(x, nn), outcome, next),
    ensures
        outcome is Ok,
        next.v[x as int] == (state.v[x as int] + nn) % 256,
        forall|r: int| 0 <= r < REGISTERS && r != x ==> next.v[r] == state.v[r],
{
}

/// After 8XY4, `VF` is 1 if `VX + VY` exceeded a byte and 0 if not, and `VX`,
/// unless it is `VF`, holds the sum modulo 256.
pub proof fn add_registers_sets_carry(
    state: MachineState,
    x: u16,
    y: u16,
    outcome: Result<(), ExecuteError>,
    next: MachineState,
)
    requires
        state.wf(),
        x < REGISTERS,
        y < REGISTERS,
        executes(state, 0x8, payload_x_y_n(x, y, 0x4), outcome, next),
    ensures
        outcome is Ok,
        next.v[FLAG as int] == if state.v[x as int] + state.v[y as int] > 255 {
            1u8
        } else {
            0u8
        },
        x != FLAG ==> next.v[x as int] == (state.v[x as int] + state.v[y as int]) % 256,
{
}

/// After 8XY5, `VF` is 1 if `VX - VY` needed no borrow and 0 if it did, and
/// `VX`, unless it is `VF`, holds the difference modulo 256.
pub proof fn subtract_registers_sets_no_borrow(
    state: MachineState,
    x: u16,
    y: u16,
    outcome: Result<(), ExecuteError>,
    next: MachineState,
)
    requires
        state.wf(),
        x < REGISTERS,
        y < REGISTERS,
        executes(state, 0x8, payload_x_y_n(x, y, 0x5), outcome, next),
    ensures
        outcome is Ok,
        next.v[FLAG as int] == if state.v[x as int] >= state.v[y as int] {
            1u8
        } else {
            0u8
        },
        x != FLAG ==> next.v[x as int] == (state.v[x as int] - state.v[y as int]) % 256,
{
}

/// After 8XY6, `VF` is the lowest bit of the shifted register and `VX`,
/// unless it is `VF`, its half: the shifted register is `VY` under
/// `Compatibility::Original` and `VX` under `Compatibility::New`, where `VY`
/// plays no part.
pub proof fn shift_right_reads_register_of_mode(
    state: MachineState,
    x: u16,
    y: u16,
    outcome: Result<(), ExecuteError>,
    next: MachineState,
)
    requires
        state.wf(),
        x < REGISTERS,
        y < REGISTERS,
        executes(state, 0x8, payload_x_y_n(x, y, 0x6), outcome, next),
    ensures
        outcome is Ok,
        state.compatibility == Compatibility::Original ==> {
            &&& next.v[FLAG as int] == state.v[y as int] % 2
            &&& x != FLAG ==> next.v[x as int] == state.v[y as int] / 2
        },
        state.compatibility == Compatibility::New ==> {
            &&& next.v[FLAG as int] == state.v[x as int] % 2
            &&& x != FLAG ==> next.v[x as int] == state.v[x as int] / 2
        },
{
}

/// 2NNN puts the program counter on the stack and jumps to `NNN`; a 00EE
/// that follows brings the machine back to the state before the call.
pub proof fn call_then_return_restores(
    state: MachineState,
    nnn: u16,
    called: Result<(), ExecuteError>,
    inside: MachineState,
    returned: Result<(), ExecuteError>,
    next: MachineState,
)
    requires
        state.wf(),
        nnn <= 0xFFF,
        executes(state, 0x2, nnn, called, inside),
        executes(inside, 0x0, 0x0EE, returned, next),
    ensures
        called is Ok,
        inside.pc == nnn,
        inside.stack == state.stack.push(state.pc),
        returned is Ok,
        next == state,
{
    assert(next.stack =~= state.stack);
    assert(next =~= state);
}

/// 00E0 leaves a machine whose framebuffer is already clear as it is.
pub proof fn clear_of_clear_screen_changes_nothing(
    state: MachineState,
    outcome: Result<(), ExecuteError>,
    next: MachineState,
)
    requires
        state.wf(),
        forall|cell: int| 0 <= cell < PIXELS ==> !state.gfx[cell],
        executes(state, 0x0, 0x0E0, outcome, next),
    ensures
        outcome is Ok,
        next == state,
{
    assert(next.gfx =~= state.gfx);
    assert(next =~= state);
}

/// A sprite drawn where every cell that it touches is on turns off exactly
/// the cells under its set bits and leaves every other cell as it was; `VF`
/// becomes 1 if the sprite has a set bit on the display and 0 if it has none.
pub proof fn draw_on_lit_cells_erases_the_sprite_bits(
    state: MachineState,
    x: u16,
    y: u16,
    n: u16,
    outcome: Result<(), ExecuteError>,
    next: MachineState,
)
    requires
        state.wf(),
        x < REGISTERS,
        y < REGISTERS,
        n <= 0xF,
        forall|cell: int|
            0 <= cell < PIXELS && sprite_covers(
                state.sprite_origin(x as int, y as int),
                n as int,
                cell,
            ) ==> #[trigger] state.gfx[cell],
        executes(state, 0xD, payload_x_y_n(x, y, n), outcome, next),
        outcome is Ok,
    ensures
        forall|cell: int|
            0 <= cell < PIXELS ==> #[trigger] next.gfx[cell] == (state.gfx[cell] && !(
            sprite_covers(state.sprite_origin(x as int, y as int), n as int, cell)
                && state.sprite_pixel(state.sprite_origin(x as int, y as int), cell))),
        next.v[FLAG as int] == if exists|cell: int|
            0 <= cell < PIXELS && sprite_covers(
                state.sprite_origin(x as int, y as int),
                n as int,
                cell,
            ) && #[trigger] state.sprite_pixel(state.sprite_origin(x as int, y as int), cell) {
            1u8
        } else {
            0u8
        },
{
    let origin = state.sprite_origin(x as int, y as int);
    if state.collides(origin, n as int) {
        let cell = choose|cell: int|
            0 <= cell < PIXELS && #[trigger] state.erases(origin, n as int, cell);
        assert(sprite_covers(origin, n as int, cell) && state.sprite_pixel(origin, cell));
    }
    if exists|cell: int|
        0 <= cell < PIXELS && sprite_covers(origin, n as int, cell)
            && #[trigger] state.sprite_pixel(origin, cell) {
        let cell = choose|cell: int|
            0 <= cell < PIXELS && sprite_covers(origin, n as int, cell)
                && #[trigger] state.sprite_pixel(origin, cell);
        assert(state.gfx[cell]);
        assert(state.erases(origin, n as int, cell));
    }
}

/// Whether the table holds an instruction for the family `first` and the
/// payload `rest`.
pub open spec fn is_recognized(first: u16, rest: u16) -> bool {
    if first == 0x0 {
        rest == 0x0E0 || rest == 0x0EE
    } else if first == 0x8 {
        field_n(rest) <= 0x7 || field_n(rest) == 0xE
    } else if first == 0xE {
        false
    } else if first == 0xF {
        field_nn(rest) == 0x07 || field_nn(rest) == 0x15 || field_nn(rest) == 0x18
    } else {
        first < 0xF
    }
}

/// An instruction word is reported as not recognized exactly when the table
/// holds no instruction for it; it is then reported whole, and nothing
/// changes.
pub proof fn not_recognized_exactly_outside_the_table(
    state: MachineState,
    first: u16,
    rest: u16,
    outcome: Result<(), ExecuteError>,
    next: MachineState,
)
    requires
        state.wf(),
        first <= 0xF,
        rest <= 0xFFF,
        executes(state, first, rest, outcome, next),
    ensures
        outcome matches Err(ExecuteError::NotRecognized { .. }) <==> !is_recognized(first, rest),
        !is_recognized(first, rest) ==> {
            &&& outcome == Err::<(), ExecuteError>(
                ExecuteError::NotRecognized { instruction: instruction_word(first, rest) },
            )
            &&& next == state
        },
{
}

/// A cycle on a word that is not recognized reports the word that was
/// fetched and moves the program counter past it; nothing else changes.
pub proof fn cycle_passes_over_a_word_outside_the_table(
    state: MachineState,
    outcome: Result<(), ExecuteError>,
    next: MachineState,
)
    requires
        state.wf(),
        state.can_fetch(),
        !is_recognized(family(state.fetched()), payload(state.fetched())),
        cycles(state, outcome, next),
    ensures
        outcome == Err::<(), ExecuteError>(
            ExecuteError::NotRecognized { instruction: state.fetched() },
        ),
        next == state.with_pc((state.pc + 2) as u16),
{
    let instruction = state.fetched();
    not_recognized_exactly_outside_the_table(
        state.advanced(),
        family(instruction),
        payload(instruction),
        outcome,
        next,
    );
}

/// A cycle on 3XNN moves the program counter past the instruction, and past
/// the one that follows it if `VX` equals `NN`: a skip adds to the counter
/// that the cycle has already advanced.
pub proof fn cycle_skip_starts_from_the_advanced_counter(
    state: MachineState,
    x: u16,
    nn: u16,
    outcome: Result<(), ExecuteError>,
    next: MachineState,
)
    requires
        state.wf(),
        state.can_fetch(),
        x < REGISTERS,
        nn <= 0xFF,
        state.fetched() == instruction_word(0x3, payload_x_nn(x, nn)),
        cycles(state, outcome, next),
    ensures
        outcome is Ok,
        next == state.with_pc(
            if state.v[x as int] == nn {
                (state.pc + 4) as u16
            } else {
                (state.pc + 2) as u16
            },
        ),
{
}

/// BNNN is rejected under `Compatibility::New`: it raises the compatibility
/// fault and changes nothing.
pub proof fn bnnn_is_rejected_under_new(
    state: MachineState,
    data: Seq<u16>,
    outcome: Result<(), Fault>,
    next: MachineState,
)
    requires
        state.compatibility == Compatibility::New,
        performs::<OpCodeBNNN>(state, data, outcome, next),
    ensures
        outcome == Err::<(), Fault>(Fault::CompatibilityMismatch),
        next == state,
{
}

/// BXNN is rejected under `Compatibility::Original`: it raises the
/// compatibility fault and changes nothing.
pub proof fn bxnn_is_rejected_under_original(
    state: MachineState,
    data: Seq<u16>,
    outcome: Result<(), Fault>,
    next: MachineState,
)
    requires
        state.compatibility == Compatibility::Original,
        performs::<OpCodeBXNN>(state, data, outcome, next),
    ensures
        outcome == Err::<(), Fault>(Fault::CompatibilityMismatch),
        next == state,
{
}

/// The instruction table selects the jump with offset that belongs to the
/// mode of the machine, so executing a word of family B always succeeds.
pub proof fn jump_with_offset_follows_mode(
    state: MachineState,
    rest: u16,
    outcome: Result<(), ExecuteError>,
    next: MachineState,
)
    requires
        state.wf(),
        rest <= 0xFFF,
        executes(state, 0xB, rest, outcome, next),
    ensures
        outcome is Ok,
        next == state.with_pc(
            (rest + match state.compatibility {
                Compatibility::Original => state.v[0],
                Compatibility::New => state.v[rest as int / 0x100],
            }) as u16,
        ),
{
}

} // verus!
