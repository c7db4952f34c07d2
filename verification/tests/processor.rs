use array_init::array_init;
use emulator::memory::{Memory, MEMORY_SIZE};
use emulator::processor::Processor;
use emulator::screen::{HEIGHT, PIXELS, WIDTH};
use emulator::state::{Compatibility, ExecuteError, Fault};

#[test]
fn test_fetch() {
    let mut memory: [u8; 4096] = array_init(|_| 0);
    memory[0] = 0xAB;
    memory[1] = 0xCD;
    let pc: u16 = 0x0;

    let mut processor = Processor::init();
    processor.memory.data = memory;
    processor.pc = pc;

    let result = Processor::fetch(&processor);

    let expected = 0xABCD;
    assert_eq!(result, expected, "{:#06X} =/= {:#06X}", result, expected);
}

#[test]
fn test_decode() {
    let instruction: u16 = 0xABCD;
    let processor = Processor::init();

    let result = processor.decode(instruction);

    let expected: (u16, u16) = (0xA, 0xBCD);
    assert_eq!(result, expected, "{:#06X?} =/= {:#06X?}", result, expected);
}

#[test]
fn test_execute_normal() {
    let first = 0x0;
    let rest = 0x0E0;
    let mut processor = Processor::init();

    let result = processor.execute(first, rest);

    assert!(result.is_ok());
}

#[test]
fn test_execute_not_implemented() {
    let first = 0xF;
    let rest = 0xFFF;
    let mut processor = Processor::init();

    let result = processor.execute(first, rest);

    assert!(result.is_err());
    assert_eq!(
        result,
        Err(ExecuteError::NotRecognized {
            instruction: 0xFFFF
        })
    );
}

#[test]
fn init_starts_at_rom_with_everything_zeroed() {
    let processor = Processor::init();

    assert_eq!(processor.pc, 0x200);
    assert_eq!(processor.pc as usize, Memory::ROM_BEGIN_INDEX);
    assert_eq!(processor.i, 0);
    assert!(processor.stack.is_empty());
    assert_eq!(processor.delay_timer, 0);
    assert_eq!(processor.sound_timer, 0);
    assert_eq!(processor.v, [0u8; 16]);
    assert_eq!(processor.memory.data.len(), MEMORY_SIZE);
    assert!(processor.memory.data.iter().all(|byte| *byte == 0));
    assert_eq!(processor.gfx.len(), PIXELS);
    assert_eq!(PIXELS, WIDTH * HEIGHT);
    assert!(processor.gfx.iter().all(|pixel| !*pixel));
    assert_eq!(processor.compatibility, Compatibility::Original);
}

#[test]
fn init_compat_keeps_the_mode() {
    assert_eq!(
        Processor::init_compat(Compatibility::New).compatibility,
        Compatibility::New
    );
    assert_eq!(
        Processor::init_compat(Compatibility::Original).compatibility,
        Compatibility::Original
    );
    assert_eq!(Processor::init_compat(Compatibility::New).pc, 0x200);
}

#[test]
fn memory_init_is_all_zero() {
    let memory = Memory::init();

    assert_eq!(memory.data.len(), 4096);
    assert!(memory.data.iter().all(|byte| *byte == 0));
}

#[test]
fn fetch_reads_the_last_two_bytes() {
    let mut processor = Processor::init();
    processor.memory.data[4094] = 0x12;
    processor.memory.data[4095] = 0x34;
    processor.pc = 4094;

    assert_eq!(processor.fetch(), 0x1234);
}

#[test]
fn decode_splits_every_family() {
    let processor = Processor::init();

    assert_eq!(processor.decode(0x0000), (0x0, 0x000));
    assert_eq!(processor.decode(0x00E0), (0x0, 0x0E0));
    assert_eq!(processor.decode(0x1FFF), (0x1, 0xFFF));
    assert_eq!(processor.decode(0xF007), (0xF, 0x007));
    assert_eq!(processor.decode(0xFFFF), (0xF, 0xFFF));
}

#[test]
fn cycle_fetches_advances_and_executes() {
    let mut processor = Processor::init();
    processor.memory.data[0x200] = 0x61;
    processor.memory.data[0x201] = 0x23;

    let outcome = processor.cycle();

    assert_eq!(outcome, Ok(()));
    assert_eq!(processor.pc, 0x202);
    assert_eq!(processor.v[1], 0x23);
}

#[test]
fn cycle_skip_is_relative_to_the_advanced_counter() {
    let mut processor = Processor::init();
    processor.memory.data[0x200] = 0x31;
    processor.memory.data[0x201] = 0x00;

    assert_eq!(processor.cycle(), Ok(()));

    assert_eq!(processor.pc, 0x204);
}

#[test]
fn cycle_call_pushes_the_advanced_counter() {
    let mut processor = Processor::init();
    processor.memory.data[0x200] = 0x23;
    processor.memory.data[0x201] = 0x00;
    processor.memory.data[0x300] = 0x00;
    processor.memory.data[0x301] = 0xEE;

    assert_eq!(processor.cycle(), Ok(()));
    assert_eq!(processor.pc, 0x300);
    assert_eq!(processor.stack, vec![0x202]);

    assert_eq!(processor.cycle(), Ok(()));
    assert_eq!(processor.pc, 0x202);
    assert!(processor.stack.is_empty());
}

#[test]
fn cycle_reports_an_unknown_word_and_goes_on() {
    let mut processor = Processor::init();
    processor.memory.data[0x200] = 0xE1;
    processor.memory.data[0x201] = 0x9E;
    processor.memory.data[0x202] = 0x6A;
    processor.memory.data[0x203] = 0x55;

    assert_eq!(
        processor.cycle(),
        Err(ExecuteError::NotRecognized {
            instruction: 0xE19E
        })
    );
    assert_eq!(processor.pc, 0x202);
    assert_eq!(processor.v, [0u8; 16]);

    assert_eq!(processor.cycle(), Ok(()));
    assert_eq!(processor.pc, 0x204);
    assert_eq!(processor.v[0xA], 0x55);
}

#[test]
fn cycle_on_zeroed_memory_is_not_recognized() {
    let mut processor = Processor::init();

    assert_eq!(
        processor.cycle(),
        Err(ExecuteError::NotRecognized {
            instruction: 0x0000
        })
    );
    assert_eq!(processor.pc, 0x202);
}

#[test]
fn cycle_faults_when_the_counter_leaves_memory() {
    let mut processor = Processor::init();
    processor.pc = 4095;

    assert_eq!(
        processor.cycle(),
        Err(ExecuteError::Fatal(Fault::FetchOutsideMemory))
    );
    assert_eq!(processor.pc, 4095);

    processor.pc = 0xFFFF;
    assert_eq!(
        processor.cycle(),
        Err(ExecuteError::Fatal(Fault::FetchOutsideMemory))
    );
    assert_eq!(processor.pc, 0xFFFF);
}

#[test]
fn cycle_at_the_last_instruction_slot_still_runs() {
    let mut processor = Processor::init();
    processor.memory.data[4094] = 0x12;
    processor.memory.data[4095] = 0x00;
    processor.pc = 4094;

    assert_eq!(processor.cycle(), Ok(()));
    assert_eq!(processor.pc, 0x200);
}

#[test]
fn cycle_return_on_empty_stack_is_fatal() {
    let mut processor = Processor::init();
    processor.memory.data[0x200] = 0x00;
    processor.memory.data[0x201] = 0xEE;

    assert_eq!(
        processor.cycle(),
        Err(ExecuteError::Fatal(Fault::StackEmpty))
    );
    assert_eq!(processor.pc, 0x202);
    assert!(processor.stack.is_empty());
}

#[test]
fn execute_rejects_every_word_outside_the_table() {
    let unknown: [u16; 12] = [
        0x0000, 0x00E1, 0x00EF, 0x0FFF, 0x8008, 0x800D, 0x812F, 0xE09E, 0xE0A1, 0xF000, 0xF033,
        0xF165,
    ];
    for instruction in unknown {
        let mut processor = Processor::init();
        processor.v[1] = 7;

        let outcome = processor.execute(instruction >> 12, instruction & 0x0FFF);

        assert_eq!(outcome, Err(ExecuteError::NotRecognized { instruction }));
        assert_eq!(processor.pc, 0x200);
        assert_eq!(processor.v[1], 7);
        assert!(processor.stack.is_empty());
    }
}

#[test]
fn execute_ignores_the_last_nibble_of_skips_on_registers() {
    let mut processor = Processor::init();
    processor.v[1] = 9;
    processor.v[2] = 9;

    assert_eq!(processor.execute(0x5, 0x12F), Ok(()));
    assert_eq!(processor.pc, 0x202);

    processor.v[2] = 8;
    assert_eq!(processor.execute(0x9, 0x127), Ok(()));
    assert_eq!(processor.pc, 0x204);
}

#[test]
fn execute_selects_the_jump_with_offset_by_mode() {
    let mut first = Processor::init_compat(Compatibility::Original);
    first.v[0] = 0x10;
    first.v[3] = 0x20;
    assert_eq!(first.execute(0xB, 0x345), Ok(()));
    assert_eq!(first.pc, 0x355);

    let mut second = Processor::init_compat(Compatibility::New);
    second.v[0] = 0x10;
    second.v[3] = 0x20;
    assert_eq!(second.execute(0xB, 0x345), Ok(()));
    assert_eq!(second.pc, 0x365);
}

#[test]
fn execute_jump_with_offset_may_leave_twelve_bits() {
    let mut processor = Processor::init_compat(Compatibility::Original);
    processor.v[0] = 0xFF;

    assert_eq!(processor.execute(0xB, 0xFFF), Ok(()));

    assert_eq!(processor.pc, 0x10FE);
}

#[test]
fn every_word_is_recognized_exactly_when_the_table_holds_it() {
    let mut processor = Processor::init();
    for instruction in 0..=0xFFFFu16 {
        let first = instruction >> 12;
        let rest = instruction & 0x0FFF;
        let in_table = match first {
            0x0 => rest == 0x0E0 || rest == 0x0EE,
            0x8 => (rest & 0xF) <= 0x7 || (rest & 0xF) == 0xE,
            0xE => false,
            0xF => matches!(rest & 0xFF, 0x07 | 0x15 | 0x18),
            _ => true,
        };
        processor.pc = 0x200;

        let outcome = processor.execute(first, rest);

        if in_table {
            assert!(
                !matches!(outcome, Err(ExecuteError::NotRecognized { .. })),
                "{:#06X}",
                instruction
            );
        } else {
            assert_eq!(outcome, Err(ExecuteError::NotRecognized { instruction }));
            assert_eq!(processor.pc, 0x200);
        }
    }
}
