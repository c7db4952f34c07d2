#![allow(non_snake_case)]

use array_init::array_init;
use emulator::memory::Memory;
use emulator::processor::Processor;
use emulator::screen::WIDTH;
use emulator::state::Compatibility;

fn execute_instruction(processor: &mut Processor, instruction: u16) {
    processor
        .execute((instruction & 0xF000) >> 0xC, instruction & 0x0FFF)
        .unwrap();
}

#[test]
fn test_00E0() {
    let mut processor = Processor::init();
    processor.gfx = array_init(|_| true);

    execute_instruction(&mut processor, 0x00E0);

    assert_eq!(processor.gfx, array_init(|_| false));
}

#[test]
fn test_00EE() {
    let mut processor = Processor::init();
    let return_address = 0x201;
    processor.pc = 0x200;
    processor.stack.push(return_address);

    execute_instruction(&mut processor, 0x00EE);

    assert_eq!(
        processor.pc, return_address,
        "PC not equal to return address!"
    );
    assert!(processor.stack.is_empty(), "Stack not popped!");
}

#[test]
fn test_1NNN() {
    let mut processor = Processor::init();
    let jump_to = 0x123;

    execute_instruction(&mut processor, 0x1000 | jump_to);

    assert_eq!(processor.pc, jump_to);
}

#[test]
fn test_2NNN() {
    let mut processor = Processor::init();
    let nnn = 0x123;

    execute_instruction(&mut processor, 0x2000 | nnn);

    assert_eq!(
        processor.stack[0],
        Memory::ROM_BEGIN_INDEX as u16,
        "PC not added to stack!"
    );
    assert_eq!(processor.pc, nnn, "PC should be {:06X}!", nnn);
}

#[test]
fn test_3XNN() {
    let mut processor = Processor::init();
    let x = 0x1;
    let nn = 0x23;
    processor.v[x as usize] = nn;

    execute_instruction(&mut processor, 0x3000 | (x << 8) | nn as u16);

    assert_eq!(processor.pc, Memory::ROM_BEGIN_INDEX as u16 + 0x2);
}

#[test]
fn test_4XNN() {
    let mut processor = Processor::init();
    let x = 0x1;
    let nn = 0x23;
    processor.v[x as usize] = 0x0;

    execute_instruction(&mut processor, 0x4000 | (x << 8) | nn as u16);

    assert_eq!(processor.pc, Memory::ROM_BEGIN_INDEX as u16 + 0x2);
}

#[test]
fn test_5XY0() {
    let mut processor = Processor::init();
    let x = 0x1;
    let y = 0x2;
    processor.v[x as usize] = 0x23;
    processor.v[y as usize] = 0x23;

    execute_instruction(&mut processor, 0x5000 | (x << 8) | (y << 4));

    assert_eq!(processor.pc, Memory::ROM_BEGIN_INDEX as u16 + 0x2);
}

#[test]
fn test_6XNN() {
    let mut processor = Processor::init();
    let x = 0x1;
    let nn = 0x23;

    execute_instruction(&mut processor, 0x6000 | (x << 8) | nn);

    assert_eq!(processor.v[x as usize] as u16, nn);
}

#[test]
fn test_7XNN() {
    let mut processor = Processor::init();
    let x = 0x1;
    let nn = 0x23;
    processor.v[x as usize] = 0x1;

    execute_instruction(&mut processor, 0x7000 | (x << 8) | nn);

    assert_eq!(processor.v[x as usize] as u16, x + nn);
}

#[test]
fn test_8XY0() {
    let mut processor = Processor::init();
    let x = 0x1;
    let y = 0x2;
    processor.v[y as usize] = 0x23;

    execute_instruction(&mut processor, 0x8000 | (x << 8) | (y << 4));

    assert_eq!(processor.v[x as usize], 0x23);
}

#[test]
fn test_8XY1() {
    let mut processor = Processor::init();
    let x = 0x1;
    let y = 0x2;
    processor.v[x as usize] = 0x23;
    processor.v[y as usize] = 0x24;

    execute_instruction(&mut processor, 0x8001 | (x << 8) | (y << 4));

    assert_eq!(processor.v[x as usize], 0x23 | 0x24);
}

#[test]
fn test_8XY2() {
    let mut processor = Processor::init();
    let x = 0x1;
    let y = 0x2;
    processor.v[x as usize] = 0x23;
    processor.v[y as usize] = 0x24;

    execute_instruction(&mut processor, 0x8002 | (x << 8) | (y << 4));

    assert_eq!(processor.v[x as usize], 0x23 & 0x24);
}

#[test]
fn test_8XY3() {
    let mut processor = Processor::init();
    let x = 0x1;
    let y = 0x2;
    processor.v[x as usize] = 0x23;
    processor.v[y as usize] = 0x24;

    execute_instruction(&mut processor, 0x8003 | (x << 8) | (y << 4));

    assert_eq!(processor.v[x as usize], 0x23 ^ 0x24);
}

#[test]
fn test_8XY4_no_overflow() {
    let mut processor = Processor::init();
    let x = 0x1;
    let y = 0x2;
    processor.v[x as usize] = 0x23;
    processor.v[y as usize] = 0x24;

    execute_instruction(&mut processor, 0x8004 | (x << 8) | (y << 4));

    assert_eq!(processor.v[x as usize], 0x23 + 0x24, "v[x] should be 0x47");
    assert_eq!(processor.v[0xF], 0x0, "v[0xF] should be 0x0");
}

#[test]
fn test_8XY4_overflow() {
    let mut processor = Processor::init();
    let x = 0x1;
    let y = 0x2;
    processor.v[x as usize] = 0xFF;
    processor.v[y as usize] = 0x1;

    execute_instruction(&mut processor, 0x8004 | (x << 8) | (y << 4));

    assert_eq!(processor.v[x as usize], 0x0, "v[x] should be 0x0");
    assert_eq!(processor.v[0xF], 0x1, "v[0xF] should be 0x1");
}

#[test]
fn test_8XY5_no_underflow() {
    let mut processor = Processor::init();
    let x = 0x1;
    let y = 0x2;
    processor.v[x as usize] = 0x24;
    processor.v[y as usize] = 0x23;

    execute_instruction(&mut processor, 0x8005 | (x << 8) | (y << 4));

    assert_eq!(processor.v[x as usize], 0x24 - 0x23, "v[x] should be 0x1");
    assert_eq!(processor.v[0xF], 0x1, "v[0xF] should be 0x1");
}

#[test]
fn test_8XY5_underflow() {
    let mut processor = Processor::init();
    let x = 0x1;
    let y = 0x2;
    processor.v[x as usize] = 0x23;
    processor.v[y as usize] = 0x24;

    execute_instruction(&mut processor, 0x8005 | (x << 8) | (y << 4));

    assert_eq!(processor.v[x as usize], 0xFF, "v[x] should be 0xFF");
    assert_eq!(processor.v[0xF], 0x0, "v[0xF] should be 0x0");
}

#[test]
fn test_8XY6_original() {
    let mut processor = Processor::init_compat(Compatibility::Original);
    let x = 0x1;
    let y = 0x2;
    processor.v[y as usize] = 0x23;

    execute_instruction(&mut processor, 0x8006 | (x << 8) | (y << 4));

    assert_eq!(
        processor.v[x as usize],
        0x23 >> 1,
        "v[x] should be {:X}",
        0x23 >> 1
    );
    assert_eq!(
        processor.v[0xF],
        0x23 & 0x1,
        "v[0xF] should be {:X}",
        0x23 & 0x1
    );
}

#[test]
fn test_8XY6_new() {
    let mut processor = Processor::init_compat(Compatibility::New);
    let x = 0x1;
    let y = 0x2;
    processor.v[x as usize] = 0x23;

    execute_instruction(&mut processor, 0x8006 | (x << 8) | (y << 4));

    assert_eq!(
        processor.v[x as usize],
        0x23 >> 1,
        "v[x] should be {:X}",
        0x23 >> 1
    );
    assert_eq!(
        processor.v[0xF],
        0x23 & 0x1,
        "v[0xF] should be {:X}",
        0x23 & 0x1
    );
}

#[test]
fn test_8XY7_no_underflow() {
    let mut processor = Processor::init();
    let x = 0x1;
    let y = 0x2;
    processor.v[x as usize] = 0x23;
    processor.v[y as usize] = 0x24;

    execute_instruction(&mut processor, 0x8007 | (x << 8) | (y << 4));

    assert_eq!(processor.v[x as usize], 0x24 - 0x23, "v[x] should be 0x1");
    assert_eq!(processor.v[0xF], 0x1, "v[0xF] should be 0x1");
}

#[test]
fn test_8XY7_underflow() {
    let mut processor = Processor::init();
    let x = 0x1;
    let y = 0x2;
    processor.v[x as usize] = 0x24;
    processor.v[y as usize] = 0x23;

    execute_instruction(&mut processor, 0x8007 | (x << 8) | (y << 4));

    assert_eq!(processor.v[x as usize], 0xFF, "v[x] should be 0xFF");
    assert_eq!(processor.v[0xF], 0x0, "v[0xF] should be 0x0");
}

#[test]
fn test_8XYE_original() {
    let mut processor = Processor::init_compat(Compatibility::Original);
    let x = 0x1;
    let y = 0x2;
    processor.v[y as usize] = 0x23;

    execute_instruction(&mut processor, 0x800E | (x << 8) | (y << 4));

    assert_eq!(
        processor.v[x as usize],
        0x23 << 1,
        "v[x] should be {:X}",
        0x23 << 1
    );
    assert_eq!(
        processor.v[0xF],
        (0x23 & 0x80) >> 7,
        "v[0xF] should be {:X}",
        (0x23 & 0x80) >> 7
    );
}

#[test]
fn test_8XYE_new() {
    let mut processor = Processor::init_compat(Compatibility::New);
    let x = 0x1;
    let y = 0x2;
    processor.v[x as usize] = 0x23;

    execute_instruction(&mut processor, 0x800E | (x << 8) | (y << 4));

    assert_eq!(
        processor.v[x as usize],
        0x23 << 1,
        "v[x] should be {:X}",
        0x23 << 1
    );
    assert_eq!(
        processor.v[0xF],
        (0x23 & 0x80) >> 7,
        "v[0xF] should be {:X}",
        (0x23 & 0x80) >> 7
    );
}

#[test]
fn test_9XY0() {
    let mut processor = Processor::init();
    let x = 0x1;
    let y = 0x2;
    processor.v[x as usize] = 0x23;
    processor.v[y as usize] = 0x24;

    execute_instruction(&mut processor, 0x9000 | (x << 8) | (y << 4));

    assert_eq!(processor.pc, Memory::ROM_BEGIN_INDEX as u16 + 0x2);
}

#[test]
fn test_ANNN() {
    let mut processor = Processor::init();
    let nnn = 0x123;

    execute_instruction(&mut processor, 0xA000 | nnn);

    assert_eq!(processor.i, nnn);
}

#[test]
fn test_BNNN() {
    let mut processor = Processor::init_compat(Compatibility::Original);
    let nnn = 0x123;
    processor.v[0] = 0x1;

    execute_instruction(&mut processor, 0xB000 | nnn);

    assert_eq!(processor.pc, nnn + 0x1);
}

#[test]
fn test_BXNN() {
    let mut processor = Processor::init_compat(Compatibility::New);
    let x = 0x1_u16;
    let nnn = 0x123;
    processor.v[x as usize] = 0x2;

    execute_instruction(&mut processor, 0xB000 | (x << 8) | nnn);

    assert_eq!(processor.pc, nnn + 0x2);
}

#[test]
fn test_CXNN() {
    let mut processor = Processor::init();
    let x = 0x1;
    let nn = 0x23;
    processor.v[x as usize] = 0xFF;

    for _ in 0..64 {
        execute_instruction(&mut processor, 0xC000 | (x << 8) | nn);

        assert_eq!(processor.v[x as usize] & !(nn as u8), 0);
    }
}

#[test]
fn test_DXYN_no_flip() {
    let mut processor = Processor::init();
    let x = 0x1;
    let y = 0x2;
    let n = 0x3;
    let sprite_x = 0x1;
    let sprite_y = 0x2;
    let gfx_start = sprite_y as usize * WIDTH + sprite_x as usize;

    processor.v[x as usize] = sprite_x;
    processor.v[y as usize] = sprite_y;
    processor.i = 0x200;
    processor.memory.data[processor.i as usize] = 0b01000001;

    execute_instruction(&mut processor, 0xD000 | (x << 8) | (y << 4) | n);

    assert_eq!(
        processor.gfx[gfx_start..gfx_start + 8],
        [false, true, false, false, false, false, false, true],
        "processor.gfx set incorrectly!"
    );
    assert_eq!(processor.v[0xF], 0x0, "v[0xF] should be 0x0");
}

#[test]
fn test_DXYN_flip() {
    let mut processor = Processor::init();
    let x = 0x1;
    let y = 0x2;
    let n = 0x3;
    let sprite_x = 0x1;
    let sprite_y = 0x2;
    let gfx_start = sprite_y as usize * WIDTH + sprite_x as usize;

    processor.v[x as usize] = sprite_x;
    processor.v[y as usize] = sprite_y;
    processor.i = 0x200;
    processor.memory.data[processor.i as usize] = 0b01000001;
    processor.gfx = array_init(|_| true);

    execute_instruction(&mut processor, 0xD000 | (x << 8) | (y << 4) | n);

    assert_eq!(
        processor.gfx[gfx_start..gfx_start + 8],
        [true, false, true, true, true, true, true, false],
        "processor.gfx set incorrectly!"
    );
    assert_eq!(processor.v[0xF], 0x1, "v[0xF] should be 0x1");
}

#[test]
fn test_FX07() {
    let mut processor = Processor::init();
    let x = 0x1;
    processor.delay_timer = 0x23;

    execute_instruction(&mut processor, 0xF007 | (x << 8));

    assert_eq!(processor.v[x as usize], processor.delay_timer);
    assert_eq!(processor.v[x as usize], 0x23);
}

#[test]
fn test_FX15() {
    let mut processor = Processor::init();
    let x = 0x1;
    processor.v[x as usize] = 0x23;

    execute_instruction(&mut processor, 0xF015 | (x << 8));

    assert_eq!(processor.delay_timer, processor.v[x as usize]);
    assert_eq!(processor.delay_timer, 0x23);
}

#[test]
fn test_FX18() {
    let mut processor = Processor::init();
    let x = 0x1;
    processor.v[x as usize] = 0x23;

    execute_instruction(&mut processor, 0xF018 | (x << 8));

    assert_eq!(processor.sound_timer, processor.v[x as usize]);
    assert_eq!(processor.sound_timer, 0x23);
}
