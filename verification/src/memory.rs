//! The memory of the machine and what is loaded into it before a session.

use crate::trusted::filled;
use vstd::prelude::*;

verus! {

/// Number of addressable bytes.
pub const MEMORY_SIZE: usize = 4096;

/// Address of the first glyph of the built-in font.
pub const FONT_BEGIN_INDEX: usize = 0x050;

/// Number of bytes of the built-in font: sixteen glyphs of five rows.
pub const FONT_SIZE: usize = 80;

/// The built-in font: the glyphs 0 to F, five rows each, each row in the
/// high nibble of its byte.
pub const FONT: [u8; FONT_SIZE] = [
    0xF0, 0x90, 0x90, 0x90, 0xF0,
    0x20, 0x60, 0x20, 0x20, 0x70,
    0xF0, 0x10, 0xF0, 0x80, 0xF0,
    0xF0, 0x10, 0xF0, 0x10, 0xF0,
    0x90, 0x90, 0xF0, 0x10, 0x10,
    0xF0, 0x80, 0xF0, 0x10, 0xF0,
    0xF0, 0x80, 0xF0, 0x90, 0xF0,
    0xF0, 0x10, 0x20, 0x40, 0x40,
    0xF0, 0x90, 0xF0, 0x90, 0xF0,
    0xF0, 0x90, 0xF0, 0x10, 0xF0,
    0xF0, 0x90, 0xF0, 0x90, 0x90,
    0xE0, 0x90, 0xE0, 0x90, 0xE0,
    0xF0, 0x80, 0x80, 0x80, 0xF0,
    0xE0, 0x90, 0x90, 0x90, 0xE0,
    0xF0, 0x80, 0xF0, 0x80, 0xF0,
    0xF0, 0x80, 0xF0, 0x80, 0x80,
];

/// `memory` with `bytes` written over it from `address` on.
pub open spec fn overwritten(memory: Seq<u8>, address: int, bytes: Seq<u8>) -> Seq<u8> {
    Seq::new(
        memory.len(),
        |at: int|
            if address <= at < address + bytes.len() {
                bytes[at - address]
            } else {
                memory[at]
            },
    )
}

/// The byte-addressable store of the machine.
#[derive(Debug)]
pub struct Memory {
    pub data: [u8; MEMORY_SIZE],
}

impl View for Memory {
    type V = Seq<u8>;

    open spec fn view(&self) -> Seq<u8> {
        self.data@
    }
}

impl Memory {
    /// Address at which programs are loaded and at which execution starts.
    pub const ROM_BEGIN_INDEX: usize = 0x200;

    /// A memory whose every byte is zero.
    pub fn init() -> (memory: Memory)
        ensures
            memory@ == Seq::new(MEMORY_SIZE as nat, |address: int| 0u8),
    {
        let memory = Memory { data: filled(0u8) };
        assert(memory@ =~= Seq::new(MEMORY_SIZE as nat, |address: int| 0u8));
        memory
    }

    /// Whether a program of `length` bytes fits between the address where
    /// programs are loaded and the end of memory.
    pub open spec fn fits(length: int) -> bool {
        Memory::ROM_BEGIN_INDEX + length <= MEMORY_SIZE
    }

    /// Writes `bytes` over the memory from `address` on.
    fn write(&mut self, address: usize, bytes: &[u8])
        requires
            address + bytes@.len() <= MEMORY_SIZE,
        ensures
            final(self)@ == overwritten(old(self)@, address as int, bytes@),
    {
        let mut done: usize = 0;
        while done < bytes.len()
            invariant
                done <= bytes@.len(),
                address + bytes@.len() <= MEMORY_SIZE,
                self@ == overwritten(old(self)@, address as int, bytes@.take(done as int)),
            decreases bytes@.len() - done,
        {
            self.data[address + done] = bytes[done];
            done += 1;
        }
        assert(bytes@.take(done as int) =~= bytes@);
    }

    /// Writes the built-in font to its place.
    pub fn load_fonts(&mut self)
        ensures
            final(self)@ == overwritten(old(self)@, FONT_BEGIN_INDEX as int, FONT@),
    {
        let font: [u8; FONT_SIZE] = FONT;
        self.write(FONT_BEGIN_INDEX, font.as_slice());
    }

    /// Writes a program to the address where execution starts.
    pub fn load_rom(&mut self, rom: Vec<u8>)
        requires
            Memory::fits(rom@.len() as int),
        ensures
            final(self)@ == overwritten(old(self)@, Memory::ROM_BEGIN_INDEX as int, rom@),
    {
        self.write(Memory::ROM_BEGIN_INDEX, rom.as_slice());
    }
}

} // verus!
