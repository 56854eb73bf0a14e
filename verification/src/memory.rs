//! The flat 4095-byte address space, with the font table and the program image.

use vstd::prelude::*;

verus! {

/// Number of addressable bytes.
pub const MEMORY_SIZE: usize = 0xFFF;

/// Address of the first byte of the program image.
pub const PROGRAM_START: usize = 0x200;

/// Address of the first byte of the font table.
pub const FONT_START: usize = 0x50;

/// Number of bytes in the font table: sixteen glyphs of five rows each.
pub const FONT_SIZE: usize = 80;

/// The memory of the machine: 4095 bytes, addressed from 0.
pub struct Memory {
    bytes: [u8; 0xFFF],
}

impl View for Memory {
    type V = Seq<u8>;

    closed spec fn view(&self) -> Seq<u8> {
        self.bytes@
    }
}

impl Memory {
    /// The glyphs of the hexadecimal digits 0 to F: five rows each, a row being
    /// the high four bits of a byte.
    pub const FONT: [u8; 80] = [
        0xF0, 0x90, 0x90, 0x90, 0xF0, // 0
        0x20, 0x60, 0x20, 0x20, 0x70, // 1
        0xF0, 0x10, 0xF0, 0x80, 0xF0, // 2
        0xF0, 0x10, 0xF0, 0x10, 0xF0, // 3
        0x90, 0x90, 0xF0, 0x10, 0x10, // 4
        0xF0, 0x80, 0xF0, 0x10, 0xF0, // 5
        0xF0, 0x80, 0xF0, 0x90, 0xF0, // 6
        0xF0, 0x10, 0x20, 0x40, 0x40, // 7
        0xF0, 0x90, 0xF0, 0x90, 0xF0, // 8
        0xF0, 0x90, 0xF0, 0x10, 0xF0, // 9
        0xF0, 0x90, 0xF0, 0x90, 0x90, // A
        0xE0, 0x90, 0xE0, 0x90, 0xE0, // B
        0xF0, 0x80, 0x80, 0x80, 0xF0, // C
        0xE0, 0x90, 0x90, 0x90, 0xE0, // D
        0xF0, 0x80, 0xF0, 0x80, 0xF0, // E
        0xF0, 0x80, 0xF0, 0x80, 0x80, // F
    ];

    /// Every memory has exactly `MEMORY_SIZE` bytes.
    pub proof fn lemma_size(&self)
        ensures
            self@.len() == MEMORY_SIZE,
    {
    }

    /// A memory of zeros.
    pub fn initialize() -> (memory: Memory)
        ensures
            memory@ == Seq::new(MEMORY_SIZE as nat, |i: int| 0u8),
    {
        Memory { bytes: [0x0;0xFFF] }
    }

    /// Copies `program` into memory from `PROGRAM_START` on, leaving every other byte as it was.
    pub fn store_program(&mut self, program: Vec<u8>)
        requires
            PROGRAM_START + program.len() <= MEMORY_SIZE,
        ensures
            final(self)@ == Self::with_block(old(self)@, PROGRAM_START as int, program@),
    {
        let mut index: usize = 0;
        while index < program.len()
            invariant
                index <= program.len(),
                PROGRAM_START + program.len() <= MEMORY_SIZE,
                self@ == Self::with_block(old(self)@, PROGRAM_START as int, program@.take(index as int)),
            decreases program.len() - index,
        {
            self.bytes[PROGRAM_START + index] = program[index];
            index += 1;
        }
    }

    /// Copies the font table into memory from `FONT_START` on, leaving every other byte as it was.
    pub fn set_font(&mut self)
        ensures
            final(self)@ == Self::with_block(old(self)@, FONT_START as int, Self::FONT@),
    {
        let mut index: usize = 0;
        while index < FONT_SIZE
            invariant
                index <= FONT_SIZE,
                self@ == Self::with_block(old(self)@, FONT_START as int, Self::FONT@.take(index as int)),
            decreases FONT_SIZE - index,
        {
            self.bytes[FONT_START + index] = Self::FONT[index];
            index += 1;
        }
    }

    /// `bytes` with `block` written over the addresses from `start` on.
    pub open spec fn with_block(bytes: Seq<u8>, start: int, block: Seq<u8>) -> Seq<u8> {
        Seq::new(
            bytes.len(),
            |address: int|
                if start <= address < start + block.len() {
                    block[address - start]
                } else {
                    bytes[address]
                },
        )
    }

    pub fn set(&mut self, location: usize, byte: u8)
        requires
            location < MEMORY_SIZE,
        ensures
            final(self)@ == old(self)@.update(location as int, byte),
    {
        self.bytes[location] = byte;
    }

    pub fn get(&self, location: usize) -> (byte: u8)
        requires
            location < MEMORY_SIZE,
        ensures
            byte == self@[location as int],
    {
        self.bytes[location]
    }
}

} // verus!
