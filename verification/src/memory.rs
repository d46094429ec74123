//! The 4096-byte memory with its built-in font, and the return-address stack.
//!
//! Memory is viewed (`@`) as a sequence of exactly 4096 bytes. Every address
//! it is given is reduced to twelve bits, byte by byte, so no access can fall
//! outside it: a window that runs past the last byte continues at the first.
//! The stack is viewed as the sequence of return addresses that are
//! outstanding, the oldest first.
use crate::fault::Fault;
use crate::registers::{Address, AddressRegister, ProgramCounter, PROGRAM_START};
use vstd::prelude::*;

verus! {

/// The number of bytes of memory.
pub const MEMORY_SIZE: usize = 4096;

/// The number of bytes of the built-in font: sixteen glyphs of five rows.
pub const FONT_SIZE: usize = 80;

/// The number of rows of one glyph of the font.
pub const GLYPH_ROWS: u16 = 5;

/// The most return addresses that can be outstanding at once.
pub const STACK_DEPTH: usize = 16;

/// The built-in font: the digits `0` to `F`, each four pixels wide and five
/// rows high, one byte per row with the pixels in the high nibble.
pub const FONT: [u8; 80] = [
    0xF0, 0x90, 0x90, 0x90, 0xF0,
    0x20, 0x60, 0x20, 0x20, 0x70,
    0xF0, 0x10, 0xF0, 0x80, 0xF0,
    0xF0, 0x10, 0xF0, 0x10, 0xF0,
    0x90, 0x90, 0xF0, 0x10, 0x10,
    0xF0, 0x80, 0xF0, 0x10, 0xF0,
    0xF0, 0x80, 0xF0, 0x90, 0xF0,
    0xF0, 0x10, 0x20, 0x40, 0x40,
    0xF0, 0x90, 0xF0, 0x90, 0xF0,
    0xF0, 0x90, 0xF0, 0x10, 0xF0,
    0xF0, 0x90, 0xF0, 0x90, 0x90,
    0xE0, 0x90, 0xE0, 0x90, 0xE0,
    0xF0, 0x80, 0x80, 0x80, 0xF0,
    0xE0, 0x90, 0x90, 0x90, 0xE0,
    0xF0, 0x80, 0xF0, 0x80, 0xF0,
    0xF0, 0x80, 0xF0, 0x80, 0x80,
];

/// The index in memory that `address` denotes: its low twelve bits.
pub open spec fn cell(address: int) -> int {
    address % 4096
}

/// Memory as it is before any program is loaded: the font in its first 80
/// bytes, zero everywhere else.
pub open spec fn pristine() -> Seq<u8> {
    Seq::new(4096, |index: int| if index < 80 { FONT@[index] } else { 0u8 })
}

/// The `count` bytes of `memory` that start at `start`.
pub open spec fn window(memory: Seq<u8>, start: int, count: nat) -> Seq<u8> {
    Seq::new(count, |offset: int| memory[cell(start + offset)])
}

/// `memory` after `bytes` have been written from `start` on.
pub open spec fn overwritten(memory: Seq<u8>, start: int, bytes: Seq<u8>) -> Seq<u8> {
    Seq::new(
        memory.len(),
        |index: int|
            if cell(index - start) < bytes.len() {
                bytes[cell(index - start)]
            } else {
                memory[index]
            },
    )
}

/// Writing changes no memory's size.
pub proof fn lemma_overwritten_len(memory: Seq<u8>, start: int, bytes: Seq<u8>)
    ensures
        overwritten(memory, start, bytes).len() == memory.len(),
{
}

/// Bytes that fit below the end of memory replace one stretch of it and
/// leave what lies before and after as it was.
pub proof fn lemma_overwritten_within(memory: Seq<u8>, start: int, bytes: Seq<u8>)
    requires
        memory.len() == MEMORY_SIZE,
        0 <= start,
        start + bytes.len() <= MEMORY_SIZE,
    ensures
        overwritten(memory, start, bytes) == memory.subrange(0, start) + bytes + memory.subrange(
            start + bytes.len(),
            MEMORY_SIZE as int,
        ),
{
}

/// A window that ends below the end of memory is one stretch of it.
pub proof fn lemma_window_within(memory: Seq<u8>, start: int, count: nat)
    requires
        memory.len() == MEMORY_SIZE,
        0 <= start,
        start + count <= MEMORY_SIZE,
    ensures
        window(memory, start, count) == memory.subrange(start, start + count),
{
}

/// What has been written is what is read back from the same place.
pub proof fn lemma_written_is_read(memory: Seq<u8>, start: int, bytes: Seq<u8>)
    requires
        memory.len() == MEMORY_SIZE,
        0 <= start,
        bytes.len() <= MEMORY_SIZE,
    ensures
        window(overwritten(memory, start, bytes), start, bytes.len()) == bytes,
{
}

/// The flat, byte-addressed memory of the machine.
#[derive(Debug, PartialEq)]
pub struct Memory {
    bytes: [u8; 4096],
}

impl View for Memory {
    type V = Seq<u8>;

    closed spec fn view(&self) -> Seq<u8> {
        self.bytes@
    }
}

impl Memory {
    /// Memory holding the font and nothing else.
    pub fn new() -> (memory: Memory)
        ensures
            memory@ == pristine(),
    {
        let mut bytes: [u8; 4096] = [0; 4096];
        let mut index: usize = 0;
        while index < FONT_SIZE
            invariant
                index <= FONT_SIZE,
                forall|k: int| 0 <= k < index ==> bytes@[k] == FONT@[k],
                forall|k: int| index <= k < 4096 ==> bytes@[k] == 0,
            decreases FONT_SIZE - index,
        {
            bytes[index] = FONT[index];
            index = index + 1;
        }
        Memory { bytes }
    }

    /// Memory always has exactly 4096 bytes.
    pub proof fn lemma_size(&self)
        ensures
            self@.len() == MEMORY_SIZE,
    {
    }

    /// The byte at `address`.
    pub fn read(&self, address: u16) -> (byte: u8)
        ensures
            byte == self@[cell(address as int)],
    {
        self.bytes[(address % 4096) as usize]
    }

    /// The two bytes of the instruction at the program counter, in memory
    /// order: the high byte of the word first.
    pub fn fetch(&self, program_counter: &ProgramCounter) -> (word: [u8; 2])
        ensures
            word@ == window(self@, program_counter@ as int, 2),
    {
        let address: u16 = u16::from(program_counter.value);
        let high: u8 = self.read(address);
        let low: u8 = self.read(address.wrapping_add(1));
        [high, low]
    }

    /// The `number_of_bytes` bytes that start where `i` points.
    pub fn load(&self, i: &AddressRegister, number_of_bytes: u16) -> (bytes: Vec<u8>)
        ensures
            bytes@ == window(self@, i@ as int, number_of_bytes as nat),
    {
        let start: u16 = u16::from(i.get());
        let mut bytes: Vec<u8> = Vec::new();
        let mut offset: u16 = 0;
        while offset < number_of_bytes
            invariant
                offset <= number_of_bytes,
                start == i@,
                bytes@ == window(self@, i@ as int, offset as nat),
            decreases number_of_bytes - offset,
        {
            let byte: u8 = self.read(start.wrapping_add(offset));
            bytes.push(byte);
            offset = offset + 1;
        }
        bytes
    }

    /// Copies a program into memory from the program origin on. A program
    /// that does not fit below the end of memory is refused, and memory is
    /// left as it was.
    pub fn load_rom(&mut self, rom: &Vec<u8>) -> (loaded: Result<(), Fault>)
        ensures
            rom@.len() <= MEMORY_SIZE - PROGRAM_START ==> loaded == Ok::<(), Fault>(())
                && final(self)@ == overwritten(old(self)@, PROGRAM_START as int, rom@),
            rom@.len() > MEMORY_SIZE - PROGRAM_START ==> loaded == Err::<(), Fault>(
                Fault::CapacityExceeded,
            ) && final(self)@ == old(self)@,
    {
        if rom.len() > MEMORY_SIZE - PROGRAM_START as usize {
            return Err(Fault::CapacityExceeded);
        }
        let mut i = AddressRegister::new();
        i.set(Address::from(PROGRAM_START));
        self.store(&i, rom.as_slice());
        Ok(())
    }

    /// Writes `bytes` into memory from where `i` points on.
    pub fn store(&mut self, i: &AddressRegister, bytes: &[u8])
        requires
            bytes@.len() <= MEMORY_SIZE,
        ensures
            final(self)@ == overwritten(old(self)@, i@ as int, bytes@),
    {
        let start: u16 = u16::from(i.get());
        let mut offset: usize = 0;
        while offset < bytes.len()
            invariant
                offset <= bytes@.len() <= MEMORY_SIZE,
                start == i@,
                self.bytes@ == overwritten(old(self).bytes@, i@ as int, bytes@.take(offset as int)),
            decreases bytes@.len() - offset,
        {
            let index: usize = (start as usize + offset) % MEMORY_SIZE;
            self.bytes[index] = bytes[offset];
            offset = offset + 1;
        }
    }
}

/// The index of the first free frame of the stack.
pub type StackPointer = u8;

/// The return-address stack: at most sixteen addresses, last in, first out.
pub struct Stack {
    frames: [Address; 16],
    stack_pointer: StackPointer,
}

impl View for Stack {
    type V = Seq<u16>;

    closed spec fn view(&self) -> Seq<u16> {
        Seq::new(self.stack_pointer as nat, |index: int| self.frames@[index]@)
    }
}

impl Stack {
    /// Whether the stack holds no more addresses than it has room for. Every
    /// stack does.
    #[verifier::type_invariant]
    pub closed spec fn within_depth(self) -> bool {
        self.stack_pointer <= STACK_DEPTH
    }

    /// A stack within its depth has at most sixteen return addresses
    /// outstanding.
    pub proof fn lemma_within_depth(self)
        requires
            self.within_depth(),
        ensures
            self@.len() <= STACK_DEPTH,
    {
    }

    /// An empty stack.
    pub fn new() -> (stack: Self)
        ensures
            stack@ == Seq::<u16>::empty(),
    {
        let stack = Self { frames: [Address::new(); 16], stack_pointer: 0 };
        stack
    }

    /// The number of return addresses outstanding, which never exceeds
    /// sixteen.
    pub fn depth(&self) -> (depth: usize)
        ensures
            depth == self@.len(),
            depth <= STACK_DEPTH,
    {
        proof {
            use_type_invariant(self);
        }
        self.stack_pointer as usize
    }

    /// Takes the most recent return address off the stack. An empty stack
    /// yields nothing and stays empty.
    pub fn pop(&mut self) -> (frame: Option<Address>)
        ensures
            old(self)@.len() == 0 ==> frame.is_none() && final(self)@ == old(self)@,
            old(self)@.len() > 0 ==> frame.is_some() && frame.unwrap()@ == old(self)@.last()
                && final(self)@ == old(self)@.drop_last(),
    {
        proof {
            use_type_invariant(&*self);
        }
        if self.stack_pointer > 0 {
            let top: usize = (self.stack_pointer - 1) as usize;
            let frame: Address = self.frames[top];
            self.frames[top] = Address::from(0);
            self.stack_pointer = self.stack_pointer - 1;
            Some(frame)
        } else {
            None
        }
    }

    /// Puts a return address on the stack. With sixteen addresses already
    /// outstanding the push is refused and the stack is left as it was.
    pub fn push(&mut self, address: &Address) -> (pushed: Result<(), Fault>)
        ensures
            old(self)@.len() < STACK_DEPTH ==> pushed == Ok::<(), Fault>(()) && final(self)@
                == old(self)@.push(address@),
            old(self)@.len() >= STACK_DEPTH ==> pushed == Err::<(), Fault>(Fault::StackOverflow)
                && final(self)@ == old(self)@,
    {
        proof {
            use_type_invariant(&*self);
        }
        if self.stack_pointer as usize >= STACK_DEPTH {
            Err(Fault::StackOverflow)
        } else {
            self.frames[self.stack_pointer as usize] = *address;
            self.stack_pointer = self.stack_pointer + 1;
            Ok(())
        }
    }

    /// The most recent return address, left on the stack.
    pub fn peek(&self) -> (frame: Option<Address>)
        ensures
            self@.len() == 0 ==> frame.is_none(),
            self@.len() > 0 ==> frame.is_some() && frame.unwrap()@ == self@.last(),
    {
        proof {
            use_type_invariant(self);
        }
        if self.stack_pointer == 0 {
            None
        } else {
            let top: usize = (self.stack_pointer - 1) as usize;
            let temp: Address = self.frames[top];
            Some(temp)
        }
    }
}

} // verus!
