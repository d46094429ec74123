use chip8::fault::Fault;
use chip8::memory::Memory;
use chip8::memory::Stack;
use chip8::memory::FONT;
use chip8::registers::Address;
use chip8::registers::AddressRegister;
use chip8::registers::ProgramCounter;

#[test]
fn memory_load_rom() {
    let rom = vec![0xAA, 0xBB, 0xCC];
    let mut memory = Memory::new();
    assert_eq!(memory.load_rom(&rom), Ok(()));
    let memory_cmp = Memory::new();
    assert_ne!(memory, memory_cmp);
}

#[test]
fn memory_load() {
    let memory = Memory::new();
    let mut address_register = AddressRegister::new();
    address_register.set(Address::from(0));
    assert_eq!(
        memory.load(&address_register, 5),
        &[0xF0, 0x90, 0x90, 0x90, 0xF0]
    );
}

#[test]
fn memory_store() {
    let data = [0xAA, 0xBB, 0xCC];
    let mut memory = Memory::new();
    let mut address_register = AddressRegister::new();
    address_register.set(Address::from(0x200));
    memory.store(&address_register, &data);
    assert_ne!(memory, Memory::new());
}

#[test]
fn memory_starts_with_the_font_and_zeros() {
    let memory = Memory::new();
    for (address, byte) in FONT.iter().enumerate() {
        assert_eq!(memory.read(address as u16), *byte);
    }
    for address in 80..4096u16 {
        assert_eq!(memory.read(address), 0);
    }
    let mut i = AddressRegister::new();
    i.set(Address::from(75));
    assert_eq!(memory.load(&i, 5), &[0xF0, 0x80, 0xF0, 0x80, 0x80]);
    i.set(Address::from(5));
    assert_eq!(memory.load(&i, 5), &[0x20, 0x60, 0x20, 0x20, 0x70]);
}

#[test]
fn memory_fetch_reads_the_two_bytes_at_the_program_counter() {
    let mut memory = Memory::new();
    assert_eq!(memory.load_rom(&vec![0x12, 0x34, 0x56]), Ok(()));
    let mut program_counter = ProgramCounter::new();
    assert_eq!(memory.fetch(&program_counter), [0x12, 0x34]);
    program_counter.set(Address::from(0x201));
    assert_eq!(memory.fetch(&program_counter), [0x34, 0x56]);
    program_counter.set(Address::from(0));
    assert_eq!(memory.fetch(&program_counter), [0xF0, 0x90]);
}

#[test]
fn memory_load_rom_places_the_program_at_the_origin() {
    let mut memory = Memory::new();
    assert_eq!(memory.load_rom(&vec![1, 2, 3]), Ok(()));
    assert_eq!(memory.read(0x1FF), 0);
    assert_eq!(memory.read(0x200), 1);
    assert_eq!(memory.read(0x201), 2);
    assert_eq!(memory.read(0x202), 3);
    assert_eq!(memory.read(0x203), 0);
    assert_eq!(memory.read(0), 0xF0);
}

#[test]
fn memory_load_rom_takes_a_program_that_just_fits() {
    let mut rom = vec![0u8; 3584];
    rom[0] = 7;
    rom[3583] = 9;
    let mut memory = Memory::new();
    assert_eq!(memory.load_rom(&rom), Ok(()));
    assert_eq!(memory.read(0x200), 7);
    assert_eq!(memory.read(0xFFF), 9);
    assert_eq!(memory.read(0), 0xF0);
}

#[test]
fn memory_load_rom_refuses_a_program_that_is_too_large() {
    let rom = vec![0xFFu8; 3585];
    let mut memory = Memory::new();
    assert_eq!(memory.load_rom(&rom), Err(Fault::CapacityExceeded));
    assert_eq!(memory, Memory::new());
}

#[test]
fn memory_load_rom_accepts_an_empty_program() {
    let mut memory = Memory::new();
    assert_eq!(memory.load_rom(&vec![]), Ok(()));
    assert_eq!(memory, Memory::new());
}

#[test]
fn memory_addresses_are_reduced_to_twelve_bits() {
    let mut memory = Memory::new();
    let mut i = AddressRegister::new();
    i.set(Address::from(0x1234));
    memory.store(&i, &[0x11, 0x22]);
    assert_eq!(memory.read(0x234), 0x11);
    assert_eq!(memory.read(0x235), 0x22);
    assert_eq!(memory.read(0x1234), 0x11);
    i.set(Address::from(0x0234));
    assert_eq!(memory.load(&i, 2), &[0x11, 0x22]);
}

#[test]
fn memory_windows_continue_at_the_first_byte() {
    let mut memory = Memory::new();
    let mut i = AddressRegister::new();
    i.set(Address::from(0xFFE));
    memory.store(&i, &[1, 2, 3, 4]);
    assert_eq!(memory.read(0xFFE), 1);
    assert_eq!(memory.read(0xFFF), 2);
    assert_eq!(memory.read(0x000), 3);
    assert_eq!(memory.read(0x001), 4);
    assert_eq!(memory.read(0x002), 0x90);
    assert_eq!(memory.load(&i, 5), &[1, 2, 3, 4, 0x90]);
    let mut program_counter = ProgramCounter::new();
    program_counter.set(Address::from(0xFFF));
    assert_eq!(memory.fetch(&program_counter), [2, 3]);
    program_counter.set(Address::from(0xFFFF));
    assert_eq!(memory.fetch(&program_counter), [2, 3]);
}

#[test]
fn memory_load_of_nothing_is_empty() {
    let memory = Memory::new();
    let i = AddressRegister::new();
    assert_eq!(memory.load(&i, 0), Vec::<u8>::new());
}

#[test]
fn stack_starts_empty() {
    let mut stack = Stack::new();
    assert_eq!(stack.depth(), 0);
    assert_eq!(stack.peek(), None);
    assert_eq!(stack.pop(), None);
    assert_eq!(stack.depth(), 0);
}

#[test]
fn stack_push_then_peek_and_pop() {
    let mut stack = Stack::new();
    assert_eq!(stack.push(&Address::from(0x200)), Ok(()));
    assert_eq!(stack.peek(), Some(Address::from(0x200)));
    assert_eq!(stack.depth(), 1);
    assert_eq!(stack.push(&Address::from(0x300)), Ok(()));
    assert_eq!(stack.peek(), Some(Address::from(0x300)));
    assert_eq!(stack.pop(), Some(Address::from(0x300)));
    assert_eq!(stack.pop(), Some(Address::from(0x200)));
    assert_eq!(stack.peek(), None);
    assert_eq!(stack.pop(), None);
}

#[test]
fn stack_holds_sixteen_addresses_and_refuses_the_seventeenth() {
    let mut stack = Stack::new();
    for frame in 0..16u16 {
        assert_eq!(stack.push(&Address::from(0x200 + frame)), Ok(()));
    }
    assert_eq!(stack.depth(), 16);
    assert_eq!(
        stack.push(&Address::from(0x999)),
        Err(Fault::StackOverflow)
    );
    assert_eq!(stack.depth(), 16);
    for frame in (0..16u16).rev() {
        assert_eq!(stack.pop(), Some(Address::from(0x200 + frame)));
    }
    assert_eq!(stack.pop(), None);
}
