use chip8::registers::Address;
use chip8::registers::AddressRegister;
use chip8::registers::DelayTimer;
use chip8::registers::ProgramCounter;
use chip8::registers::Register;
use chip8::registers::SoundTimer;

#[test]
fn program_counter_increments() {
    let mut program_counter = ProgramCounter::new();
    assert_eq!(u16::from(program_counter.value), 0x200);
    program_counter.increment();
    assert_eq!(u16::from(program_counter.value), 0x202);
}

#[test]
fn program_counter_decrements() {
    let mut program_counter = ProgramCounter::new();
    program_counter.value = Address::from(0x202);
    assert_eq!(u16::from(program_counter.value), 0x202);
    program_counter.decrement();
    assert_eq!(u16::from(program_counter.value), 0x200);
}

#[test]
fn address_add_assign() {
    let mut address = Address::new();
    assert_eq!(u16::from(address), 0x00);
    address += 2;
    assert_eq!(u16::from(address), 0x02);
}

#[test]
fn address_sub_assign() {
    let mut address = Address::from(0x200);
    address -= 0x002;
    assert_eq!(u16::from(address), 0x1FE);
}

#[test]
fn address_add() {
    let address = Address::from(0x200);
    assert_eq!(
        u16::from(address + Register::from(0x02)),
        u16::from(Address::from(0x202))
    );
}

#[test]
fn address_register_add_assign() {
    let mut address_register = AddressRegister::new();
    assert_eq!(usize::from(address_register), 0);
    address_register += Register::from(0x02);
    assert_eq!(usize::from(address_register), 2);
    let mut address_register_2 = AddressRegister::new();
    address_register_2.set(Address::from(0xFFFF));
    address_register_2 += Register::from(1);
    assert_eq!(usize::from(address_register_2), 0);
}

#[test]
fn register_add_assign() {
    let mut register = Register::from(0);
    register += 2;
    assert_eq!(u8::from(register), 2);
}

#[test]
fn register_bitand_assign() {
    let mut register = Register::from(0b11110000);
    register &= Register::from(0b11101111);
    assert_eq!(u8::from(register), 0b11100000);
}

#[test]
fn register_bitor_assign() {
    let mut register = Register::from(0b10101010);
    register |= Register::from(0b01010101);
    assert_eq!(u8::from(register), 0b11111111);
}

#[test]
fn register_bitxor_assign() {
    let mut register = Register::from(0b11111111);
    register ^= Register::from(0b11111111);
    assert_eq!(u8::from(register), 0b00000000);
}

#[test]
fn register_eq_u8() {
    let register = Register::from(0xFE);
    assert_eq!(u8::from(register) == 0xFE, true);
    assert_eq!(register == 0xFE, true);
}

#[test]
fn register_ne_u8() {
    let register = Register::from(0xFE);
    assert_eq!(u8::from(register) != 0xFA, true);
    assert_eq!(register != 0xFA, true);
}

#[test]
fn register_eq_register() {
    assert_eq!(Register::from(0xFE) == Register::from(0xFE), true);
}

#[test]
fn register_ne_register() {
    assert_eq!(Register::from(0xFA) != Register::from(0xFE), true);
}

#[test]
fn register_ge_register() {
    assert_eq!(Register::from(0xFF) >= Register::from(0xFF), true);
    assert_eq!(Register::from(0xFF) >= Register::from(0xFE), true);
}

#[test]
fn register_gt_register() {
    assert_eq!(Register::from(0xFF) > Register::from(0xFE), true);
}

#[test]
fn register_le() {
    assert_eq!(Register::from(0xFF) <= Register::from(0xFF), true);
    assert_eq!(Register::from(0xFE) <= Register::from(0xFF), true);
}

#[test]
fn register_lt() {
    assert_eq!(Register::from(0xFE) < Register::from(0xFF), true);
}

#[test]
fn register_shift_left_assign() {
    let mut register = Register::from(4);
    register <<= 1;
    assert_eq!(u8::from(register), 8);
}

#[test]
fn register_shift_right() {
    let mut register = Register::from(4);
    register >>= 1;
    assert_eq!(u8::from(register), 2);
}

#[test]
fn register_comparisons_are_false_where_they_should_be() {
    assert_eq!(Register::from(1) == Register::from(2), false);
    assert_eq!(Register::from(1) != Register::from(1), false);
    assert_eq!(Register::from(1) > Register::from(1), false);
    assert_eq!(Register::from(2) < Register::from(1), false);
    assert_eq!(Register::from(1) >= Register::from(2), false);
    assert_eq!(Register::from(2) <= Register::from(1), false);
    assert_eq!(Register::from(7) == 8, false);
}

#[test]
fn register_arithmetic_wraps() {
    let mut register = Register::from(250);
    register += 10;
    assert_eq!(u8::from(register), 4);
    let mut register = Register::from(3);
    register -= Register::from(5);
    assert_eq!(u8::from(register), 254);
    assert_eq!(u8::from(Register::from(0) - Register::from(1)), 255);
    assert_eq!(Register::from(0b1010_1010) & 0b0000_1111, 0b0000_1010);
}

#[test]
fn register_shifts_lose_the_bits_moved_out() {
    let mut register = Register::from(0b1100_0001);
    register <<= 1;
    assert_eq!(u8::from(register), 0b1000_0010);
    let mut register = Register::from(0b1100_0001);
    register >>= 1;
    assert_eq!(u8::from(register), 0b0110_0000);
    let mut register = Register::from(0xFF);
    register <<= 7;
    assert_eq!(u8::from(register), 0x80);
    let mut register = Register::from(0xFF);
    register <<= 8;
    assert_eq!(u8::from(register), 0);
    let mut register = Register::from(0xFF);
    register >>= 9;
    assert_eq!(u8::from(register), 0);
    let mut register = Register::from(0xA5);
    register <<= 0;
    assert_eq!(u8::from(register), 0xA5);
}

#[test]
fn register_conversions_keep_the_value() {
    let mut register = Register::from(0x12);
    assert_eq!(u16::from(register), 0x12);
    register.set(0x34);
    assert_eq!(u8::from(register), 0x34);
}

#[test]
fn address_arithmetic_wraps_at_sixteen_bits() {
    let mut address = Address::from(0xFFFF);
    address += 2;
    assert_eq!(u16::from(address), 1);
    let mut address = Address::from(0);
    address -= 2;
    assert_eq!(u16::from(address), 0xFFFE);
    assert_eq!(u16::from(Address::from(0xFFFF) + Register::from(0xFF)), 0xFE);
    assert_eq!(usize::from(Address::from(0x0ABC)), 0x0ABC);
    assert_eq!(Address::from(7), Address::from(7));
}

#[test]
fn program_counter_wraps_and_converts() {
    let mut program_counter = ProgramCounter::from(&Address::from(0xFFFF));
    program_counter.increment();
    assert_eq!(usize::from(&program_counter), 1);
    program_counter.set(Address::from(0));
    program_counter.decrement();
    assert_eq!(usize::from(&program_counter), 0xFFFE);
}

#[test]
fn address_register_points_where_it_is_set() {
    let mut i = AddressRegister::new();
    i.set(Address::from(0x0123));
    assert_eq!(u16::from(i.get()), 0x0123);
}

#[test]
fn timer_counts_down_to_zero_and_stays_there() {
    let mut timer = DelayTimer::new();
    assert_eq!(timer.get(), 0);
    timer.set(5);
    for expected in [4, 3, 2, 1, 0] {
        timer.tick();
        assert_eq!(timer.get(), expected);
    }
    timer.tick();
    assert_eq!(timer.get(), 0);
    timer.tick();
    assert_eq!(timer.get(), 0);

    let mut timer = SoundTimer::new();
    timer.set(5);
    for _ in 0..5 {
        timer.tick();
    }
    assert_eq!(timer.get(), 0);
    timer.tick();
    assert_eq!(timer.get(), 0);
}

#[test]
fn timers_convert_to_and_from_registers() {
    let timer = DelayTimer::from(Register::from(9));
    assert_eq!(timer.get(), 9);
    assert_eq!(u8::from(Register::from(timer)), 9);
    let mut timer = SoundTimer::new();
    timer.set(3);
    assert_eq!(u8::from(Register::from(timer)), 3);
}
