//! The register file of the machine: addresses, the address register `I`,
//! the sixteen general-purpose registers, the program counter and the two
//! hardware timers.
//!
//! Every arithmetic operation here wraps silently; none can overflow or trap.
//! Each type is viewed (`@`) as the plain integer it holds, and every contract
//! is stated over those views.
use std::cmp::Ordering;
use vstd::prelude::*;
use vstd::std_specs::cmp::{PartialEqSpecImpl, PartialOrdSpecImpl};
use vstd::std_specs::convert::FromSpecImpl;
use vstd::std_specs::ops::{AddSpecImpl, BitAndSpecImpl, SubSpecImpl};

verus! {

/// The address at which programs are loaded and at which execution starts.
pub const PROGRAM_START: u16 = 0x200;

/// The width of one instruction in bytes.
pub const INSTRUCTION_WIDTH: u16 = 2;

/// `value` reduced to sixteen bits.
pub open spec fn wrap16(value: int) -> int {
    value % 0x1_0000
}

/// `value` reduced to eight bits.
pub open spec fn wrap8(value: int) -> int {
    value % 0x100
}

/// A 16-bit memory address. Only the low twelve bits are meaningful to memory,
/// which reduces every address it is given; the arithmetic here wraps at
/// sixteen bits.
#[derive(Copy, Clone, PartialEq, Eq, Structural, Debug)]
pub struct Address(u16);

impl View for Address {
    type V = u16;

    closed spec fn view(&self) -> u16 {
        self.0
    }
}

impl Address {
    /// The address zero.
    pub fn new() -> (address: Self)
        ensures
            address@ == 0,
    {
        Address(0)
    }

    /// Two addresses with the same view are the same address.
    pub proof fn lemma_view_injective(a: Address, b: Address)
        ensures
            a@ == b@ <==> a == b,
    {
    }
}

impl From<u16> for Address {
    fn from(value: u16) -> (address: Self)
        ensures
            address@ == value,
    {
        Self(value)
    }
}

impl FromSpecImpl<u16> for Address {
    open spec fn obeys_from_spec() -> bool {
        true
    }

    closed spec fn from_spec(value: u16) -> Self {
        Address(value)
    }
}

impl From<Address> for u16 {
    fn from(address: Address) -> (value: u16)
        ensures
            value == address@,
    {
        address.0
    }
}

impl FromSpecImpl<Address> for u16 {
    open spec fn obeys_from_spec() -> bool {
        true
    }

    open spec fn from_spec(address: Address) -> u16 {
        address@
    }
}

impl From<Address> for usize {
    fn from(address: Address) -> (value: usize)
        ensures
            value == address@,
    {
        address.0 as usize
    }
}

impl FromSpecImpl<Address> for usize {
    open spec fn obeys_from_spec() -> bool {
        true
    }

    open spec fn from_spec(address: Address) -> usize {
        address@ as usize
    }
}

impl std::ops::Add<Register> for Address {
    type Output = Self;

    /// The address `other` bytes further on, wrapping at sixteen bits.
    fn add(self, other: Register) -> (sum: Self)
        ensures
            sum@ == wrap16(self@ + other@),
    {
        Self(self.0.wrapping_add(other.0 as u16))
    }
}

impl AddSpecImpl<Register> for Address {
    open spec fn obeys_add_spec() -> bool {
        true
    }

    open spec fn add_req(self, other: Register) -> bool {
        true
    }

    closed spec fn add_spec(self, other: Register) -> Self {
        Address(wrap16(self.0 + other.0) as u16)
    }
}

impl std::ops::AddAssign<u16> for Address {
    /// Moves the address `other` bytes forward, wrapping at sixteen bits.
    fn add_assign(&mut self, other: u16)
        ensures
            final(self)@ == wrap16(old(self)@ + other),
    {
        self.0 = self.0.wrapping_add(other);
    }
}

impl std::ops::SubAssign<u16> for Address {
    /// Moves the address `other` bytes back, wrapping at sixteen bits.
    fn sub_assign(&mut self, other: u16)
        ensures
            final(self)@ == wrap16(old(self)@ - other),
    {
        self.0 = self.0.wrapping_sub(other);
    }
}

/// The address register `I`, through which instructions reach memory.
#[derive(Copy, Clone, PartialEq, Eq, Structural, Debug)]
pub struct AddressRegister(u16);

impl View for AddressRegister {
    type V = u16;

    closed spec fn view(&self) -> u16 {
        self.0
    }
}

impl AddressRegister {
    /// The register holding address zero.
    pub fn new() -> (i: Self)
        ensures
            i@ == 0,
    {
        Self(0)
    }

    /// Points the register at `value`.
    pub fn set(&mut self, value: Address)
        ensures
            final(self)@ == value@,
    {
        self.0 = value.0;
    }

    /// The address the register points at.
    pub fn get(&self) -> (value: Address)
        ensures
            value@ == self@,
    {
        Address(self.0)
    }
}

impl std::ops::AddAssign<Register> for AddressRegister {
    /// Advances the register by the value of `register`, wrapping at sixteen
    /// bits.
    fn add_assign(&mut self, register: Register)
        ensures
            final(self)@ == wrap16(old(self)@ + register@),
    {
        *self = Self(self.0.wrapping_add(register.0 as u16))
    }
}

impl From<AddressRegister> for usize {
    fn from(i: AddressRegister) -> (value: usize)
        ensures
            value == i@,
    {
        i.0 as usize
    }
}

impl FromSpecImpl<AddressRegister> for usize {
    open spec fn obeys_from_spec() -> bool {
        true
    }

    open spec fn from_spec(i: AddressRegister) -> usize {
        i@ as usize
    }
}

/// One of the sixteen 8-bit general-purpose registers `V0` to `VF`.
#[derive(Copy, Clone, Debug)]
pub struct Register(u8);

impl View for Register {
    type V = u8;

    closed spec fn view(&self) -> u8 {
        self.0
    }
}

impl Register {
    /// Overwrites the register with `value`.
    pub fn set(&mut self, value: u8)
        ensures
            final(self)@ == value,
    {
        self.0 = value;
    }

    /// Two registers with the same view are the same register value.
    pub proof fn lemma_view_injective(a: Register, b: Register)
        ensures
            a@ == b@ <==> a == b,
    {
    }
}

impl From<u8> for Register {
    fn from(byte: u8) -> (register: Self)
        ensures
            register@ == byte,
    {
        Self(byte)
    }
}

impl FromSpecImpl<u8> for Register {
    open spec fn obeys_from_spec() -> bool {
        true
    }

    closed spec fn from_spec(byte: u8) -> Self {
        Register(byte)
    }
}

impl From<Register> for u8 {
    fn from(register: Register) -> (byte: u8)
        ensures
            byte == register@,
    {
        register.0
    }
}

impl FromSpecImpl<Register> for u8 {
    open spec fn obeys_from_spec() -> bool {
        true
    }

    open spec fn from_spec(register: Register) -> u8 {
        register@
    }
}

impl From<Register> for u16 {
    fn from(register: Register) -> (value: u16)
        ensures
            value == register@,
    {
        register.0 as u16
    }
}

impl FromSpecImpl<Register> for u16 {
    open spec fn obeys_from_spec() -> bool {
        true
    }

    open spec fn from_spec(register: Register) -> u16 {
        register@ as u16
    }
}

impl PartialEq<u8> for Register {
    fn eq(&self, other: &u8) -> (r: bool)
        ensures
            r == (self@ == *other),
    {
        self.0 == *other
    }

    fn ne(&self, other: &u8) -> (r: bool)
        ensures
            r == (self@ != *other),
    {
        self.0 != *other
    }
}

impl PartialEqSpecImpl<u8> for Register {
    open spec fn obeys_eq_spec() -> bool {
        true
    }

    open spec fn eq_spec(&self, other: &u8) -> bool {
        self@ == *other
    }
}

impl PartialEq for Register {
    fn eq(&self, other: &Self) -> (r: bool)
        ensures
            r == (self@ == other@),
    {
        self.0 == other.0
    }

    fn ne(&self, other: &Self) -> (r: bool)
        ensures
            r == (self@ != other@),
    {
        self.0 != other.0
    }
}

impl PartialEqSpecImpl for Register {
    open spec fn obeys_eq_spec() -> bool {
        true
    }

    open spec fn eq_spec(&self, other: &Self) -> bool {
        self@ == other@
    }
}

impl PartialOrd for Register {
    /// Registers compare as the unsigned bytes they hold.
    fn partial_cmp(&self, other: &Self) -> (r: Option<Ordering>)
        ensures
            r == Some(Ordering::Less) <==> self@ < other@,
            r == Some(Ordering::Equal) <==> self@ == other@,
            r == Some(Ordering::Greater) <==> self@ > other@,
    {
        if self.0 < other.0 {
            Some(Ordering::Less)
        } else if self.0 > other.0 {
            Some(Ordering::Greater)
        } else {
            Some(Ordering::Equal)
        }
    }
}

impl PartialOrdSpecImpl for Register {
    open spec fn obeys_partial_cmp_spec() -> bool {
        true
    }

    open spec fn partial_cmp_spec(&self, other: &Self) -> Option<Ordering> {
        if self@ < other@ {
            Some(Ordering::Less)
        } else if self@ > other@ {
            Some(Ordering::Greater)
        } else {
            Some(Ordering::Equal)
        }
    }
}

impl std::ops::BitOrAssign for Register {
    fn bitor_assign(&mut self, other: Self)
        ensures
            final(self)@ == old(self)@ | other@,
    {
        self.0 = self.0 | other.0;
    }
}

impl std::ops::BitAnd<u8> for Register {
    type Output = u8;

    fn bitand(self, value: u8) -> (masked: u8)
        ensures
            masked == self@ & value,
    {
        self.0 & value
    }
}

impl BitAndSpecImpl<u8> for Register {
    open spec fn obeys_bitand_spec() -> bool {
        true
    }

    open spec fn bitand_req(self, value: u8) -> bool {
        true
    }

    open spec fn bitand_spec(self, value: u8) -> u8 {
        self@ & value
    }
}

impl std::ops::BitAndAssign for Register {
    fn bitand_assign(&mut self, other: Self)
        ensures
            final(self)@ == old(self)@ & other@,
    {
        self.0 = self.0 & other.0;
    }
}

impl std::ops::BitXorAssign for Register {
    fn bitxor_assign(&mut self, other: Self)
        ensures
            final(self)@ == old(self)@ ^ other@,
    {
        self.0 = self.0 ^ other.0;
    }
}

impl std::ops::AddAssign<u8> for Register {
    /// Adds `byte`, wrapping at eight bits.
    fn add_assign(&mut self, byte: u8)
        ensures
            final(self)@ == wrap8(old(self)@ + byte),
    {
        self.0 = self.0.wrapping_add(byte);
    }
}

impl std::ops::Sub for Register {
    type Output = Register;

    /// The difference of the two registers, wrapping at eight bits.
    fn sub(self, other: Self) -> (difference: Register)
        ensures
            difference@ == wrap8(self@ - other@),
    {
        Self(self.0.wrapping_sub(other.0))
    }
}

impl SubSpecImpl for Register {
    open spec fn obeys_sub_spec() -> bool {
        true
    }

    open spec fn sub_req(self, other: Self) -> bool {
        true
    }

    closed spec fn sub_spec(self, other: Self) -> Register {
        Register(wrap8(self.0 - other.0) as u8)
    }
}

impl std::ops::SubAssign for Register {
    /// Subtracts `other`, wrapping at eight bits.
    fn sub_assign(&mut self, other: Self)
        ensures
            final(self)@ == wrap8(old(self)@ - other@),
    {
        self.0 = self.0.wrapping_sub(other.0)
    }
}

/// The factor by which a shift of `bits` places scales a byte. A shift of
/// eight places or more moves every bit out of the byte, as a factor of 256
/// does.
pub open spec fn shift_weight(bits: usize) -> int {
    if bits == 0 {
        1
    } else if bits == 1 {
        2
    } else if bits == 2 {
        4
    } else if bits == 3 {
        8
    } else if bits == 4 {
        16
    } else if bits == 5 {
        32
    } else if bits == 6 {
        64
    } else if bits == 7 {
        128
    } else {
        256
    }
}

/// `value` shifted left by `bits` places within eight bits.
pub open spec fn shifted_left(value: u8, bits: usize) -> int {
    wrap8((value as int) * shift_weight(bits))
}

/// `value` shifted right by `bits` places.
pub open spec fn shifted_right(value: u8, bits: usize) -> int {
    (value as int) / shift_weight(bits)
}

proof fn lemma_shift_left(value: u8, bits: usize)
    requires
        bits < 8,
    ensures
        (value << bits) == shifted_left(value, bits),
{
    if bits == 0 {
        assert(value << 0usize == (value * 1) % 0x100) by (bit_vector);
    } else if bits == 1 {
        assert(value << 1usize == (value * 2) % 0x100) by (bit_vector);
    } else if bits == 2 {
        assert(value << 2usize == (value * 4) % 0x100) by (bit_vector);
    } else if bits == 3 {
        assert(value << 3usize == (value * 8) % 0x100) by (bit_vector);
    } else if bits == 4 {
        assert(value << 4usize == (value * 16) % 0x100) by (bit_vector);
    } else if bits == 5 {
        assert(value << 5usize == (value * 32) % 0x100) by (bit_vector);
    } else if bits == 6 {
        assert(value << 6usize == (value * 64) % 0x100) by (bit_vector);
    } else {
        assert(value << 7usize == (value * 128) % 0x100) by (bit_vector);
    }
}

proof fn lemma_shift_right(value: u8, bits: usize)
    requires
        bits < 8,
    ensures
        (value >> bits) == shifted_right(value, bits),
{
    if bits == 0 {
        assert(value >> 0usize == value / 1) by (bit_vector);
    } else if bits == 1 {
        assert(value >> 1usize == value / 2) by (bit_vector);
    } else if bits == 2 {
        assert(value >> 2usize == value / 4) by (bit_vector);
    } else if bits == 3 {
        assert(value >> 3usize == value / 8) by (bit_vector);
    } else if bits == 4 {
        assert(value >> 4usize == value / 16) by (bit_vector);
    } else if bits == 5 {
        assert(value >> 5usize == value / 32) by (bit_vector);
    } else if bits == 6 {
        assert(value >> 6usize == value / 64) by (bit_vector);
    } else {
        assert(value >> 7usize == value / 128) by (bit_vector);
    }
}

impl std::ops::ShlAssign<usize> for Register {
    /// Shifts the register left by `bits` places; bits moved past the eighth
    /// are lost.
    fn shl_assign(&mut self, bits: usize)
        ensures
            final(self)@ == shifted_left(old(self)@, bits),
    {
        if bits >= 8 {
            self.0 = 0;
        } else {
            proof {
                lemma_shift_left(self.0, bits);
            }
            self.0 = self.0 << bits;
        }
    }
}

impl std::ops::ShrAssign<usize> for Register {
    /// Shifts the register right by `bits` places; bits moved past the first
    /// are lost.
    fn shr_assign(&mut self, bits: usize)
        ensures
            final(self)@ == shifted_right(old(self)@, bits),
    {
        if bits >= 8 {
            self.0 = 0;
        } else {
            proof {
                lemma_shift_right(self.0, bits);
            }
            self.0 = self.0 >> bits;
        }
    }
}

/// The program counter: the address of the next instruction to fetch.
#[derive(Copy, Clone, PartialEq, Eq, Structural, Debug)]
pub struct ProgramCounter {
    pub value: Address,
}

impl View for ProgramCounter {
    type V = u16;

    open spec fn view(&self) -> u16 {
        self.value@
    }
}

impl ProgramCounter {
    /// A counter at the program origin.
    pub fn new() -> (program_counter: Self)
        ensures
            program_counter@ == PROGRAM_START,
    {
        Self { value: Address::from(PROGRAM_START) }
    }

    /// Steps over one instruction.
    pub fn increment(&mut self)
        ensures
            final(self)@ == wrap16(old(self)@ + INSTRUCTION_WIDTH),
    {
        std::ops::AddAssign::add_assign(&mut self.value, INSTRUCTION_WIDTH);
    }

    /// Steps back over one instruction, so that it is fetched again.
    pub fn decrement(&mut self)
        ensures
            final(self)@ == wrap16(old(self)@ - INSTRUCTION_WIDTH),
    {
        std::ops::SubAssign::sub_assign(&mut self.value, INSTRUCTION_WIDTH);
    }

    /// Jumps to `address`.
    pub fn set(&mut self, address: Address)
        ensures
            final(self)@ == address@,
    {
        self.value = address;
    }
}

impl From<&Address> for ProgramCounter {
    fn from(address: &Address) -> (program_counter: Self)
        ensures
            program_counter@ == address@,
    {
        Self { value: *address }
    }
}

impl FromSpecImpl<&Address> for ProgramCounter {
    open spec fn obeys_from_spec() -> bool {
        true
    }

    open spec fn from_spec(address: &Address) -> Self {
        ProgramCounter { value: *address }
    }
}

impl From<&ProgramCounter> for usize {
    fn from(program_counter: &ProgramCounter) -> (value: usize)
        ensures
            value == program_counter@,
    {
        program_counter.value.into()
    }
}

impl FromSpecImpl<&ProgramCounter> for usize {
    open spec fn obeys_from_spec() -> bool {
        true
    }

    open spec fn from_spec(program_counter: &ProgramCounter) -> usize {
        program_counter@ as usize
    }
}

/// What one tick of the 60 Hz clock leaves of a timer that held `value`.
pub open spec fn ticked(value: u8) -> u8 {
    if value > 0 {
        (value - 1) as u8
    } else {
        0
    }
}

/// What `ticks` ticks of the clock leave of a timer that held `value`.
pub open spec fn ticked_times(value: u8, ticks: nat) -> u8
    decreases ticks,
{
    if ticks == 0 {
        value
    } else {
        ticked(ticked_times(value, (ticks - 1) as nat))
    }
}

/// A timer counts down to zero and stays there: after `ticks` ticks it holds
/// what is left of `value`, and zero once `ticks` has reached `value`. It never
/// wraps below zero.
pub proof fn lemma_ticks_count_down(value: u8, ticks: nat)
    ensures
        ticks >= value ==> ticked_times(value, ticks) == 0,
        ticks < value ==> ticked_times(value, ticks) == value - ticks,
    decreases ticks,
{
    if ticks > 0 {
        lemma_ticks_count_down(value, (ticks - 1) as nat);
    }
}

/// The delay timer: an 8-bit counter that programs set and read, and that the
/// clock counts down.
#[derive(Debug)]
pub struct DelayTimer(u8);

impl View for DelayTimer {
    type V = u8;

    closed spec fn view(&self) -> u8 {
        self.0
    }
}

impl DelayTimer {
    /// A timer at zero.
    pub fn new() -> (timer: Self)
        ensures
            timer@ == 0,
    {
        Self(0)
    }

    /// The current count.
    pub fn get(&self) -> (value: u8)
        ensures
            value == self@,
    {
        self.0
    }

    /// Starts the timer at `value`.
    pub fn set(&mut self, value: u8)
        ensures
            final(self)@ == value,
    {
        self.0 = value;
    }

    /// One tick of the clock: counts down by one unless already at zero.
    pub fn tick(&mut self)
        ensures
            final(self)@ == ticked(old(self)@),
    {
        if self.0 > 0 {
            self.0 = self.0 - 1;
        }
    }
}

impl From<Register> for DelayTimer {
    fn from(register: Register) -> (timer: Self)
        ensures
            timer@ == register@,
    {
        Self(register.into())
    }
}

impl FromSpecImpl<Register> for DelayTimer {
    open spec fn obeys_from_spec() -> bool {
        true
    }

    closed spec fn from_spec(register: Register) -> Self {
        DelayTimer(register.0)
    }
}

impl From<DelayTimer> for Register {
    fn from(delay_timer: DelayTimer) -> (register: Self)
        ensures
            register@ == delay_timer@,
    {
        Self(delay_timer.0)
    }
}

impl FromSpecImpl<DelayTimer> for Register {
    open spec fn obeys_from_spec() -> bool {
        true
    }

    closed spec fn from_spec(delay_timer: DelayTimer) -> Self {
        Register(delay_timer.0)
    }
}

/// The sound timer: an 8-bit counter that programs set, and that the clock
/// counts down. The tone sounds while it is above zero.
#[derive(Debug)]
pub struct SoundTimer(u8);

impl View for SoundTimer {
    type V = u8;

    closed spec fn view(&self) -> u8 {
        self.0
    }
}

impl SoundTimer {
    /// A timer at zero.
    pub fn new() -> (timer: Self)
        ensures
            timer@ == 0,
    {
        Self(0)
    }

    /// The current count.
    pub fn get(&self) -> (value: u8)
        ensures
            value == self@,
    {
        self.0
    }

    /// Starts the timer at `value`.
    pub fn set(&mut self, value: u8)
        ensures
            final(self)@ == value,
    {
        self.0 = value;
    }

    /// One tick of the clock: counts down by one unless already at zero.
    pub fn tick(&mut self)
        ensures
            final(self)@ == ticked(old(self)@),
    {
        if self.0 > 0 {
            self.0 = self.0 - 1;
        }
    }
}

impl From<SoundTimer> for Register {
    fn from(sound_timer: SoundTimer) -> (register: Self)
        ensures
            register@ == sound_timer@,
    {
        Self(sound_timer.0)
    }
}

impl FromSpecImpl<SoundTimer> for Register {
    open spec fn obeys_from_spec() -> bool {
        true
    }

    closed spec fn from_spec(sound_timer: SoundTimer) -> Self {
        Register(sound_timer.0)
    }
}

} // verus!
