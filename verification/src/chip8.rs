//! The interpreter: one machine, stepped one instruction at a time.
//!
//! One step fetches the instruction word at the program counter, advances the
//! counter past it, decodes the word and executes the instruction. What a step
//! does is a function of the machine's state, the state of the keypad and one
//! random byte; what the outside world is to be told of it (a changed display,
//! a tone to start or stop) is returned as signals.
//!
//! An interpreter is viewed (`@`) as a [`Machine`], the plain mathematical
//! state on which the specification of every instruction is written.
use crate::fault::Fault;
use crate::graphics::{blank, covered, flag, sprite_collides, sprite_drawn, ConsoleDisplay, Sprite};
use crate::instruction::{
    decode, lemma_decoded_well_formed, Instruction, FLAG_REGISTER, REGISTER_COUNT,
};
use crate::keyboard::{first_pressed, key_down, Keypad};
use crate::machine::{
    booted, clocked, decimal_digits, effects, executed, refusal, step_effects, step_fault, stepped,
    Machine,
};
use crate::memory::{cell, overwritten, window, Memory, Stack, GLYPH_ROWS, MEMORY_SIZE, STACK_DEPTH};
use crate::registers::{
    wrap16, wrap8, Address, AddressRegister, DelayTimer, ProgramCounter, Register, SoundTimer,
    INSTRUCTION_WIDTH, PROGRAM_START,
};
use crate::signals::{BuzzerSignal, DisplayEffect, DisplaySignal, Signals};
use byteorder::{BigEndian, ByteOrder};
use vstd::prelude::*;

verus! {

/// Reads an instruction word from its two bytes in memory order, with
/// `byteorder::BigEndian`'s `ByteOrder::read_u16`. That function is not
/// verified here. The contract claims of it that it reads big-endian, as its
/// name and its documentation say: the first byte is the high byte of the
/// result, the second the low byte. It panics only on fewer than two bytes,
/// which the type of `bytes` rules out.
#[verifier::external_body]
fn read_big_endian(bytes: &[u8; 2]) -> (word: u16)
    ensures
        word == bytes@[0] as int * 0x100 + bytes@[1] as int,
{
    BigEndian::read_u16(bytes)
}

/// The values of a sequence of registers.
pub open spec fn register_values(registers: Seq<Register>) -> Seq<u8> {
    Seq::new(registers.len(), |index: int| registers[index]@)
}

/// An interpreter instance: the whole state of one machine.
pub struct Interpreter {
    memory: Memory,
    program_counter: ProgramCounter,
    display_screen: ConsoleDisplay,
    stack: Stack,
    address_register: AddressRegister,
    registers: [Register; 16],
    delay_timer: DelayTimer,
    sound_timer: SoundTimer,
}

impl View for Interpreter {
    type V = Machine;

    closed spec fn view(&self) -> Machine {
        Machine {
            memory: self.memory@,
            program_counter: self.program_counter@,
            display: self.display_screen@,
            stack: self.stack@,
            address_register: self.address_register@,
            registers: register_values(self.registers@),
            delay_timer: self.delay_timer@,
            sound_timer: self.sound_timer@,
        }
    }
}

impl Interpreter {
    /// A machine with `rom` loaded at the program origin and everything else
    /// at its initial value. A program too large for memory is refused.
    pub fn new(rom: &Vec<u8>) -> (interpreter: Result<Self, Fault>)
        ensures
            rom@.len() <= MEMORY_SIZE - PROGRAM_START ==> (interpreter matches Ok(machine)
                && machine@ == booted(rom@) && machine@.well_formed()),
            rom@.len() > MEMORY_SIZE - PROGRAM_START ==> (interpreter matches Err(fault) && fault
                == Fault::CapacityExceeded),
    {
        let mut memory = Memory::new();
        match memory.load_rom(rom) {
            Err(fault) => Err(fault),
            Ok(()) => {
                let interpreter = Self {
                    memory: memory,
                    program_counter: ProgramCounter::new(),
                    display_screen: ConsoleDisplay::new(),
                    stack: Stack::new(),
                    address_register: AddressRegister::new(),
                    registers: [Register::from(0); 16],
                    delay_timer: DelayTimer::new(),
                    sound_timer: SoundTimer::new(),
                };
                proof {
                    use_type_invariant(&interpreter.stack);
                    interpreter.lemma_shape();
                }
                Ok(interpreter)
            },
        }
    }

    /// The memory of the machine.
    pub fn memory(&self) -> (memory: &Memory)
        ensures
            memory@ == self@.memory,
    {
        &self.memory
    }

    /// The display of the machine.
    pub fn display_screen(&self) -> (display: &ConsoleDisplay)
        ensures
            display@ == self@.display,
    {
        &self.display_screen
    }

    /// The return-address stack of the machine.
    pub fn stack(&self) -> (stack: &Stack)
        ensures
            stack@ == self@.stack,
    {
        &self.stack
    }

    /// The program counter.
    pub fn program_counter(&self) -> (program_counter: ProgramCounter)
        ensures
            program_counter@ == self@.program_counter,
    {
        self.program_counter
    }

    /// The address register `I`.
    pub fn address_register(&self) -> (i: AddressRegister)
        ensures
            i@ == self@.address_register,
    {
        self.address_register
    }

    /// The register with this index.
    pub fn register(&self, index: u8) -> (register: Register)
        requires
            index < REGISTER_COUNT,
        ensures
            register@ == self@.register(index),
    {
        self.registers[index as usize]
    }

    /// The count of the delay timer.
    pub fn delay_timer(&self) -> (value: u8)
        ensures
            value == self@.delay_timer,
    {
        self.delay_timer.get()
    }

    /// The count of the sound timer.
    pub fn sound_timer(&self) -> (value: u8)
        ensures
            value == self@.sound_timer,
    {
        self.sound_timer.get()
    }

    fn set_register(&mut self, index: u8, register: Register)
        requires
            index < REGISTER_COUNT,
        ensures
            final(self)@ == old(self)@.with_register(index, register@),
    {
        self.registers[index as usize] = register;
    }

    /// One tick of the 60 Hz clock: each timer counts down by one unless it
    /// is at zero. Nothing else changes.
    pub fn tick_timers(&mut self)
        ensures
            final(self)@ == clocked(old(self)@),
            final(self)@.well_formed(),
    {
        self.sound_timer.tick();
        self.delay_timer.tick();
        proof {
            use_type_invariant(&self.stack);
            self.lemma_shape();
        }
    }

    /// The state of an interpreter has the shape of a machine, given that
    /// its stack is within its depth, as every stack is.
    proof fn lemma_shape(&self)
        requires
            self.stack.within_depth(),
        ensures
            self@.well_formed(),
    {
        self.memory.lemma_size();
        self.stack.lemma_within_depth();
    }

    /// Executes one instruction: fetches the word at the program counter,
    /// moves the counter past it, decodes the word and executes it. A word
    /// that is no instruction, a return without a call and a seventeenth
    /// nested call end the step on a fault, with nothing but the program
    /// counter changed.
    pub fn run_iteration(&mut self, keyboard: &Keypad, random_value: u8) -> (outcome: Result<
        Signals,
        Fault,
    >)
        ensures
            final(self)@ == stepped(old(self)@, keyboard@, random_value),
            final(self)@.well_formed(),
            step_fault(old(self)@) matches Some(fault) ==> (outcome matches Err(found) && found
                == fault),
            step_fault(old(self)@) is None ==> (outcome matches Ok(signals) && signals@
                == step_effects(old(self)@, keyboard@, random_value)),
    {
        // fetch
        let instruction_code = self.memory.fetch(&self.program_counter);
        // increment
        self.program_counter.increment();
        // decode/execute
        let instruction_code: u16 = read_big_endian(&instruction_code);
        match decode(instruction_code) {
            Err(fault) => {
                proof {
                    use_type_invariant(&self.stack);
                    self.lemma_shape();
                }
                Err(fault)
            },
            Ok(instruction) => {
                proof {
                    lemma_decoded_well_formed(instruction_code);
                }
                self.execute(instruction, keyboard, random_value)
            },
        }
    }

    /// Executes `instruction` on a machine whose program counter is already
    /// past it. A return with no call outstanding and a call with sixteen
    /// outstanding are refused, and leave the machine as it was.
    pub fn execute(&mut self, instruction: Instruction, keyboard: &Keypad, random_value: u8) -> (outcome:
        Result<Signals, Fault>)
        requires
            instruction.well_formed(),
        ensures
            final(self)@.well_formed(),
            refusal(old(self)@, instruction) matches Some(fault) ==> (outcome matches Err(found)
                && found == fault && final(self)@ == old(self)@),
            refusal(old(self)@, instruction) is None ==> (outcome matches Ok(signals) && signals@
                == effects(old(self)@, instruction, keyboard@, random_value) && final(self)@
                == executed(old(self)@, instruction, keyboard@, random_value)),
    {
        let mut display: DisplaySignal = DisplaySignal::Unchanged;
        let mut started: bool = false;
        match instruction {
            Instruction::Sys { .. } => {},
            Instruction::Clear => {
                Interpreter::clear(&mut self.display_screen);
                display = DisplaySignal::Clear;
            },
            Instruction::Return => {
                match Interpreter::return_subroutine(&mut self.program_counter, &mut self.stack) {
                    Err(fault) => {
                        proof {
                            use_type_invariant(&self.stack);
                            self.lemma_shape();
                        }
                        return Err(fault);
                    },
                    Ok(()) => {},
                }
            },
            Instruction::Jump { address } => {
                Interpreter::jump_location_address(
                    &Address::from(address),
                    &mut self.program_counter,
                );
            },
            Instruction::Call { address } => {
                match Interpreter::call_address(
                    &mut self.stack,
                    &mut self.program_counter,
                    &Address::from(address),
                ) {
                    Err(fault) => {
                        proof {
                            use_type_invariant(&self.stack);
                            self.lemma_shape();
                        }
                        return Err(fault);
                    },
                    Ok(()) => {},
                }
            },
            Instruction::SkipIfEqualByte { x, byte } => {
                let register = self.register(x);
                Interpreter::skip_if_equal_byte(&register, byte, &mut self.program_counter);
            },
            Instruction::SkipIfNotEqualByte { x, byte } => {
                let register = self.register(x);
                Interpreter::skip_if_not_equal_byte(&register, byte, &mut self.program_counter);
            },
            Instruction::SkipIfRegisterEqual { x, y } => {
                let register_x = self.register(x);
                let register_y = self.register(y);
                Interpreter::skip_if_register_equal(
                    &register_x,
                    &register_y,
                    &mut self.program_counter,
                );
            },
            Instruction::LoadByte { x, byte } => {
                let mut register = self.register(x);
                Interpreter::load_byte(&mut register, byte);
                self.set_register(x, register);
            },
            Instruction::AddByte { x, byte } => {
                let mut register = self.register(x);
                Interpreter::add(&mut register, byte);
                self.set_register(x, register);
            },
            Instruction::LoadRegister { x, y } => {
                let register_y = self.register(y);
                let mut register_x = self.register(x);
                Interpreter::load_register(&mut register_x, &register_y);
                self.set_register(x, register_x);
            },
            Instruction::Or { x, y } => {
                let register_y = self.register(y);
                let mut register_x = self.register(x);
                Interpreter::bitwise_or_register(&mut register_x, &register_y);
                self.set_register(x, register_x);
            },
            Instruction::And { x, y } => {
                let register_y = self.register(y);
                let mut register_x = self.register(x);
                Interpreter::bitwise_and_register(&mut register_x, &register_y);
                self.set_register(x, register_x);
            },
            Instruction::Xor { x, y } => {
                let register_y = self.register(y);
                let mut register_x = self.register(x);
                Interpreter::bitwise_xor_register(&mut register_x, &register_y);
                self.set_register(x, register_x);
            },
            Instruction::AddCarry { x, y } => {
                let register_y = self.register(y);
                let mut register_x = self.register(x);
                let carry = Interpreter::add_carry(&mut register_x, &register_y);
                self.set_register(x, register_x);
                self.set_register(FLAG_REGISTER, carry);
            },
            Instruction::Subtract { x, y } => {
                let register_y = self.register(y);
                let mut register_x = self.register(x);
                let no_borrow = Interpreter::subtract_register(&mut register_x, &register_y);
                self.set_register(x, register_x);
                self.set_register(FLAG_REGISTER, no_borrow);
            },
            Instruction::ShiftRight { x } => {
                let mut register_x = self.register(x);
                let low = Interpreter::shift_right(&mut register_x);
                self.set_register(x, register_x);
                self.set_register(FLAG_REGISTER, low);
            },
            Instruction::SubtractReversed { x, y } => {
                let register_y = self.register(y);
                let mut register_x = self.register(x);
                let no_borrow = Interpreter::subtract_register_n(&mut register_x, &register_y);
                self.set_register(x, register_x);
                self.set_register(FLAG_REGISTER, no_borrow);
            },
            Instruction::ShiftLeft { x } => {
                let mut register_x = self.register(x);
                let high = Interpreter::shift_left(&mut register_x);
                self.set_register(x, register_x);
                self.set_register(FLAG_REGISTER, high);
            },
            Instruction::SkipIfRegisterNotEqual { x, y } => {
                let register_x = self.register(x);
                let register_y = self.register(y);
                Interpreter::skip_if_register_not_equal(
                    &register_x,
                    &register_y,
                    &mut self.program_counter,
                );
            },
            Instruction::LoadAddress { address } => {
                Interpreter::set_i_address(&mut self.address_register, &Address::from(address));
            },
            Instruction::JumpOffset { address } => {
                let register_0 = self.register(0);
                Interpreter::jump_location_address_register(
                    &register_0,
                    &Address::from(address),
                    &mut self.program_counter,
                );
            },
            Instruction::Random { x, byte } => {
                let mut register = self.register(x);
                Interpreter::random_and(&mut register, byte, random_value);
                self.set_register(x, register);
            },
            Instruction::Draw { x, y, rows } => {
                let register_x = self.register(x);
                let register_y = self.register(y);
                let mut flag_register = self.register(FLAG_REGISTER);
                Interpreter::display(
                    &register_x,
                    &register_y,
                    rows,
                    &mut flag_register,
                    &self.address_register,
                    &self.memory,
                    &mut self.display_screen,
                );
                self.set_register(FLAG_REGISTER, flag_register);
                let update = self.display_screen.covered_pixels(
                    u8::from(register_x),
                    u8::from(register_y),
                    rows as usize,
                );
                display =
                DisplaySignal::Draw { x: u8::from(register_x), y: u8::from(register_y), update };
                assert(display@ matches DisplayEffect::Draw { update: shown, .. } && shown
                    =~= covered(self@.display, register_x@ as int, register_y@ as int, rows as nat));
            },
            Instruction::SkipIfKey { x } => {
                let register = self.register(x);
                Interpreter::skip_if_key(&register, &mut self.program_counter, keyboard);
            },
            Instruction::SkipIfNotKey { x } => {
                let register = self.register(x);
                Interpreter::skip_if_not_key(&register, &mut self.program_counter, keyboard);
            },
            Instruction::LoadDelayTimer { x } => {
                let mut register = self.register(x);
                Interpreter::load_delay_timer(&mut register, &self.delay_timer);
                self.set_register(x, register);
            },
            Instruction::LoadOnKey { x } => {
                let mut register = self.register(x);
                Interpreter::load_on_key(&mut register, keyboard, &mut self.program_counter);
                self.set_register(x, register);
            },
            Instruction::SetDelayTimer { x } => {
                let register = self.register(x);
                Interpreter::set_delay_timer(&mut self.delay_timer, &register);
            },
            Instruction::SetSoundTimer { x } => {
                let register = self.register(x);
                Interpreter::set_sound_timer(&mut self.sound_timer, &register);
                started = true;
            },
            Instruction::AddAddress { x } => {
                let register = self.register(x);
                Interpreter::add_address(&mut self.address_register, &register);
            },
            Instruction::LoadGlyph { x } => {
                let register = self.register(x);
                Interpreter::set_i_sprite(&mut self.address_register, &register);
            },
            Instruction::StoreDecimal { x } => {
                let register = self.register(x);
                Interpreter::load_bcd(&register, &self.address_register, &mut self.memory);
            },
            Instruction::StoreRegisters { x } => {
                let registers = vstd::slice::slice_subrange(
                    self.registers.as_slice(),
                    0,
                    x as usize + 1,
                );
                Interpreter::load_range(registers, &self.address_register, &mut self.memory);
            },
            Instruction::LoadRegisters { x } => {
                Interpreter::load_range_registers(
                    &mut self.registers,
                    x as usize + 1,
                    &self.address_register,
                    &self.memory,
                );
            },
        }
        let buzzer: BuzzerSignal = if self.sound_timer.get() == 0 {
            BuzzerSignal::Pause
        } else if started {
            BuzzerSignal::Play
        } else {
            BuzzerSignal::Unchanged
        };
        proof {
            use_type_invariant(&self.stack);
            self.lemma_shape();
        }
        Ok(Signals { display, buzzer })
    }

    /// `00E0`: turns every pixel of the display off.
    pub fn clear(display: &mut ConsoleDisplay)
        ensures
            final(display)@ == blank(),
    {
        display.clear();
    }

    /// `00EE`: continues after the most recent call. With no call
    /// outstanding there is nowhere to return to: a stack fault.
    pub fn return_subroutine(program_counter: &mut ProgramCounter, stack: &mut Stack) -> (returned:
        Result<(), Fault>)
        ensures
            old(stack)@.len() > 0 ==> returned == Ok::<(), Fault>(()) && final(program_counter)@
                == old(stack)@.last() && final(stack)@ == old(stack)@.drop_last(),
            old(stack)@.len() == 0 ==> returned == Err::<(), Fault>(Fault::StackUnderflow)
                && final(program_counter)@ == old(program_counter)@ && final(stack)@ == old(stack)@,
    {
        match stack.pop() {
            Some(address) => {
                program_counter.set(address);
                Ok(())
            },
            None => Err(Fault::StackUnderflow),
        }
    }

    /// `1nnn`: continues at `address`.
    pub fn jump_location_address(address: &Address, program_counter: &mut ProgramCounter)
        ensures
            final(program_counter)@ == address@,
    {
        program_counter.set(*address);
    }

    /// `2nnn`: remembers where to return to and continues at `address`. With
    /// sixteen calls outstanding there is no room for another: a stack fault.
    pub fn call_address(
        stack: &mut Stack,
        program_counter: &mut ProgramCounter,
        address: &Address,
    ) -> (called: Result<(), Fault>)
        ensures
            old(stack)@.len() < STACK_DEPTH ==> called == Ok::<(), Fault>(()) && final(stack)@
                == old(stack)@.push(old(program_counter)@) && final(program_counter)@ == address@,
            old(stack)@.len() >= STACK_DEPTH ==> called == Err::<(), Fault>(Fault::StackOverflow)
                && final(stack)@ == old(stack)@ && final(program_counter)@ == old(program_counter)@,
    {
        let program_counter_address: Address = program_counter.value;
        match stack.push(&program_counter_address) {
            Ok(()) => {
                program_counter.set(*address);
                Ok(())
            },
            Err(fault) => Err(fault),
        }
    }

    /// `3xkk`: skips the next instruction if `vx` equals `byte`.
    pub fn skip_if_equal_byte(vx: &Register, byte: u8, program_counter: &mut ProgramCounter)
        ensures
            final(program_counter)@ == if vx@ == byte {
                wrap16(old(program_counter)@ + INSTRUCTION_WIDTH)
            } else {
                old(program_counter)@ as int
            },
    {
        if *vx == byte {
            program_counter.increment();
        }
    }

    /// `4xkk`: skips the next instruction if `vx` differs from `byte`.
    pub fn skip_if_not_equal_byte(vx: &Register, byte: u8, program_counter: &mut ProgramCounter)
        ensures
            final(program_counter)@ == if vx@ != byte {
                wrap16(old(program_counter)@ + INSTRUCTION_WIDTH)
            } else {
                old(program_counter)@ as int
            },
    {
        if *vx != byte {
            program_counter.increment();
        }
    }

    /// `5xy0`: skips the next instruction if `vx` equals `vy`.
    pub fn skip_if_register_equal(
        vx: &Register,
        vy: &Register,
        program_counter: &mut ProgramCounter,
    )
        ensures
            final(program_counter)@ == if vx@ == vy@ {
                wrap16(old(program_counter)@ + INSTRUCTION_WIDTH)
            } else {
                old(program_counter)@ as int
            },
    {
        if *vx == *vy {
            program_counter.increment();
        }
    }

    /// `6xkk`: sets `vx` to `byte`.
    pub fn load_byte(vx: &mut Register, byte: u8)
        ensures
            final(vx)@ == byte,
    {
        vx.set(byte);
    }

    /// `7xkk`: adds `byte` to `vx`, wrapping at eight bits.
    pub fn add(vx: &mut Register, byte: u8)
        ensures
            final(vx)@ == wrap8(old(vx)@ + byte),
    {
        std::ops::AddAssign::add_assign(vx, byte);
    }

    /// `8xy0`: sets `vx` to `vy`.
    pub fn load_register(vx: &mut Register, vy: &Register)
        ensures
            final(vx)@ == vy@,
    {
        *vx = *vy;
    }

    /// `8xy1`: sets `vx` to the bitwise or of `vx` and `vy`.
    pub fn bitwise_or_register(vx: &mut Register, vy: &Register)
        ensures
            final(vx)@ == old(vx)@ | vy@,
    {
        std::ops::BitOrAssign::bitor_assign(vx, *vy);
    }

    /// `8xy2`: sets `vx` to the bitwise and of `vx` and `vy`.
    pub fn bitwise_and_register(vx: &mut Register, vy: &Register)
        ensures
            final(vx)@ == old(vx)@ & vy@,
    {
        std::ops::BitAndAssign::bitand_assign(vx, *vy);
    }

    /// `8xy3`: sets `vx` to the bitwise exclusive or of `vx` and `vy`.
    pub fn bitwise_xor_register(vx: &mut Register, vy: &Register)
        ensures
            final(vx)@ == old(vx)@ ^ vy@,
    {
        std::ops::BitXorAssign::bitxor_assign(vx, *vy);
    }

    /// `8xy4`: adds `vy` to `vx`, wrapping at eight bits, and returns the
    /// carry: one exactly when the sum exceeds 255.
    pub fn add_carry(vx: &mut Register, vy: &Register) -> (carry: Register)
        ensures
            final(vx)@ == wrap8(old(vx)@ + vy@),
            carry@ == flag(old(vx)@ + vy@ > 255),
    {
        let temp: u16 = u16::from(*vx) + u16::from(*vy);
        let result = if temp > u8::MAX as u16 {
            Register::from(1)
        } else {
            Register::from(0)
        };
        assert(temp & 0xFF == temp % 0x100) by (bit_vector);
        *vx = Register::from((temp & (u8::MAX as u16)) as u8);
        result
    }

    /// `8xy5`: subtracts `vy` from `vx`, wrapping at eight bits, and returns
    /// the flag: one exactly when `vx` was at least `vy`, so that nothing was
    /// borrowed.
    pub fn subtract_register(vx: &mut Register, vy: &Register) -> (no_borrow: Register)
        ensures
            final(vx)@ == wrap8(old(vx)@ - vy@),
            no_borrow@ == flag(old(vx)@ >= vy@),
    {
        let result = if *vx >= *vy {
            Register::from(1)
        } else {
            Register::from(0)
        };
        std::ops::SubAssign::sub_assign(vx, *vy);
        result
    }

    /// `8xy6`: shifts `vx` right by one bit and returns the bit shifted out,
    /// the lowest.
    pub fn shift_right(vx: &mut Register) -> (low: Register)
        ensures
            final(vx)@ == old(vx)@ / 2,
            low@ == old(vx)@ % 2,
    {
        let value: u8 = u8::from(*vx);
        assert(value & 1 == value % 2) by (bit_vector);
        let result = if (*vx & 0b00000001) == 1 {
            Register::from(1)
        } else {
            Register::from(0)
        };
        std::ops::ShrAssign::shr_assign(vx, 1);
        result
    }

    /// `8xy7`: sets `vx` to `vy` minus `vx`, wrapping at eight bits, and
    /// returns the flag: one exactly when `vy` was at least `vx`, so that
    /// nothing was borrowed.
    pub fn subtract_register_n(vx: &mut Register, vy: &Register) -> (no_borrow: Register)
        ensures
            final(vx)@ == wrap8(vy@ - old(vx)@),
            no_borrow@ == flag(vy@ >= old(vx)@),
    {
        let result = if *vy >= *vx {
            Register::from(1)
        } else {
            Register::from(0)
        };
        vx.set((*vy - *vx).into());
        result
    }

    /// `8xyE`: shifts `vx` left by one bit within eight bits and returns the
    /// bit shifted out, the highest.
    pub fn shift_left(vx: &mut Register) -> (high: Register)
        ensures
            final(vx)@ == wrap8(old(vx)@ * 2),
            high@ == old(vx)@ / 128,
    {
        let value: u8 = u8::from(*vx);
        assert((value & 0x80 == 0x80) == (value / 128 == 1) && value / 128 <= 1) by (bit_vector);
        let result = if (*vx & 0b10000000) == 0b10000000 {
            Register::from(1)
        } else {
            Register::from(0)
        };
        std::ops::ShlAssign::shl_assign(vx, 1);
        result
    }

    /// `9xy0`: skips the next instruction if `vx` differs from `vy`.
    pub fn skip_if_register_not_equal(
        vx: &Register,
        vy: &Register,
        program_counter: &mut ProgramCounter,
    )
        ensures
            final(program_counter)@ == if vx@ != vy@ {
                wrap16(old(program_counter)@ + INSTRUCTION_WIDTH)
            } else {
                old(program_counter)@ as int
            },
    {
        if *vx != *vy {
            program_counter.increment();
        }
    }

    /// `Annn`: points `i` at `address`.
    pub fn set_i_address(i: &mut AddressRegister, address: &Address)
        ensures
            final(i)@ == address@,
    {
        i.set(*address);
    }

    /// `Bnnn`: continues at `address` plus `v0`, wrapping at sixteen bits.
    pub fn jump_location_address_register(
        v0: &Register,
        address: &Address,
        program_counter: &mut ProgramCounter,
    )
        ensures
            final(program_counter)@ == wrap16(address@ + v0@),
    {
        *program_counter = ProgramCounter { value: *address + *v0 };
    }

    /// `Cxkk`: sets `vx` to the random byte masked with `byte`.
    pub fn random_and(vx: &mut Register, byte: u8, random_value: u8)
        ensures
            final(vx)@ == random_value & byte,
    {
        assert(byte & random_value == random_value & byte) by (bit_vector);
        *vx = Register::from(byte & random_value);
    }

    /// `Dxyn`: draws the sprite of `number_of_bytes` rows that `address`
    /// points at, at column `vx` and row `vy`, and sets `vf` to the
    /// collision flag.
    pub fn display(
        vx: &Register,
        vy: &Register,
        number_of_bytes: u8,
        vf: &mut Register,
        address: &AddressRegister,
        memory: &Memory,
        display: &mut ConsoleDisplay,
    )
        ensures
            final(display)@ == sprite_drawn(
                old(display)@,
                vx@ as int,
                vy@ as int,
                window(memory@, address@ as int, number_of_bytes as nat),
            ),
            final(vf)@ == flag(
                sprite_collides(
                    old(display)@,
                    vx@ as int,
                    vy@ as int,
                    window(memory@, address@ as int, number_of_bytes as nat),
                ),
            ),
    {
        let bytes = memory.load(address, number_of_bytes as u16);
        let sprite = Sprite::from(bytes.as_slice());
        vf.set(display.draw(u8::from(*vx), u8::from(*vy), &sprite));
    }

    /// `Ex9E`: skips the next instruction if the key with the code in `vx`
    /// is held down.
    pub fn skip_if_key(vx: &Register, program_counter: &mut ProgramCounter, keyboard: &Keypad)
        ensures
            final(program_counter)@ == if key_down(keyboard@, vx@ as int) {
                wrap16(old(program_counter)@ + INSTRUCTION_WIDTH)
            } else {
                old(program_counter)@ as int
            },
    {
        if keyboard.is_key_down(u8::from(*vx)) {
            program_counter.increment();
        }
    }

    /// `ExA1`: skips the next instruction if the key with the code in `vx`
    /// is not held down.
    pub fn skip_if_not_key(vx: &Register, program_counter: &mut ProgramCounter, keyboard: &Keypad)
        ensures
            final(program_counter)@ == if !key_down(keyboard@, vx@ as int) {
                wrap16(old(program_counter)@ + INSTRUCTION_WIDTH)
            } else {
                old(program_counter)@ as int
            },
    {
        if !keyboard.is_key_down(u8::from(*vx)) {
            program_counter.increment();
        }
    }

    /// `Fx07`: sets `vx` to the count of the delay timer.
    pub fn load_delay_timer(vx: &mut Register, delay_timer: &DelayTimer)
        ensures
            final(vx)@ == delay_timer@,
    {
        *vx = Register::from(delay_timer.get());
    }

    /// `Fx0A`: sets `vx` to the code of the key that is held down. With no
    /// key down the program counter steps back, so that the instruction is
    /// executed again on the next step.
    pub fn load_on_key(vx: &mut Register, keyboard: &Keypad, program_counter: &mut ProgramCounter)
        ensures
            first_pressed(keyboard@) matches Some(key) ==> final(vx)@ == key && final(program_counter)@ == old(program_counter)@,
            first_pressed(keyboard@) is None ==> final(vx)@ == old(vx)@ && final(program_counter)@
                == wrap16(old(program_counter)@ - INSTRUCTION_WIDTH),
    {
        match keyboard.get_pressed_key() {
            Some(k) => *vx = Register::from(k),
            _ => program_counter.decrement(),
        }
    }

    /// `Fx15`: starts the delay timer at `vx`.
    pub fn set_delay_timer(delay_timer: &mut DelayTimer, vx: &Register)
        ensures
            final(delay_timer)@ == vx@,
    {
        delay_timer.set(u8::from(*vx));
    }

    /// `Fx18`: starts the sound timer at `vx`.
    pub fn set_sound_timer(sound_timer: &mut SoundTimer, vx: &Register)
        ensures
            final(sound_timer)@ == vx@,
    {
        sound_timer.set(u8::from(*vx));
    }

    /// `Fx1E`: advances `i` by `vx`, wrapping at sixteen bits.
    pub fn add_address(i: &mut AddressRegister, vx: &Register)
        ensures
            final(i)@ == wrap16(old(i)@ + vx@),
    {
        std::ops::AddAssign::add_assign(i, *vx);
    }

    /// `Fx29`: points `i` at the glyph of the font for the digit `vx`: five
    /// bytes for each digit before it.
    pub fn set_i_sprite(i: &mut AddressRegister, vx: &Register)
        ensures
            final(i)@ == GLYPH_ROWS * vx@,
    {
        i.set(Address::from(0x000 + (GLYPH_ROWS * u16::from(*vx))));
    }

    /// `Fx33`: writes the hundreds, tens and ones of `vx` to the three bytes
    /// that `i` points at.
    pub fn load_bcd(vx: &Register, i: &AddressRegister, memory: &mut Memory)
        ensures
            final(memory)@ == overwritten(old(memory)@, i@ as int, decimal_digits(vx@)),
    {
        let digits: [u8; 3] = [
            (u8::from(*vx) / 100) % 10,
            (u8::from(*vx) / 10) % 10,
            u8::from(*vx) % 10,
        ];
        memory.store(i, &digits);
    }

    /// `Fx55`: writes the values of `registers` to memory from where `i`
    /// points on.
    pub fn load_range(registers: &[Register], i: &AddressRegister, memory: &mut Memory)
        requires
            registers@.len() <= MEMORY_SIZE,
        ensures
            final(memory)@ == overwritten(old(memory)@, i@ as int, register_values(registers@)),
    {
        let mut bytes: Vec<u8> = Vec::new();
        let mut index: usize = 0;
        while index < registers.len()
            invariant
                index <= registers@.len(),
                bytes@ == register_values(registers@.take(index as int)),
            decreases registers@.len() - index,
        {
            bytes.push(u8::from(registers[index]));
            index = index + 1;
        }
        memory.store(i, bytes.as_slice());
    }

    /// `Fx65`: reads the first `count` of `registers` from memory, from where
    /// `i` points on. The registers after them keep their values.
    pub fn load_range_registers(
        registers: &mut [Register],
        count: usize,
        i: &AddressRegister,
        memory: &Memory,
    )
        requires
            count <= old(registers)@.len(),
            count <= MEMORY_SIZE,
        ensures
            final(registers)@.len() == old(registers)@.len(),
            forall|index: int|
                0 <= index < count ==> (#[trigger] final(registers)@[index])@ == memory@[cell(
                    i@ + index,
                )],
            forall|index: int|
                count <= index < old(registers)@.len() ==> #[trigger] final(registers)@[index]
                    == old(registers)@[index],
    {
        let bytes = memory.load(i, count as u16);
        let mut index: usize = 0;
        while index < count
            invariant
                index <= count <= registers@.len(),
                count <= MEMORY_SIZE,
                registers@.len() == old(registers)@.len(),
                bytes@ == window(memory@, i@ as int, count as nat),
                forall|k: int|
                    0 <= k < index ==> (#[trigger] registers@[k])@ == memory@[cell(i@ + k)],
                forall|k: int|
                    index <= k < registers@.len() ==> #[trigger] registers@[k] == old(registers)@[k],
            decreases count - index,
        {
            registers[index] = Register::from(bytes[index]);
            index = index + 1;
        }
    }
}

} // verus!
