//! The machine as a mathematical object, and what each instruction does to
//! it.
//!
//! Everything here is specification: the interpreter is proved to do to its
//! state exactly what these functions say.
use crate::fault::Fault;
use crate::graphics::{
    blank, covered, flag, lemma_sprite_drawn_len, sprite_collides, sprite_drawn,
};
use crate::instruction::{decoded, Instruction, FLAG_REGISTER, REGISTER_COUNT};
use crate::keyboard::{first_pressed, key_down};
use crate::memory::{cell, overwritten, pristine, window, GLYPH_ROWS, STACK_DEPTH};
use crate::registers::{ticked, wrap16, wrap8, INSTRUCTION_WIDTH, PROGRAM_START};
use crate::signals::{BuzzerSignal, DisplayEffect, Effects};
use vstd::prelude::*;

verus! {

/// The state of the machine as plain values.
#[verifier::ext_equal]
pub struct Machine {
    /// The 4096 bytes of memory.
    pub memory: Seq<u8>,
    /// The address of the next instruction.
    pub program_counter: u16,
    /// The 2048 pixels of the display, row by row.
    pub display: Seq<bool>,
    /// The return addresses outstanding, oldest first.
    pub stack: Seq<u16>,
    /// The address register `I`.
    pub address_register: u16,
    /// The sixteen registers `V0` to `VF`.
    pub registers: Seq<u8>,
    /// The delay timer.
    pub delay_timer: u8,
    /// The sound timer.
    pub sound_timer: u8,
}

impl Machine {
    /// Whether the state has the shape of a machine: 4096 bytes of memory,
    /// 2048 pixels, sixteen registers and at most sixteen return addresses.
    pub open spec fn well_formed(self) -> bool {
        &&& self.memory.len() == 4096
        &&& self.display.len() == 2048
        &&& self.registers.len() == REGISTER_COUNT
        &&& self.stack.len() <= STACK_DEPTH
    }

    /// The value of register `index`.
    pub open spec fn register(self, index: u8) -> u8 {
        self.registers[index as int]
    }

    /// The machine with register `index` set to `value`.
    pub open spec fn with_register(self, index: u8, value: u8) -> Machine {
        Machine { registers: self.registers.update(index as int, value), ..self }
    }

    /// The machine with register `index` set to `value` and then the flag
    /// register set to `flag`: where `index` is the flag register itself, the
    /// flag is what remains.
    pub open spec fn with_result(self, index: u8, value: u8, flag: u8) -> Machine {
        self.with_register(index, value).with_register(FLAG_REGISTER, flag)
    }

    /// The machine with the program counter at `address`.
    pub open spec fn at(self, address: u16) -> Machine {
        Machine { program_counter: address, ..self }
    }

    /// The machine with the program counter one instruction further on.
    pub open spec fn advanced(self) -> Machine {
        self.at(wrap16(self.program_counter + INSTRUCTION_WIDTH) as u16)
    }

    /// The machine with the program counter one instruction back.
    pub open spec fn rewound(self) -> Machine {
        self.at(wrap16(self.program_counter - INSTRUCTION_WIDTH) as u16)
    }

    /// The machine with the next instruction skipped if `condition` holds.
    pub open spec fn skipping(self, condition: bool) -> Machine {
        if condition {
            self.advanced()
        } else {
            self
        }
    }

    /// The machine with `bytes` written to memory from `I` on.
    pub open spec fn storing(self, bytes: Seq<u8>) -> Machine {
        Machine { memory: overwritten(self.memory, self.address_register as int, bytes), ..self }
    }

    /// The instruction word at the program counter: the byte there is its
    /// high byte, the byte after it its low byte.
    pub open spec fn opcode(self) -> u16 {
        (self.memory[cell(self.program_counter as int)] as int * 0x100 + self.memory[cell(
            self.program_counter + 1,
        )] as int) as u16
    }
}

/// The machine as it is when a program has just been loaded: the font and
/// the program in memory, the program counter at the program origin, and
/// everything else zero or empty.
pub open spec fn booted(rom: Seq<u8>) -> Machine {
    Machine {
        memory: overwritten(pristine(), PROGRAM_START as int, rom),
        program_counter: PROGRAM_START,
        display: blank(),
        stack: Seq::empty(),
        address_register: 0,
        registers: Seq::new(REGISTER_COUNT as nat, |index: int| 0u8),
        delay_timer: 0,
        sound_timer: 0,
    }
}

/// The hundreds, tens and ones of `value`.
pub open spec fn decimal_digits(value: u8) -> Seq<u8> {
    seq![value / 100, (value / 10) % 10, value % 10]
}

/// The fault, if any, that stops `instruction` from being executed.
pub open spec fn refusal(machine: Machine, instruction: Instruction) -> Option<Fault> {
    match instruction {
        Instruction::Return => if machine.stack.len() == 0 {
            Some(Fault::StackUnderflow)
        } else {
            None
        },
        Instruction::Call { .. } => if machine.stack.len() >= STACK_DEPTH {
            Some(Fault::StackOverflow)
        } else {
            None
        },
        _ => None,
    }
}

/// The machine after `instruction` has been executed. `machine` is the state
/// in which the program counter has already moved past the instruction.
pub open spec fn executed(
    machine: Machine,
    instruction: Instruction,
    keys: Seq<bool>,
    random: u8,
) -> Machine {
    match instruction {
        Instruction::Sys { .. } => machine,
        Instruction::Clear => Machine { display: blank(), ..machine },
        Instruction::Return => Machine {
            program_counter: machine.stack.last(),
            stack: machine.stack.drop_last(),
            ..machine
        },
        Instruction::Jump { address } => machine.at(address),
        Instruction::Call { address } => Machine {
            program_counter: address,
            stack: machine.stack.push(machine.program_counter),
            ..machine
        },
        Instruction::SkipIfEqualByte { x, byte } => machine.skipping(machine.register(x) == byte),
        Instruction::SkipIfNotEqualByte { x, byte } => machine.skipping(
            machine.register(x) != byte,
        ),
        Instruction::SkipIfRegisterEqual { x, y } => machine.skipping(
            machine.register(x) == machine.register(y),
        ),
        Instruction::LoadByte { x, byte } => machine.with_register(x, byte),
        Instruction::AddByte { x, byte } => machine.with_register(
            x,
            wrap8(machine.register(x) + byte) as u8,
        ),
        Instruction::LoadRegister { x, y } => machine.with_register(x, machine.register(y)),
        Instruction::Or { x, y } => machine.with_register(
            x,
            machine.register(x) | machine.register(y),
        ),
        Instruction::And { x, y } => machine.with_register(
            x,
            machine.register(x) & machine.register(y),
        ),
        Instruction::Xor { x, y } => machine.with_register(
            x,
            machine.register(x) ^ machine.register(y),
        ),
        Instruction::AddCarry { x, y } => machine.with_result(
            x,
            wrap8(machine.register(x) + machine.register(y)) as u8,
            flag(machine.register(x) + machine.register(y) > 255),
        ),
        Instruction::Subtract { x, y } => machine.with_result(
            x,
            wrap8(machine.register(x) - machine.register(y)) as u8,
            flag(machine.register(x) >= machine.register(y)),
        ),
        Instruction::ShiftRight { x } => machine.with_result(
            x,
            machine.register(x) / 2,
            machine.register(x) % 2,
        ),
        Instruction::SubtractReversed { x, y } => machine.with_result(
            x,
            wrap8(machine.register(y) - machine.register(x)) as u8,
            flag(machine.register(y) >= machine.register(x)),
        ),
        Instruction::ShiftLeft { x } => machine.with_result(
            x,
            wrap8(machine.register(x) * 2) as u8,
            machine.register(x) / 128,
        ),
        Instruction::SkipIfRegisterNotEqual { x, y } => machine.skipping(
            machine.register(x) != machine.register(y),
        ),
        Instruction::LoadAddress { address } => Machine { address_register: address, ..machine },
        Instruction::JumpOffset { address } => machine.at(
            wrap16(address + machine.register(0)) as u16,
        ),
        Instruction::Random { x, byte } => machine.with_register(x, random & byte),
        Instruction::Draw { x, y, rows } => Machine {
            display: sprite_drawn(
                machine.display,
                machine.register(x) as int,
                machine.register(y) as int,
                window(machine.memory, machine.address_register as int, rows as nat),
            ),
            ..machine
        }.with_register(
            FLAG_REGISTER,
            flag(
                sprite_collides(
                    machine.display,
                    machine.register(x) as int,
                    machine.register(y) as int,
                    window(machine.memory, machine.address_register as int, rows as nat),
                ),
            ),
        ),
        Instruction::SkipIfKey { x } => machine.skipping(
            key_down(keys, machine.register(x) as int),
        ),
        Instruction::SkipIfNotKey { x } => machine.skipping(
            !key_down(keys, machine.register(x) as int),
        ),
        Instruction::LoadDelayTimer { x } => machine.with_register(x, machine.delay_timer),
        Instruction::LoadOnKey { x } => match first_pressed(keys) {
            Some(key) => machine.with_register(x, key),
            None => machine.rewound(),
        },
        Instruction::SetDelayTimer { x } => Machine {
            delay_timer: machine.register(x),
            ..machine
        },
        Instruction::SetSoundTimer { x } => Machine {
            sound_timer: machine.register(x),
            ..machine
        },
        Instruction::AddAddress { x } => Machine {
            address_register: wrap16(machine.address_register + machine.register(x)) as u16,
            ..machine
        },
        Instruction::LoadGlyph { x } => Machine {
            address_register: (GLYPH_ROWS * machine.register(x)) as u16,
            ..machine
        },
        Instruction::StoreDecimal { x } => machine.storing(decimal_digits(machine.register(x))),
        Instruction::StoreRegisters { x } => machine.storing(
            machine.registers.subrange(0, x + 1),
        ),
        Instruction::LoadRegisters { x } => Machine {
            registers: Seq::new(
                machine.registers.len(),
                |index: int|
                    if index <= x {
                        machine.memory[cell(machine.address_register + index)]
                    } else {
                        machine.registers[index]
                    },
            ),
            ..machine
        },
    }
}

/// What executing `instruction` tells the surface that presents the display.
pub open spec fn display_effect(
    machine: Machine,
    instruction: Instruction,
    keys: Seq<bool>,
    random: u8,
) -> DisplayEffect {
    match instruction {
        Instruction::Clear => DisplayEffect::Clear,
        Instruction::Draw { x, y, rows } => DisplayEffect::Draw {
            x: machine.register(x),
            y: machine.register(y),
            update: covered(
                executed(machine, instruction, keys, random).display,
                machine.register(x) as int,
                machine.register(y) as int,
                rows as nat,
            ),
        },
        _ => DisplayEffect::Unchanged,
    }
}

/// What executing `instruction` tells the tone generator: to stop whenever
/// the sound timer reads zero afterwards, and to start when the instruction
/// has set it to something else.
pub open spec fn buzzer_effect(
    machine: Machine,
    instruction: Instruction,
    keys: Seq<bool>,
    random: u8,
) -> BuzzerSignal {
    if executed(machine, instruction, keys, random).sound_timer == 0 {
        BuzzerSignal::Pause
    } else if instruction is SetSoundTimer {
        BuzzerSignal::Play
    } else {
        BuzzerSignal::Unchanged
    }
}

/// What executing `instruction` tells the outside world.
pub open spec fn effects(
    machine: Machine,
    instruction: Instruction,
    keys: Seq<bool>,
    random: u8,
) -> Effects {
    Effects {
        display: display_effect(machine, instruction, keys, random),
        buzzer: buzzer_effect(machine, instruction, keys, random),
    }
}

/// What a step from `machine` tells the outside world, where the step does
/// not end on a fault.
pub open spec fn step_effects(machine: Machine, keys: Seq<bool>, random: u8) -> Effects {
    effects(machine.advanced(), decoded(machine.opcode()).unwrap(), keys, random)
}

/// The fault, if any, on which a step from `machine` ends.
pub open spec fn step_fault(machine: Machine) -> Option<Fault> {
    match decoded(machine.opcode()) {
        None => Some(Fault::Decode { opcode: machine.opcode() }),
        Some(instruction) => refusal(machine.advanced(), instruction),
    }
}

/// The machine after one step from `machine`: the instruction at the
/// program counter executed with the counter already past it or, where the
/// step ends on a fault, nothing but the counter moved.
pub open spec fn stepped(machine: Machine, keys: Seq<bool>, random: u8) -> Machine {
    match decoded(machine.opcode()) {
        Some(instruction) if step_fault(machine) is None => executed(
            machine.advanced(),
            instruction,
            keys,
            random,
        ),
        _ => machine.advanced(),
    }
}

/// The machine after one tick of the 60 Hz clock.
pub open spec fn clocked(machine: Machine) -> Machine {
    Machine {
        delay_timer: ticked(machine.delay_timer),
        sound_timer: ticked(machine.sound_timer),
        ..machine
    }
}

/// A machine that has just been loaded has the shape of a machine, whatever
/// the program.
pub proof fn lemma_booted_well_formed(rom: Seq<u8>)
    ensures
        booted(rom).well_formed(),
{
}

/// A step keeps the shape of the machine: whatever the instruction, the keys
/// and the random byte, and whether or not the step ends on a fault, memory
/// keeps its 4096 bytes, the display its 2048 pixels, the register file its
/// sixteen registers, and the stack stays within its sixteen frames.
pub proof fn lemma_step_keeps_shape(machine: Machine, keys: Seq<bool>, random: u8)
    requires
        machine.well_formed(),
    ensures
        stepped(machine, keys, random).well_formed(),
{
    match decoded(machine.opcode()) {
        Some(Instruction::Draw { x, y, rows }) => {
            let before = machine.advanced();
            lemma_sprite_drawn_len(
                before.display,
                before.register(x) as int,
                before.register(y) as int,
                window(before.memory, before.address_register as int, rows as nat),
            );
        },
        _ => {},
    }
}

/// A tick of the clock keeps the shape of the machine.
pub proof fn lemma_clock_keeps_shape(machine: Machine)
    requires
        machine.well_formed(),
    ensures
        clocked(machine).well_formed(),
{
}

/// Waiting for a key is a busy wait: while no key is down, a step at a
/// wait instruction leaves the machine exactly as it was, so that the next
/// step executes the same instruction again.
pub proof fn lemma_waiting_for_a_key_repeats(machine: Machine, keys: Seq<bool>, random: u8)
    requires
        decoded(machine.opcode()) matches Some(Instruction::LoadOnKey { .. }),
        first_pressed(keys) is None,
    ensures
        stepped(machine, keys, random) == machine,
        step_fault(machine) is None,
{
}

/// A call followed by a return continues at the instruction after the call,
/// with the stack as it was before the call.
pub proof fn lemma_call_then_return(
    machine: Machine,
    address: u16,
    keys: Seq<bool>,
    random: u8,
)
    requires
        machine.stack.len() < STACK_DEPTH,
    ensures
        refusal(machine, Instruction::Call { address }) is None,
        refusal(
            executed(machine, Instruction::Call { address }, keys, random),
            Instruction::Return,
        ) is None,
        executed(
            executed(machine, Instruction::Call { address }, keys, random),
            Instruction::Return,
            keys,
            random,
        ) == machine,
{
}

/// The return-address stack refuses exactly what does not fit: a return is
/// refused on an empty stack and on no other, a call on a stack of sixteen
/// addresses and on no other, and both refusals are stack faults.
pub proof fn lemma_stack_faults(machine: Machine, address: u16)
    requires
        machine.well_formed(),
    ensures
        refusal(machine, Instruction::Return) == if machine.stack.len() == 0 {
            Some(Fault::StackUnderflow)
        } else {
            None
        },
        refusal(machine, Instruction::Call { address }) == if machine.stack.len() == STACK_DEPTH {
            Some(Fault::StackOverflow)
        } else {
            None
        },
        Fault::StackUnderflow.is_stack_fault(),
        Fault::StackOverflow.is_stack_fault(),
{
}

/// The decimal digits of a byte are digits, and they are those of the byte:
/// a hundred times the first, ten times the second and the third make it up.
pub proof fn lemma_decimal_digits(value: u8)
    ensures
        decimal_digits(value).len() == 3,
        forall|place: int| 0 <= place < 3 ==> 0 <= #[trigger] decimal_digits(value)[place] <= 9,
        100 * decimal_digits(value)[0] + 10 * decimal_digits(value)[1] + decimal_digits(value)[2]
            == value,
{
}

/// The machine after one call to each of `addresses` in turn, with no return
/// in between.
pub open spec fn nested_calls(machine: Machine, addresses: Seq<u16>) -> Machine
    decreases addresses.len(),
{
    if addresses.len() == 0 {
        machine
    } else {
        executed(
            nested_calls(machine, addresses.drop_last()),
            Instruction::Call { address: addresses.last() },
            Seq::empty(),
            0,
        )
    }
}

/// Calls nest sixteen deep and no deeper: as long as the stack has room for
/// every call of a run of calls, each call adds one return address, and the
/// call after the run is refused exactly when the run has filled the stack.
/// From an empty stack that is the seventeenth call.
pub proof fn lemma_nested_calls(machine: Machine, addresses: Seq<u16>, next: u16)
    requires
        machine.stack.len() + addresses.len() <= STACK_DEPTH,
    ensures
        nested_calls(machine, addresses).stack.len() == machine.stack.len() + addresses.len(),
        refusal(nested_calls(machine, addresses), Instruction::Call { address: next }) == if
            machine.stack.len() + addresses.len() == STACK_DEPTH {
            Some(Fault::StackOverflow)
        } else {
            None
        },
    decreases addresses.len(),
{
    if addresses.len() > 0 {
        lemma_nested_calls(machine, addresses.drop_last(), addresses.last());
    }
}

} // verus!
