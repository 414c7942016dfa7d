//! Running a program one instruction at a time: fetch at the instruction
//! pointer, decode, advance, execute, and hand the prefix state on.

use vstd::prelude::*;

use crate::decoder::{decode_instruction, decoded, DisasmContext, Instruction};
use crate::execution_unit::{execute_instruction, executed};
use crate::instruction_formats::OperationType;
use crate::memory::{Memory, SegmentedAccess};
use crate::register::{wrapped_sum, RegisterFile, RegisterIndex};

verus! {

/// How one step of a run ended.
#[derive(Debug, Clone, Copy)]
pub enum Step {
    /// The bytes at the instruction pointer encode no instruction. Nothing
    /// was executed, and the run cannot go on.
    Unrecognized,
    /// The instruction at the instruction pointer ends at or beyond the end
    /// of the program. The instruction pointer is past it, and it was not
    /// executed.
    Finished,
    /// The instruction was executed.
    Executed(Instruction),
}

/// The state of a run: where in memory it is, what the prefixes seen hand to
/// the next instruction, the registers, and the address the program starts at.
pub struct Simulator {
    pub at: SegmentedAccess,
    pub context: DisasmContext,
    pub registers: RegisterFile,
    pub starting_address: u32,
}

/// The low sixteen bits of an address.
pub open spec fn offset_of(address: u32) -> u16 {
    (address % 0x1_0000) as u16
}

impl Simulator {
    /// The state before the first instruction of a program at `start`: no
    /// prefix pending, and every register zero but the instruction pointer,
    /// which holds the low sixteen bits of the address of `start`.
    pub open spec fn initial(start: SegmentedAccess) -> Simulator {
        Simulator {
            at: start,
            context: DisasmContext::initial(),
            registers: RegisterFile::zeroed().with_word(
                RegisterIndex::Ip,
                offset_of(start.address(0) as u32),
            ),
            starting_address: start.address(0) as u32,
        }
    }

    /// Where the next instruction is fetched: in the segment of the run, at
    /// the instruction pointer.
    pub open spec fn fetch_position(self) -> SegmentedAccess {
        SegmentedAccess { segment_base: self.at.segment_base, segment_offset: self.registers.ip }
    }

    /// The next instruction.
    pub open spec fn next_instruction(self, memory: Seq<u8>) -> Instruction {
        decoded(self.context, memory, self.fetch_position())
    }

    /// The distance from the start of the program to the end of the next
    /// instruction, as a 32-bit number: an end below the start counts as far
    /// beyond it.
    pub open spec fn distance_after(self, memory: Seq<u8>) -> int {
        (self.fetch_position().advanced(self.next_instruction(memory).size as nat).address(0)
            - self.starting_address) % 0x1_0000_0000
    }

    /// How the next step of a run over a program of `byte_count` bytes ends.
    pub open spec fn outcome(self, memory: Seq<u8>, byte_count: u32) -> Step {
        let instruction = self.next_instruction(memory);
        if instruction.op == OperationType::Unrecognized {
            Step::Unrecognized
        } else if self.distance_after(memory) >= byte_count {
            Step::Finished
        } else {
            Step::Executed(instruction)
        }
    }

    /// The state after the next step of a run over a program of `byte_count`
    /// bytes. The position is that of the instruction pointer, moved past the
    /// instruction if there is one, and the instruction pointer moves with
    /// it. Only an instruction that ends before the end of the program is
    /// executed and taken into the prefix state.
    pub open spec fn after_step(self, memory: Seq<u8>, byte_count: u32) -> Simulator {
        let instruction = self.next_instruction(memory);
        let advanced = self.registers.with_word(
            RegisterIndex::Ip,
            wrapped_sum(self.registers.ip, offset_of(instruction.size)),
        );
        match self.outcome(memory, byte_count) {
            Step::Unrecognized => Simulator { at: self.fetch_position(), ..self },
            Step::Finished => Simulator {
                at: self.fetch_position().advanced(instruction.size as nat),
                registers: advanced,
                ..self
            },
            Step::Executed(_) => Simulator {
                at: self.fetch_position().advanced(instruction.size as nat),
                registers: executed(advanced, instruction),
                context: self.context.after(instruction),
                ..self
            },
        }
    }

    /// The state before the first instruction of a program at `start`.
    pub fn new(start: SegmentedAccess) -> (simulator: Self)
        ensures
            simulator == Simulator::initial(start),
    {
        let starting_address: u32 = start.get_absolute_address(0);
        let mut registers = RegisterFile::new();
        registers.update_ip((starting_address % 0x1_0000) as u16);
        Simulator { at: start, context: DisasmContext::new(), registers, starting_address }
    }

    /// Runs the next step of a program of `byte_count` bytes.
    pub fn step(&mut self, memory: &Memory, byte_count: u32) -> (outcome: Step)
        requires
            memory.wf(),
        ensures
            outcome == old(self).outcome(memory@, byte_count),
            *final(self) == old(self).after_step(memory@, byte_count),
    {
        self.at.segment_offset = self.registers.get_ip();
        let instruction = decode_instruction(&self.context, memory, &mut self.at);
        if let OperationType::Unrecognized = instruction.op {
            return Step::Unrecognized;
        }
        self.registers.update_ip(instruction.size as u16);
        let current_address: u32 = self.at.get_absolute_address(0);
        let distance: u32 = if current_address >= self.starting_address {
            current_address - self.starting_address
        } else {
            0xffff_ffff - (self.starting_address - current_address) + 1
        };
        if distance >= byte_count {
            return Step::Finished;
        }
        execute_instruction(&instruction, memory, &mut self.registers);
        self.context.update(&instruction);
        Step::Executed(instruction)
    }
}

} // verus!
