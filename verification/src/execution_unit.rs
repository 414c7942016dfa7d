//! Execution: what an instruction does to the registers.

use vstd::prelude::*;

use crate::decoder::{Instruction, Operand};
use crate::instruction_formats::OperationType;
use crate::memory::Memory;
use crate::register::{
    flags_after_add, flags_after_sub, lemma_flags_written, lemma_write_keeps_other_registers,
    wrapped_difference, wrapped_sum, RegisterFile, RegisterIndex,
};

verus! {

/// The low sixteen bits of `value`.
pub open spec fn low_word(value: int) -> u16 {
    (value % 0x1_0000) as u16
}

/// The word that a source operand stands for: what a register holds, or the
/// low sixteen bits of an immediate. Memory is not read: a memory operand, like
/// no operand at all, stands for zero.
pub open spec fn source_value(registers: RegisterFile, source: Operand) -> u16 {
    match source {
        Operand::Register(access) => registers.value_of(access),
        Operand::ImmediateU32(value) => low_word(value as int),
        Operand::ImmediateS32(value) => low_word(value as int),
        _ => 0,
    }
}

/// The registers after `instruction`. Only moves, additions, subtractions and
/// comparisons into a register have an effect. A move writes the source to
/// the destination; an addition or subtraction sets the flags and writes the
/// result; a comparison sets the flags of the subtraction and writes nothing.
pub open spec fn executed(registers: RegisterFile, instruction: Instruction) -> RegisterFile {
    match instruction.operands[0] {
        Operand::Register(destination) => {
            let source = source_value(registers, instruction.operands[1]);
            let value = registers.value_of(destination);
            match instruction.op {
                OperationType::Mov => registers.updated(destination, source),
                OperationType::Add => registers.with_flags(flags_after_add(value, source)).updated(
                    destination,
                    wrapped_sum(value, source),
                ),
                OperationType::Sub => registers.with_flags(flags_after_sub(value, source)).updated(
                    destination,
                    wrapped_difference(value, source),
                ),
                OperationType::Cmp => registers.with_flags(flags_after_sub(value, source)),
                _ => registers,
            }
        },
        _ => registers,
    }
}

/// The low sixteen bits of an unsigned immediate.
fn low_word_of_unsigned(value: u32) -> (word: u16)
    ensures
        word == low_word(value as int),
{
    assert(value & 0xffff == value % 0x1_0000) by (bit_vector);
    (value & 0xffff) as u16
}

/// The low sixteen bits of a signed immediate.
fn low_word_of_signed(value: i32) -> (word: u16)
    ensures
        word == low_word(value as int),
{
    assert(0 <= value & 0xffff <= 0xffff && (value & 0xffff) as int == (value as int) % 0x1_0000)
        by (bit_vector);
    (value & 0xffff) as u16
}

/// The word that a source operand stands for.
fn read_source(registers: &RegisterFile, source: &Operand) -> (value: u16)
    ensures
        value == source_value(*registers, *source),
{
    match source {
        Operand::Register(access) => registers.get_register_value(access),
        Operand::ImmediateU32(value) => low_word_of_unsigned(*value),
        Operand::ImmediateS32(value) => low_word_of_signed(*value),
        _ => 0,
    }
}

/// Runs `instruction` on the registers. Memory is handed in but not used.
pub fn execute_instruction(instruction: &Instruction, _memory: &Memory, reg_file: &mut RegisterFile)
    ensures
        *final(reg_file) == executed(*old(reg_file), *instruction),
{
    if let Operand::Register(dst) = &instruction.operands[0] {
        match instruction.op {
            OperationType::Mov => {
                let val = read_source(reg_file, &instruction.operands[1]);
                reg_file.update_register(dst, val);
            },
            OperationType::Add => {
                let val1 = reg_file.get_register_value(dst);
                let val2 = read_source(reg_file, &instruction.operands[1]);
                let res = reg_file.alu_add(val1, val2);
                reg_file.update_register(dst, res);
            },
            OperationType::Sub => {
                let val1 = reg_file.get_register_value(dst);
                let val2 = read_source(reg_file, &instruction.operands[1]);
                let res = reg_file.alu_sub(val1, val2);
                reg_file.update_register(dst, res);
            },
            OperationType::Cmp => {
                let val1 = reg_file.get_register_value(dst);
                let val2 = read_source(reg_file, &instruction.operands[1]);
                let _ = reg_file.alu_sub(val1, val2);
            },
            _ => {},
        }
    }
}

/// Whether `instruction` writes to register `index`: a move, an addition or a
/// subtraction does so to its destination register.
pub open spec fn writes_register(instruction: Instruction, index: RegisterIndex) -> bool {
    &&& instruction.operands[0] matches Operand::Register(destination) && destination.index == index
    &&& instruction.op == OperationType::Mov || instruction.op == OperationType::Add
        || instruction.op == OperationType::Sub
}

/// An instruction changes no register but the one it writes to and the flags.
/// A comparison, in particular, leaves its destination as it was.
pub proof fn lemma_execution_frame(
    registers: RegisterFile,
    instruction: Instruction,
    index: RegisterIndex,
)
    requires
        index != RegisterIndex::Flags,
        !writes_register(instruction, index),
    ensures
        executed(registers, instruction).word(index) == registers.word(index),
{
    if let Operand::Register(destination) = instruction.operands[0] {
        let source = source_value(registers, instruction.operands[1]);
        let value = registers.value_of(destination);
        match instruction.op {
            OperationType::Mov => {
                lemma_write_keeps_other_registers(registers, destination, source, index);
            },
            OperationType::Add => {
                let flags = flags_after_add(value, source);
                lemma_flags_written(registers, flags);
                lemma_write_keeps_other_registers(
                    registers.with_flags(flags),
                    destination,
                    wrapped_sum(value, source),
                    index,
                );
            },
            OperationType::Sub => {
                let flags = flags_after_sub(value, source);
                lemma_flags_written(registers, flags);
                lemma_write_keeps_other_registers(
                    registers.with_flags(flags),
                    destination,
                    wrapped_difference(value, source),
                    index,
                );
            },
            OperationType::Cmp => {
                lemma_flags_written(registers, flags_after_sub(value, source));
            },
            _ => {},
        }
    }
}

} // verus!
