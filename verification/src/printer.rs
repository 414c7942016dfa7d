//! The text of an instruction in assembly syntax, and of the registers.

use vstd::prelude::*;
use vstd::string::StringExecFns;

use crate::decoder::{Instruction, InstructionFlag, Operand};
use crate::instruction_formats::OperationType;
use crate::register::{EffectiveAddressExpression, Flag, RegisterFile};

verus! {

/// The text of one decimal digit.
pub open spec fn digit_text(digit: nat) -> Seq<char> {
    if digit == 0 {
        "0"@
    } else if digit == 1 {
        "1"@
    } else if digit == 2 {
        "2"@
    } else if digit == 3 {
        "3"@
    } else if digit == 4 {
        "4"@
    } else if digit == 5 {
        "5"@
    } else if digit == 6 {
        "6"@
    } else if digit == 7 {
        "7"@
    } else if digit == 8 {
        "8"@
    } else {
        "9"@
    }
}

/// The decimal text of a natural number, without leading zeros.
pub open spec fn decimal_text(number: nat) -> Seq<char>
    decreases number,
{
    if number < 10 {
        digit_text(number)
    } else {
        decimal_text(number / 10) + digit_text(number % 10)
    }
}

/// The decimal text of an integer: a minus sign before a negative number, and
/// a plus sign before any other where `explicit_plus` asks for it.
pub open spec fn signed_text(number: int, explicit_plus: bool) -> Seq<char> {
    if number < 0 {
        "-"@ + decimal_text((-number) as nat)
    } else if explicit_plus {
        "+"@ + decimal_text(number as nat)
    } else {
        decimal_text(number as nat)
    }
}

/// The text of a memory operand of `instruction`: the width of the operand
/// where no register or jump target shows it, the segment where a prefix has
/// named one, and in brackets the base and the displacement, if it is not
/// zero, with its sign.
pub open spec fn memory_text(instruction: Instruction, address: EffectiveAddressExpression) -> Seq<
    char,
> {
    let width = if instruction.operands[0] is Register || instruction.operands[1] is Register
        || instruction.operands[0] is RelativeImmediate
        || instruction.operands[1] is RelativeImmediate {
        ""@
    } else if instruction.flags & InstructionFlag::WIDE != 0 {
        "word "@
    } else {
        "byte "@
    };
    let segment = if instruction.flags & InstructionFlag::SEGMENT != 0 {
        address.segment.name_text(0, 2) + ":"@
    } else {
        ""@
    };
    let displacement = if address.displacement != 0 {
        signed_text(address.displacement as int, true)
    } else {
        ""@
    };
    width + segment + "["@ + address.base.expression_text() + displacement + "]"@
}

/// The text of one operand of `instruction`; an absent operand has none.
pub open spec fn operand_text(instruction: Instruction, operand: Operand) -> Seq<char> {
    match operand {
        Operand::Absent => ""@,
        Operand::Register(access) => access.index.name_text(access.offset, access.count),
        Operand::Memory(address) => memory_text(instruction, address),
        Operand::ImmediateU32(value) => decimal_text(value as nat),
        Operand::ImmediateS32(value) => signed_text(value as int, false),
        Operand::RelativeImmediate(offset) => "$"@ + signed_text(offset as int, true),
    }
}

/// The text of `instruction`: `lock` and `rep` where its flags hold them, the
/// mnemonic, with the width of the operands behind it after `rep`, a space,
/// and the operands that are there, with a comma between two.
pub open spec fn instruction_text(instruction: Instruction) -> Seq<char> {
    let lock = if instruction.flags & InstructionFlag::LOCK != 0 {
        "lock "@
    } else {
        ""@
    };
    let rep = if instruction.flags & InstructionFlag::REP == 0 {
        ""@
    } else {
        "rep "@
    };
    let suffix = if instruction.flags & InstructionFlag::REP == 0 {
        ""@
    } else if instruction.flags & InstructionFlag::WIDE != 0 {
        "w"@
    } else {
        "b"@
    };
    let separator = if instruction.operands[0] is Absent || instruction.operands[1] is Absent {
        ""@
    } else {
        ", "@
    };
    lock + rep + instruction.op.mnemonic_text() + suffix + " "@ + operand_text(
        instruction,
        instruction.operands[0],
    ) + separator + operand_text(instruction, instruction.operands[1])
}

/// The text of one decimal digit.
fn digit_str(digit: u32) -> (text: &'static str)
    requires
        digit < 10,
    ensures
        text@ == digit_text(digit as nat),
{
    match digit {
        0 => "0",
        1 => "1",
        2 => "2",
        3 => "3",
        4 => "4",
        5 => "5",
        6 => "6",
        7 => "7",
        8 => "8",
        _ => "9",
    }
}

/// Appends the decimal text of `number` to `text`.
fn append_decimal(text: &mut String, number: u32)
    ensures
        final(text)@ == old(text)@ + decimal_text(number as nat),
    decreases number,
{
    if number >= 10 {
        append_decimal(text, number / 10);
    }
    text.append(digit_str(number % 10));
    assert(text@ =~= old(text)@ + decimal_text(number as nat));
}

/// Appends the decimal text of `number` to `text`, with its sign.
fn append_signed(text: &mut String, number: i32, explicit_plus: bool)
    ensures
        final(text)@ == old(text)@ + signed_text(number as int, explicit_plus),
{
    if number < 0 {
        text.append("-");
        let magnitude: u32 = (-(number + 1)) as u32 + 1;
        append_decimal(text, magnitude);
    } else {
        if explicit_plus {
            text.append("+");
        }
        append_decimal(text, number as u32);
    }
    assert(text@ =~= old(text)@ + signed_text(number as int, explicit_plus));
}

/// Whether an instruction has a line of its own in a listing: a prefix has
/// none, since it shows in the instruction that follows it.
pub fn is_printable(instruction: &Instruction) -> (printable: bool)
    ensures
        printable == (instruction.op != OperationType::Lock && instruction.op
            != OperationType::Rep && instruction.op != OperationType::Segment),
{
    match instruction.op {
        OperationType::Lock | OperationType::Rep | OperationType::Segment => false,
        _ => true,
    }
}

/// Appends the text of a memory operand of `instruction` to `text`.
fn append_memory(text: &mut String, instruction: &Instruction, address: &EffectiveAddressExpression)
    ensures
        final(text)@ == old(text)@ + memory_text(*instruction, *address),
{
    let sized: bool = match (instruction.operands[0], instruction.operands[1]) {
        (Operand::Register(_), _) => true,
        (_, Operand::Register(_)) => true,
        (Operand::RelativeImmediate(_), _) => true,
        (_, Operand::RelativeImmediate(_)) => true,
        _ => false,
    };
    if !sized {
        text.append(
            if (instruction.flags & InstructionFlag::WIDE) != 0 {
                "word "
            } else {
                "byte "
            },
        );
    }
    if (instruction.flags & InstructionFlag::SEGMENT) != 0 {
        text.append(address.segment.get_name(0, 2));
        text.append(":");
    }
    text.append("[");
    text.append(address.base.expression());
    if address.displacement != 0 {
        append_signed(text, address.displacement, true);
    }
    text.append("]");
    proof {
        reveal_strlit("");
    }
    assert(text@ =~= old(text)@ + memory_text(*instruction, *address));
}

/// Appends the text of one operand of `instruction` to `text`.
fn append_operand(text: &mut String, instruction: &Instruction, operand: &Operand)
    ensures
        final(text)@ == old(text)@ + operand_text(*instruction, *operand),
{
    match operand {
        Operand::Absent => {},
        Operand::Register(access) => {
            text.append(access.index.get_name(access.offset, access.count));
        },
        Operand::Memory(address) => {
            append_memory(text, instruction, address);
        },
        Operand::ImmediateU32(value) => {
            append_decimal(text, *value);
        },
        Operand::ImmediateS32(value) => {
            append_signed(text, *value, false);
        },
        Operand::RelativeImmediate(offset) => {
            text.append("$");
            append_signed(text, *offset, true);
        },
    }
    proof {
        reveal_strlit("");
    }
    assert(text@ =~= old(text)@ + operand_text(*instruction, *operand));
}

/// The text of `instruction` in assembly syntax.
pub fn print_instruction(instruction: &Instruction) -> (text: String)
    ensures
        text@ == instruction_text(*instruction),
{
    let flags: u32 = instruction.flags;
    let w: bool = (flags & InstructionFlag::WIDE) != 0;
    let mut text = String::new();
    if (flags & InstructionFlag::LOCK) != 0 {
        text.append("lock ");
    }
    let mut mnemonic_suffix: &'static str = "";
    if (flags & InstructionFlag::REP) != 0 {
        text.append("rep ");
        mnemonic_suffix = if w {
            "w"
        } else {
            "b"
        };
    }
    text.append(instruction.op.mnemonic());
    text.append(mnemonic_suffix);
    text.append(" ");
    append_operand(&mut text, instruction, &instruction.operands[0]);
    let both: bool = match (instruction.operands[0], instruction.operands[1]) {
        (Operand::Absent, _) => false,
        (_, Operand::Absent) => false,
        _ => true,
    };
    if both {
        text.append(", ");
    }
    append_operand(&mut text, instruction, &instruction.operands[1]);
    proof {
        reveal_strlit("");
        assert(text@ =~= instruction_text(*instruction));
    }
    text
}

/// The decimal text of a natural number, with zeros in front of a number of
/// fewer than four digits to make four.
pub open spec fn padded_text(number: nat) -> Seq<char> {
    if number < 10 {
        "000"@ + decimal_text(number)
    } else if number < 100 {
        "00"@ + decimal_text(number)
    } else if number < 1000 {
        "0"@ + decimal_text(number)
    } else {
        decimal_text(number)
    }
}

/// The text of a flag: `1` where it is set, `0` where it is clear.
pub open spec fn flag_text(set: bool) -> Seq<char> {
    if set {
        "1"@
    } else {
        "0"@
    }
}

/// The text of the registers: under a heading, the general registers, the
/// index and pointer registers, the segment registers and the instruction
/// pointer, each in decimal; under another, the six flags.
pub open spec fn state_text(registers: RegisterFile) -> Seq<char> {
    "\nRegisters:\nAX="@ + padded_text(registers.ax as nat) + "  BX="@ + padded_text(
        registers.bx as nat,
    ) + "  CX="@ + padded_text(registers.cx as nat) + "  DX="@ + padded_text(registers.dx as nat)
        + "\nSI="@ + padded_text(registers.si as nat) + "  DI="@ + padded_text(
        registers.di as nat,
    ) + "  BP="@ + padded_text(registers.bp as nat) + "  SP="@ + padded_text(registers.sp as nat)
        + "\nCS="@ + padded_text(registers.cs as nat) + "  DS="@ + padded_text(
        registers.ds as nat,
    ) + "  ES="@ + padded_text(registers.es as nat) + "  SS="@ + padded_text(registers.ss as nat)
        + "\nIP="@ + padded_text(registers.ip as nat) + "\n\nFlags:\nCF="@ + flag_text(
        registers.flag(Flag::Carry),
    ) + " PF="@ + flag_text(registers.flag(Flag::Parity)) + " AF="@ + flag_text(
        registers.flag(Flag::Auxiliary),
    ) + " ZF="@ + flag_text(registers.flag(Flag::Zero)) + " SF="@ + flag_text(
        registers.flag(Flag::Sign),
    ) + " OF="@ + flag_text(registers.flag(Flag::Overflow)) + "\n"@
}

/// Appends `label` and the padded decimal text of `value` to `text`.
fn append_register(text: &mut String, label: &str, value: u16)
    ensures
        final(text)@ == old(text)@ + label@ + padded_text(value as nat),
{
    text.append(label);
    if value < 10 {
        text.append("000");
    } else if value < 100 {
        text.append("00");
    } else if value < 1000 {
        text.append("0");
    }
    append_decimal(text, value as u32);
    assert(text@ =~= old(text)@ + label@ + padded_text(value as nat));
}

/// Appends `label` and the text of a flag to `text`.
fn append_flag(text: &mut String, label: &str, set: bool)
    ensures
        final(text)@ == old(text)@ + label@ + flag_text(set),
{
    text.append(label);
    text.append(
        if set {
            "1"
        } else {
            "0"
        },
    );
    assert(text@ =~= old(text)@ + label@ + flag_text(set));
}

impl RegisterFile {
    /// The text of the registers and flags, as a listing ends with it.
    pub fn print_state(&self) -> (text: String)
        ensures
            text@ == state_text(*self),
    {
        let mut text = String::new();
        append_register(&mut text, "\nRegisters:\nAX=", self.ax);
        append_register(&mut text, "  BX=", self.bx);
        append_register(&mut text, "  CX=", self.cx);
        append_register(&mut text, "  DX=", self.dx);
        append_register(&mut text, "\nSI=", self.si);
        append_register(&mut text, "  DI=", self.di);
        append_register(&mut text, "  BP=", self.bp);
        append_register(&mut text, "  SP=", self.sp);
        append_register(&mut text, "\nCS=", self.cs);
        append_register(&mut text, "  DS=", self.ds);
        append_register(&mut text, "  ES=", self.es);
        append_register(&mut text, "  SS=", self.ss);
        append_register(&mut text, "\nIP=", self.ip);
        append_flag(&mut text, "\n\nFlags:\nCF=", self.get_flag(Flag::Carry));
        append_flag(&mut text, " PF=", self.get_flag(Flag::Parity));
        append_flag(&mut text, " AF=", self.get_flag(Flag::Auxiliary));
        append_flag(&mut text, " ZF=", self.get_flag(Flag::Zero));
        append_flag(&mut text, " SF=", self.get_flag(Flag::Sign));
        append_flag(&mut text, " OF=", self.get_flag(Flag::Overflow));
        text.append("\n");
        assert(text@ =~= state_text(*self));
        text
    }
}

} // verus!
