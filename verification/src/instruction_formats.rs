//! The operations of the 8086 and the table of bit patterns that encode them.

use vstd::prelude::*;

use crate::instruction_formats::InstructionBitsUsage::{
    Data, DispAlwaysW, HasData, HasDisp, Mod, Reg, RelJmpDisp, Rm, RmRegAlwaysW, Sr, WMakesDataW,
    D, S, V, W, Z,
};
use crate::instruction_formats::OperationType::{
    Mov, Push, Pop, Xchg, In, Out, Xlat, Lea, Lds, Les, Lahf, Sahf, Pushf, Popf, Add, Adc, Inc,
    Aaa, Daa, Sub, Sbb, Dec, Neg, Cmp, Aas, Das, Mul, Imul, Aam, Div, Idiv, Aad, Cbw, Cwd, Not,
    Shl, Shr, Sar, Rol, Ror, Rcl, Rcr, And, Test, Or, Xor, Rep, Movs, Cmps, Scas, Lods, Stos,
    Call, Jmp, Ret, Je, Jl, Jle, Jb, Jbe, Jp, Jo, Js, Jne, Jnl, Jg, Jnb, Ja, Jnp, Jno, Jns,
    Loop, Loopz, Loopnz, Jcxz, Int, Int3, Into, Iret, Clc, Cmc, Stc, Cld, Std, Cli, Sti, Hlt,
    Wait, Esc, Lock, Segment,
};

verus! {

/// The operation an instruction performs. `Unrecognized` stands for bytes that
/// encode no operation.
#[derive(Debug, Clone, Copy, PartialEq, Eq, Structural)]
pub enum OperationType {
    Unrecognized,
    Mov,
    Push,
    Pop,
    Xchg,
    In,
    Out,
    Xlat,
    Lea,
    Lds,
    Les,
    Lahf,
    Sahf,
    Pushf,
    Popf,
    Add,
    Adc,
    Inc,
    Aaa,
    Daa,
    Sub,
    Sbb,
    Dec,
    Neg,
    Cmp,
    Aas,
    Das,
    Mul,
    Imul,
    Aam,
    Div,
    Idiv,
    Aad,
    Cbw,
    Cwd,
    Not,
    Shl,
    Sal,
    Shr,
    Sar,
    Rol,
    Ror,
    Rcl,
    Rcr,
    And,
    Test,
    Or,
    Xor,
    Rep,
    Movs,
    Cmps,
    Scas,
    Lods,
    Stos,
    Call,
    Jmp,
    Ret,
    Retf,
    Je,
    Jl,
    Jle,
    Jb,
    Jbe,
    Jp,
    Jo,
    Js,
    Jne,
    Jnl,
    Jg,
    Jnb,
    Ja,
    Jnp,
    Jno,
    Jns,
    Loop,
    Loopz,
    Loopnz,
    Jcxz,
    Int,
    Int3,
    Into,
    Iret,
    Clc,
    Cmc,
    Stc,
    Cld,
    Std,
    Cli,
    Sti,
    Hlt,
    Wait,
    Esc,
    Lock,
    Segment,
}

impl OperationType {
    /// The text of the mnemonic of each operation, in lower case.
    pub open spec fn mnemonic_text(self) -> Seq<char> {
        match self {
            OperationType::Unrecognized => ""@,
            OperationType::Mov => "mov"@,
            OperationType::Push => "push"@,
            OperationType::Pop => "pop"@,
            OperationType::Xchg => "xchg"@,
            OperationType::In => "in"@,
            OperationType::Out => "out"@,
            OperationType::Xlat => "xlat"@,
            OperationType::Lea => "lea"@,
            OperationType::Lds => "lds"@,
            OperationType::Les => "les"@,
            OperationType::Lahf => "lahf"@,
            OperationType::Sahf => "sahf"@,
            OperationType::Pushf => "pushf"@,
            OperationType::Popf => "popf"@,
            OperationType::Add => "add"@,
            OperationType::Adc => "adc"@,
            OperationType::Inc => "inc"@,
            OperationType::Aaa => "aaa"@,
            OperationType::Daa => "daa"@,
            OperationType::Sub => "sub"@,
            OperationType::Sbb => "sbb"@,
            OperationType::Dec => "dec"@,
            OperationType::Neg => "neg"@,
            OperationType::Cmp => "cmp"@,
            OperationType::Aas => "aas"@,
            OperationType::Das => "das"@,
            OperationType::Mul => "mul"@,
            OperationType::Imul => "imul"@,
            OperationType::Aam => "aam"@,
            OperationType::Div => "div"@,
            OperationType::Idiv => "idiv"@,
            OperationType::Aad => "aad"@,
            OperationType::Cbw => "cbw"@,
            OperationType::Cwd => "cwd"@,
            OperationType::Not => "not"@,
            OperationType::Shl => "shl"@,
            OperationType::Sal => "sal"@,
            OperationType::Shr => "shr"@,
            OperationType::Sar => "sar"@,
            OperationType::Rol => "rol"@,
            OperationType::Ror => "ror"@,
            OperationType::Rcl => "rcl"@,
            OperationType::Rcr => "rcr"@,
            OperationType::And => "and"@,
            OperationType::Test => "test"@,
            OperationType::Or => "or"@,
            OperationType::Xor => "xor"@,
            OperationType::Rep => "rep"@,
            OperationType::Movs => "movs"@,
            OperationType::Cmps => "cmps"@,
            OperationType::Scas => "scas"@,
            OperationType::Lods => "lods"@,
            OperationType::Stos => "stos"@,
            OperationType::Call => "call"@,
            OperationType::Jmp => "jmp"@,
            OperationType::Ret => "ret"@,
            OperationType::Retf => "retf"@,
            OperationType::Je => "je"@,
            OperationType::Jl => "jl"@,
            OperationType::Jle => "jle"@,
            OperationType::Jb => "jb"@,
            OperationType::Jbe => "jbe"@,
            OperationType::Jp => "jp"@,
            OperationType::Jo => "jo"@,
            OperationType::Js => "js"@,
            OperationType::Jne => "jne"@,
            OperationType::Jnl => "jnl"@,
            OperationType::Jg => "jg"@,
            OperationType::Jnb => "jnb"@,
            OperationType::Ja => "ja"@,
            OperationType::Jnp => "jnp"@,
            OperationType::Jno => "jno"@,
            OperationType::Jns => "jns"@,
            OperationType::Loop => "loop"@,
            OperationType::Loopz => "loopz"@,
            OperationType::Loopnz => "loopnz"@,
            OperationType::Jcxz => "jcxz"@,
            OperationType::Int => "int"@,
            OperationType::Int3 => "int3"@,
            OperationType::Into => "into"@,
            OperationType::Iret => "iret"@,
            OperationType::Clc => "clc"@,
            OperationType::Cmc => "cmc"@,
            OperationType::Stc => "stc"@,
            OperationType::Cld => "cld"@,
            OperationType::Std => "std"@,
            OperationType::Cli => "cli"@,
            OperationType::Sti => "sti"@,
            OperationType::Hlt => "hlt"@,
            OperationType::Wait => "wait"@,
            OperationType::Esc => "esc"@,
            OperationType::Lock => "lock"@,
            OperationType::Segment => "segment"@,
        }
    }

    /// The mnemonic of this operation, in lower case.
    pub fn mnemonic(&self) -> (name: &'static str)
        ensures
            name@ == self.mnemonic_text(),
    {
        match self {
            OperationType::Unrecognized => "",
            OperationType::Mov => "mov",
            OperationType::Push => "push",
            OperationType::Pop => "pop",
            OperationType::Xchg => "xchg",
            OperationType::In => "in",
            OperationType::Out => "out",
            OperationType::Xlat => "xlat",
            OperationType::Lea => "lea",
            OperationType::Lds => "lds",
            OperationType::Les => "les",
            OperationType::Lahf => "lahf",
            OperationType::Sahf => "sahf",
            OperationType::Pushf => "pushf",
            OperationType::Popf => "popf",
            OperationType::Add => "add",
            OperationType::Adc => "adc",
            OperationType::Inc => "inc",
            OperationType::Aaa => "aaa",
            OperationType::Daa => "daa",
            OperationType::Sub => "sub",
            OperationType::Sbb => "sbb",
            OperationType::Dec => "dec",
            OperationType::Neg => "neg",
            OperationType::Cmp => "cmp",
            OperationType::Aas => "aas",
            OperationType::Das => "das",
            OperationType::Mul => "mul",
            OperationType::Imul => "imul",
            OperationType::Aam => "aam",
            OperationType::Div => "div",
            OperationType::Idiv => "idiv",
            OperationType::Aad => "aad",
            OperationType::Cbw => "cbw",
            OperationType::Cwd => "cwd",
            OperationType::Not => "not",
            OperationType::Shl => "shl",
            OperationType::Sal => "sal",
            OperationType::Shr => "shr",
            OperationType::Sar => "sar",
            OperationType::Rol => "rol",
            OperationType::Ror => "ror",
            OperationType::Rcl => "rcl",
            OperationType::Rcr => "rcr",
            OperationType::And => "and",
            OperationType::Test => "test",
            OperationType::Or => "or",
            OperationType::Xor => "xor",
            OperationType::Rep => "rep",
            OperationType::Movs => "movs",
            OperationType::Cmps => "cmps",
            OperationType::Scas => "scas",
            OperationType::Lods => "lods",
            OperationType::Stos => "stos",
            OperationType::Call => "call",
            OperationType::Jmp => "jmp",
            OperationType::Ret => "ret",
            OperationType::Retf => "retf",
            OperationType::Je => "je",
            OperationType::Jl => "jl",
            OperationType::Jle => "jle",
            OperationType::Jb => "jb",
            OperationType::Jbe => "jbe",
            OperationType::Jp => "jp",
            OperationType::Jo => "jo",
            OperationType::Js => "js",
            OperationType::Jne => "jne",
            OperationType::Jnl => "jnl",
            OperationType::Jg => "jg",
            OperationType::Jnb => "jnb",
            OperationType::Ja => "ja",
            OperationType::Jnp => "jnp",
            OperationType::Jno => "jno",
            OperationType::Jns => "jns",
            OperationType::Loop => "loop",
            OperationType::Loopz => "loopz",
            OperationType::Loopnz => "loopnz",
            OperationType::Jcxz => "jcxz",
            OperationType::Int => "int",
            OperationType::Int3 => "int3",
            OperationType::Into => "into",
            OperationType::Iret => "iret",
            OperationType::Clc => "clc",
            OperationType::Cmc => "cmc",
            OperationType::Stc => "stc",
            OperationType::Cld => "cld",
            OperationType::Std => "std",
            OperationType::Cli => "cli",
            OperationType::Sti => "sti",
            OperationType::Hlt => "hlt",
            OperationType::Wait => "wait",
            OperationType::Esc => "esc",
            OperationType::Lock => "lock",
            OperationType::Segment => "segment",
        }
    }
}

/// What the bits of one field of an instruction format stand for.
#[derive(Debug, Clone, Copy, PartialEq, Eq, Structural)]
pub enum InstructionBitsUsage {
    /// Bits that must equal the value of the field.
    Literal,
    /// The addressing mode.
    Mod,
    /// A register operand.
    Reg,
    /// A register or memory operand.
    Rm,
    /// A segment register.
    Sr,
    /// The displacement that follows the opcode.
    Disp,
    /// The immediate that follows the displacement.
    Data,
    /// A displacement follows whatever the addressing mode says.
    HasDisp,
    /// The displacement is sixteen bits wide.
    DispAlwaysW,
    /// An immediate follows.
    HasData,
    /// The immediate is sixteen bits wide when the operands are.
    WMakesDataW,
    /// A register named by `Rm` is sixteen bits wide.
    RmRegAlwaysW,
    /// The displacement is a jump target relative to the next instruction.
    RelJmpDisp,
    /// Direction: set when `Reg` names the destination.
    D,
    /// The immediate is one byte, sign-extended.
    S,
    /// The operands are sixteen bits wide.
    W,
    /// A shift or rotate counts by `cl` when set, by one when clear.
    V,
    /// The zero-flag value that ends a repeated string operation.
    Z,
}

/// Number of kinds of field, and so of the values a decoder collects.
pub const USAGE_COUNT: usize = 18;

impl InstructionBitsUsage {
    /// The position of this kind among the values a decoder collects.
    pub open spec fn spec_index(self) -> usize {
        match self {
            InstructionBitsUsage::Literal => 0,
            InstructionBitsUsage::Mod => 1,
            InstructionBitsUsage::Reg => 2,
            InstructionBitsUsage::Rm => 3,
            InstructionBitsUsage::Sr => 4,
            InstructionBitsUsage::Disp => 5,
            InstructionBitsUsage::Data => 6,
            InstructionBitsUsage::HasDisp => 7,
            InstructionBitsUsage::DispAlwaysW => 8,
            InstructionBitsUsage::HasData => 9,
            InstructionBitsUsage::WMakesDataW => 10,
            InstructionBitsUsage::RmRegAlwaysW => 11,
            InstructionBitsUsage::RelJmpDisp => 12,
            InstructionBitsUsage::D => 13,
            InstructionBitsUsage::S => 14,
            InstructionBitsUsage::W => 15,
            InstructionBitsUsage::V => 16,
            InstructionBitsUsage::Z => 17,
        }
    }

    /// The position of this kind among the values a decoder collects.
    #[verifier::when_used_as_spec(spec_index)]
    pub fn index(self) -> (i: usize)
        ensures
            i == self.spec_index(),
            i < USAGE_COUNT,
    {
        match self {
            InstructionBitsUsage::Literal => 0,
            InstructionBitsUsage::Mod => 1,
            InstructionBitsUsage::Reg => 2,
            InstructionBitsUsage::Rm => 3,
            InstructionBitsUsage::Sr => 4,
            InstructionBitsUsage::Disp => 5,
            InstructionBitsUsage::Data => 6,
            InstructionBitsUsage::HasDisp => 7,
            InstructionBitsUsage::DispAlwaysW => 8,
            InstructionBitsUsage::HasData => 9,
            InstructionBitsUsage::WMakesDataW => 10,
            InstructionBitsUsage::RmRegAlwaysW => 11,
            InstructionBitsUsage::RelJmpDisp => 12,
            InstructionBitsUsage::D => 13,
            InstructionBitsUsage::S => 14,
            InstructionBitsUsage::W => 15,
            InstructionBitsUsage::V => 16,
            InstructionBitsUsage::Z => 17,
        }
    }
}

/// One field of an instruction format.
///
/// A field of `bit_count` bits is read from the instruction stream; a field of
/// no bits stands for `value` itself. The bits of a `Literal` field must equal
/// `value`; those of any other field are shifted left by `shift` and collected
/// under `usage`.
#[derive(Debug, Clone, Copy)]
pub struct InstructionBits {
    pub usage: InstructionBitsUsage,
    pub bit_count: u8,
    pub shift: u8,
    pub value: u8,
}

impl InstructionBits {
    /// A field may be shifted by less than the width of the value it is
    /// collected in.
    pub open spec fn well_formed(self) -> bool {
        self.shift < 32
    }

    /// A `Literal` field of no bits ends a format.
    pub open spec fn ends_format(self) -> bool {
        self.usage == InstructionBitsUsage::Literal && self.bit_count == 0
    }
}

/// Bits that must read as `value`.
pub open spec fn spec_literal(bit_count: u8, value: u8) -> InstructionBits {
    InstructionBits { usage: InstructionBitsUsage::Literal, bit_count, shift: 0, value }
}

/// Bits that must read as `value`.
#[verifier::when_used_as_spec(spec_literal)]
pub fn literal(bit_count: u8, value: u8) -> (bits: InstructionBits)
    ensures
        bits == spec_literal(bit_count, value),
{
    InstructionBits { usage: InstructionBitsUsage::Literal, bit_count, shift: 0, value }
}

/// Bits read from the instruction and collected under `usage`.
pub open spec fn spec_field(usage: InstructionBitsUsage, bit_count: u8) -> InstructionBits {
    InstructionBits { usage, bit_count, shift: 0, value: 0 }
}

/// Bits read from the instruction and collected under `usage`.
#[verifier::when_used_as_spec(spec_field)]
pub fn field(usage: InstructionBitsUsage, bit_count: u8) -> (bits: InstructionBits)
    ensures
        bits == spec_field(usage, bit_count),
{
    InstructionBits { usage, bit_count, shift: 0, value: 0 }
}

/// A value that the format implies for `usage` without reading any bits.
pub open spec fn spec_implied(usage: InstructionBitsUsage, value: u8) -> InstructionBits {
    InstructionBits { usage, bit_count: 0, shift: 0, value }
}

/// A value that the format implies for `usage` without reading any bits.
#[verifier::when_used_as_spec(spec_implied)]
pub fn implied(usage: InstructionBitsUsage, value: u8) -> (bits: InstructionBits)
    ensures
        bits == spec_implied(usage, value),
{
    InstructionBits { usage, bit_count: 0, shift: 0, value }
}

/// One way of encoding an operation: the fields of the instruction, first bit
/// first.
#[derive(Debug, Clone)]
pub struct InstructionFormat {
    pub op: OperationType,
    pub bits: Vec<InstructionBits>,
}

/// An instruction format as a mathematical value.
pub struct FormatModel {
    pub op: OperationType,
    pub bits: Seq<InstructionBits>,
}

impl View for InstructionFormat {
    type V = FormatModel;

    open spec fn view(&self) -> FormatModel {
        FormatModel { op: self.op, bits: self.bits@ }
    }
}

/// The format that encodes `op` with the fields `bits`.
pub open spec fn model(op: OperationType, bits: Seq<InstructionBits>) -> FormatModel {
    FormatModel { op, bits }
}

/// The greatest number of fields in a format: with one byte read per field at
/// most, the bytes of one instruction never outnumber the offsets of a segment.
pub const MAX_FIELDS: usize = 0xffff;

/// The number of bits that the fields of `bits` from field `from` on read.
pub open spec fn width_from(bits: Seq<InstructionBits>, from: int) -> nat
    decreases bits.len() - from,
{
    if from < 0 || from >= bits.len() {
        0
    } else {
        bits[from].bit_count as nat + width_from(bits, from + 1)
    }
}

/// The format of a segment override prefix: three fixed bits, the segment
/// register, three fixed bits.
pub open spec fn segment_override_format() -> FormatModel {
    model(Segment, [literal(3, 0b001), field(Sr, 2), literal(3, 0b110)]@)
}

impl FormatModel {
    /// A format that a decoder can be run on: it has no more than
    /// `MAX_FIELDS` fields, each of them well formed.
    pub open spec fn well_formed(self) -> bool {
        &&& self.bits.len() <= MAX_FIELDS
        &&& forall|i: int| 0 <= i < self.bits.len() ==> (#[trigger] self.bits[i]).well_formed()
    }

    /// What holds of every format of the instruction table. The format
    /// stands for an operation and begins with bits to read, so that an
    /// instruction in this format takes at least one byte; its fields read no
    /// more than two bytes; and if it is a segment override, it is the one
    /// format for segment overrides.
    pub open spec fn is_regular(self) -> bool {
        &&& self.op != OperationType::Unrecognized
        &&& self.bits.len() >= 1
        &&& self.bits[0].bit_count > 0
        &&& width_from(self.bits, 0) <= 16
        &&& self.op == OperationType::Segment ==> self == segment_override_format()
    }
}

/// The formats of a table as mathematical values, in the order of the table.
pub open spec fn table_view(formats: Seq<InstructionFormat>) -> Seq<FormatModel> {
    Seq::new(formats.len(), |i: int| formats[i]@)
}

/// Every format of a table is well formed.
pub open spec fn all_well_formed(formats: Seq<InstructionFormat>) -> bool {
    forall|i: int| 0 <= i < formats.len() ==> (#[trigger] formats[i])@.well_formed()
}

/// Appends to `formats` the format that encodes `op` with the fields `bits`.
fn push_format<const N: usize>(
    formats: &mut Vec<InstructionFormat>,
    op: OperationType,
    bits: [InstructionBits; N],
)
    requires
        N <= MAX_FIELDS,
        forall|i: int| 0 <= i < N ==> (#[trigger] bits[i]).well_formed(),
        all_well_formed(old(formats)@),
    ensures
        table_view(final(formats)@) == table_view(old(formats)@).push(model(op, bits@)),
        all_well_formed(final(formats)@),
{
    let mut fields: Vec<InstructionBits> = Vec::new();
    let mut i: usize = 0;
    while i < N
        invariant
            i <= N,
            fields@ == bits@.take(i as int),
        decreases N - i,
    {
        fields.push(bits[i]);
        assert(bits@.take(i as int).push(bits[i as int]) =~= bits@.take(i + 1));
        i += 1;
    }
    assert(bits@.take(N as int) =~= bits@);
    formats.push(InstructionFormat { op, bits: fields });
    assert(table_view(formats@) =~= table_view(old(formats)@).push(model(op, bits@)));
}

/// Moves between registers, memory, ports and the stack.
#[verifier::opaque]
pub open spec fn data_transfer_formats() -> Seq<FormatModel> {
    seq![
        model(Mov, [
            literal(6, 0b100010), field(D, 1), field(W, 1), field(Mod, 2), field(Reg, 3),
            field(Rm, 3),
        ]@),
        model(Mov, [
            literal(7, 0b1100011), field(W, 1), field(Mod, 2), literal(3, 0b000), field(Rm, 3),
            implied(HasData, 1), implied(WMakesDataW, 1), implied(D, 0),
        ]@),
        model(Mov, [
            literal(4, 0b1011), field(W, 1), field(Reg, 3), implied(HasData, 1),
            implied(WMakesDataW, 1), implied(D, 1),
        ]@),
        model(Mov, [
            literal(7, 0b1010000), field(W, 1), implied(HasDisp, 1), implied(DispAlwaysW, 1),
            implied(Reg, 0), implied(Mod, 0), implied(Rm, 6), implied(D, 1),
        ]@),
        model(Mov, [
            literal(7, 0b1010001), field(W, 1), implied(HasDisp, 1), implied(DispAlwaysW, 1),
            implied(Reg, 0), implied(Mod, 0), implied(Rm, 6), implied(D, 0),
        ]@),
        model(Mov, [
            literal(6, 0b100011), field(D, 1), literal(1, 0b0), field(Mod, 2), literal(1, 0b0),
            field(Sr, 2), field(Rm, 3),
        ]@),
        model(Push, [
            literal(8, 0b11111111), field(Mod, 2), literal(3, 0b110), field(Rm, 3), implied(W, 1),
        ]@),
        model(Push, [literal(5, 0b01010), field(Reg, 3), implied(W, 1)]@),
        model(Push, [literal(3, 0b000), field(Sr, 2), literal(3, 0b110), implied(W, 1)]@),
        model(Pop, [
            literal(8, 0b10001111), field(Mod, 2), literal(3, 0b000), field(Rm, 3), implied(W, 1),
        ]@),
        model(Pop, [literal(5, 0b01011), field(Reg, 3), implied(W, 1)]@),
        model(Pop, [literal(3, 0b000), field(Sr, 2), literal(3, 0b111), implied(W, 1)]@),
        model(Xchg, [
            literal(7, 0b1000011), field(W, 1), field(Mod, 2), field(Reg, 3), field(Rm, 3),
            implied(D, 1),
        ]@),
        model(Xchg, [
            literal(5, 0b10010), field(Reg, 3), implied(Mod, 3), implied(W, 1), implied(Rm, 0),
        ]@),
        model(In, [
            literal(7, 0b1110010), field(W, 1), implied(HasData, 1), implied(Reg, 0), implied(D, 1),
        ]@),
        model(In, [
            literal(7, 0b1110110), field(W, 1), implied(Reg, 0), implied(D, 1), implied(Mod, 3),
            implied(Rm, 2), implied(RmRegAlwaysW, 1),
        ]@),
        model(Out, [
            literal(7, 0b1110011), field(W, 1), implied(HasData, 1), implied(Reg, 0), implied(D, 0),
        ]@),
        model(Out, [
            literal(7, 0b1110111), field(W, 1), implied(Reg, 0), implied(D, 0), implied(Mod, 3),
            implied(Rm, 2), implied(RmRegAlwaysW, 1),
        ]@),
        model(Xlat, [literal(8, 0b11010111)]@),
        model(Lea, [
            literal(8, 0b10001101), field(Mod, 2), field(Reg, 3), field(Rm, 3), implied(D, 1),
            implied(W, 1),
        ]@),
        model(Lds, [
            literal(8, 0b11000101), field(Mod, 2), field(Reg, 3), field(Rm, 3), implied(D, 1),
            implied(W, 1),
        ]@),
        model(Les, [
            literal(8, 0b11000100), field(Mod, 2), field(Reg, 3), field(Rm, 3), implied(D, 1),
            implied(W, 1),
        ]@),
        model(Lahf, [literal(8, 0b10011111)]@),
        model(Sahf, [literal(8, 0b10011110)]@),
        model(Pushf, [literal(8, 0b10011100)]@),
        model(Popf, [literal(8, 0b10011101)]@),
    ]
}

/// Addition, subtraction, multiplication, division and their adjustments.
#[verifier::opaque]
pub open spec fn arithmetic_formats() -> Seq<FormatModel> {
    seq![
        model(Add, [
            literal(6, 0b000000), field(D, 1), field(W, 1), field(Mod, 2), field(Reg, 3),
            field(Rm, 3),
        ]@),
        model(Add, [
            literal(6, 0b100000), field(S, 1), field(W, 1), field(Mod, 2), literal(3, 0b000),
            field(Rm, 3), implied(HasData, 1), implied(WMakesDataW, 1),
        ]@),
        model(Add, [
            literal(7, 0b0000010), field(W, 1), implied(HasData, 1), implied(WMakesDataW, 1),
            implied(Reg, 0), implied(D, 1),
        ]@),
        model(Adc, [
            literal(6, 0b000100), field(D, 1), field(W, 1), field(Mod, 2), field(Reg, 3),
            field(Rm, 3),
        ]@),
        model(Adc, [
            literal(6, 0b100000), field(S, 1), field(W, 1), field(Mod, 2), literal(3, 0b010),
            field(Rm, 3), implied(HasData, 1), implied(WMakesDataW, 1),
        ]@),
        model(Adc, [
            literal(7, 0b0001010), field(W, 1), implied(HasData, 1), implied(WMakesDataW, 1),
            implied(Reg, 0), implied(D, 1),
        ]@),
        model(Inc, [
            literal(7, 0b1111111), field(W, 1), field(Mod, 2), literal(3, 0b000), field(Rm, 3),
        ]@),
        model(Inc, [literal(5, 0b01000), field(Reg, 3), implied(W, 1)]@),
        model(Aaa, [literal(8, 0b00110111)]@),
        model(Daa, [literal(8, 0b00100111)]@),
        model(Sub, [
            literal(6, 0b001010), field(D, 1), field(W, 1), field(Mod, 2), field(Reg, 3),
            field(Rm, 3),
        ]@),
        model(Sub, [
            literal(6, 0b100000), field(S, 1), field(W, 1), field(Mod, 2), literal(3, 0b101),
            field(Rm, 3), implied(HasData, 1), implied(WMakesDataW, 1),
        ]@),
        model(Sub, [
            literal(7, 0b0010110), field(W, 1), implied(HasData, 1), implied(WMakesDataW, 1),
            implied(Reg, 0), implied(D, 1),
        ]@),
        model(Sbb, [
            literal(6, 0b000110), field(D, 1), field(W, 1), field(Mod, 2), field(Reg, 3),
            field(Rm, 3),
        ]@),
        model(Sbb, [
            literal(6, 0b100000), field(S, 1), field(W, 1), field(Mod, 2), literal(3, 0b011),
            field(Rm, 3), implied(HasData, 1), implied(WMakesDataW, 1),
        ]@),
        model(Sbb, [
            literal(7, 0b0001110), field(W, 1), implied(HasData, 1), implied(WMakesDataW, 1),
            implied(Reg, 0), implied(D, 1),
        ]@),
        model(Dec, [
            literal(7, 0b1111111), field(W, 1), field(Mod, 2), literal(3, 0b001), field(Rm, 3),
        ]@),
        model(Dec, [literal(5, 0b01001), field(Reg, 3), implied(W, 1)]@),
        model(Neg, [
            literal(7, 0b1111011), field(W, 1), field(Mod, 2), literal(3, 0b011), field(Rm, 3),
        ]@),
        model(Cmp, [
            literal(6, 0b001110), field(D, 1), field(W, 1), field(Mod, 2), field(Reg, 3),
            field(Rm, 3),
        ]@),
        model(Cmp, [
            literal(6, 0b100000), field(S, 1), field(W, 1), field(Mod, 2), literal(3, 0b111),
            field(Rm, 3), implied(HasData, 1), implied(WMakesDataW, 1),
        ]@),
        model(Cmp, [
            literal(7, 0b0011110), field(W, 1), implied(HasData, 1), implied(WMakesDataW, 1),
            implied(Reg, 0), implied(D, 1),
        ]@),
        model(Aas, [literal(8, 0b00111111)]@),
        model(Das, [literal(8, 0b00101111)]@),
        model(Mul, [
            literal(7, 0b1111011), field(W, 1), field(Mod, 2), literal(3, 0b100), field(Rm, 3),
            implied(S, 0),
        ]@),
        model(Imul, [
            literal(7, 0b1111011), field(W, 1), field(Mod, 2), literal(3, 0b101), field(Rm, 3),
            implied(S, 1),
        ]@),
        model(Aam, [literal(8, 0b11010100), literal(8, 0b00001010)]@),
        model(Div, [
            literal(7, 0b1111011), field(W, 1), field(Mod, 2), literal(3, 0b110), field(Rm, 3),
            implied(S, 0),
        ]@),
        model(Idiv, [
            literal(7, 0b1111011), field(W, 1), field(Mod, 2), literal(3, 0b111), field(Rm, 3),
            implied(S, 1),
        ]@),
        model(Aad, [literal(8, 0b11010101), literal(8, 0b00001010)]@),
        model(Cbw, [literal(8, 0b10011000)]@),
        model(Cwd, [literal(8, 0b10011001)]@),
    ]
}

/// Bitwise operations, shifts and rotates.
#[verifier::opaque]
pub open spec fn logic_formats() -> Seq<FormatModel> {
    seq![
        model(Not, [
            literal(7, 0b1111011), field(W, 1), field(Mod, 2), literal(3, 0b010), field(Rm, 3),
        ]@),
        model(Shl, [
            literal(6, 0b110100), field(V, 1), field(W, 1), field(Mod, 2), literal(3, 0b100),
            field(Rm, 3),
        ]@),
        model(Shr, [
            literal(6, 0b110100), field(V, 1), field(W, 1), field(Mod, 2), literal(3, 0b101),
            field(Rm, 3),
        ]@),
        model(Sar, [
            literal(6, 0b110100), field(V, 1), field(W, 1), field(Mod, 2), literal(3, 0b111),
            field(Rm, 3),
        ]@),
        model(Rol, [
            literal(6, 0b110100), field(V, 1), field(W, 1), field(Mod, 2), literal(3, 0b000),
            field(Rm, 3),
        ]@),
        model(Ror, [
            literal(6, 0b110100), field(V, 1), field(W, 1), field(Mod, 2), literal(3, 0b001),
            field(Rm, 3),
        ]@),
        model(Rcl, [
            literal(6, 0b110100), field(V, 1), field(W, 1), field(Mod, 2), literal(3, 0b010),
            field(Rm, 3),
        ]@),
        model(Rcr, [
            literal(6, 0b110100), field(V, 1), field(W, 1), field(Mod, 2), literal(3, 0b011),
            field(Rm, 3),
        ]@),
        model(And, [
            literal(6, 0b001000), field(D, 1), field(W, 1), field(Mod, 2), field(Reg, 3),
            field(Rm, 3),
        ]@),
        model(And, [
            literal(7, 0b1000000), field(W, 1), field(Mod, 2), literal(3, 0b100), field(Rm, 3),
            implied(HasData, 1), implied(WMakesDataW, 1),
        ]@),
        model(And, [
            literal(7, 0b0010010), field(W, 1), implied(HasData, 1), implied(WMakesDataW, 1),
            implied(Reg, 0), implied(D, 1),
        ]@),
        model(Test, [
            literal(6, 0b100001), field(D, 1), field(W, 1), field(Mod, 2), field(Reg, 3),
            field(Rm, 3),
        ]@),
        model(Test, [
            literal(7, 0b1111011), field(W, 1), field(Mod, 2), literal(3, 0b000), field(Rm, 3),
            implied(HasData, 1), implied(WMakesDataW, 1),
        ]@),
        model(Test, [
            literal(7, 0b1010100), field(W, 1), implied(HasData, 1), implied(WMakesDataW, 1),
            implied(Reg, 0), implied(D, 1),
        ]@),
        model(Or, [
            literal(6, 0b000010), field(D, 1), field(W, 1), field(Mod, 2), field(Reg, 3),
            field(Rm, 3),
        ]@),
        model(Or, [
            literal(7, 0b1000000), field(W, 1), field(Mod, 2), literal(3, 0b001), field(Rm, 3),
            implied(HasData, 1), implied(WMakesDataW, 1),
        ]@),
        model(Or, [
            literal(7, 0b0000110), field(W, 1), implied(HasData, 1), implied(WMakesDataW, 1),
            implied(Reg, 0), implied(D, 1),
        ]@),
        model(Xor, [
            literal(6, 0b001100), field(D, 1), field(W, 1), field(Mod, 2), field(Reg, 3),
            field(Rm, 3),
        ]@),
        model(Xor, [
            literal(7, 0b1000000), field(W, 1), field(Mod, 2), literal(3, 0b110), field(Rm, 3),
            implied(HasData, 1), implied(WMakesDataW, 1),
        ]@),
        model(Xor, [
            literal(7, 0b0011010), field(W, 1), implied(HasData, 1), implied(WMakesDataW, 1),
            implied(Reg, 0), implied(D, 1),
        ]@),
    ]
}

/// The repeat prefix and the string operations.
#[verifier::opaque]
pub open spec fn string_formats() -> Seq<FormatModel> {
    seq![
        model(Rep, [literal(7, 0b1111001), field(Z, 1)]@),
        model(Movs, [literal(7, 0b1010010), field(W, 1)]@),
        model(Cmps, [literal(7, 0b1010011), field(W, 1)]@),
        model(Scas, [literal(7, 0b1010111), field(W, 1)]@),
        model(Lods, [literal(7, 0b1010110), field(W, 1)]@),
        model(Stos, [literal(7, 0b1010101), field(W, 1)]@),
    ]
}

/// Calls, jumps, returns, loops and interrupts.
#[verifier::opaque]
pub open spec fn control_transfer_formats() -> Seq<FormatModel> {
    seq![
        model(Call, [literal(8, 0b11101000), implied(HasDisp, 1)]@),
        model(Call, [
            literal(8, 0b11111111), field(Mod, 2), literal(3, 0b010), field(Rm, 3), implied(W, 1),
        ]@),
        model(Call, [
            literal(8, 0b10011010), implied(HasDisp, 1), implied(HasData, 1), implied(W, 1),
        ]@),
        model(Call, [
            literal(8, 0b11111111), field(Mod, 2), literal(3, 0b011), field(Rm, 3), implied(W, 1),
        ]@),
        model(Jmp, [literal(8, 0b11101001), implied(HasDisp, 1)]@),
        model(Jmp, [literal(8, 0b11101011), implied(HasDisp, 1)]@),
        model(Jmp, [
            literal(8, 0b11111111), field(Mod, 2), literal(3, 0b100), field(Rm, 3), implied(W, 1),
        ]@),
        model(Jmp, [
            literal(8, 0b11101010), implied(HasDisp, 1), implied(HasData, 1), implied(W, 1),
        ]@),
        model(Jmp, [
            literal(8, 0b11111111), field(Mod, 2), literal(3, 0b101), field(Rm, 3), implied(W, 1),
        ]@),
        model(Ret, [literal(8, 0b11000011)]@),
        model(Ret, [
            literal(8, 0b11000010), implied(HasData, 1), implied(WMakesDataW, 1), implied(W, 1),
        ]@),
        model(Ret, [literal(8, 0b11001011)]@),
        model(Ret, [
            literal(8, 0b11001010), implied(HasData, 1), implied(WMakesDataW, 1), implied(W, 1),
        ]@),
        model(Je, [literal(8, 0b01110100), implied(HasDisp, 1), implied(RelJmpDisp, 1)]@),
        model(Jl, [literal(8, 0b01111100), implied(HasDisp, 1), implied(RelJmpDisp, 1)]@),
        model(Jle, [literal(8, 0b01111110), implied(HasDisp, 1), implied(RelJmpDisp, 1)]@),
        model(Jb, [literal(8, 0b01110010), implied(HasDisp, 1), implied(RelJmpDisp, 1)]@),
        model(Jbe, [literal(8, 0b01110110), implied(HasDisp, 1), implied(RelJmpDisp, 1)]@),
        model(Jp, [literal(8, 0b01111010), implied(HasDisp, 1), implied(RelJmpDisp, 1)]@),
        model(Jo, [literal(8, 0b01110000), implied(HasDisp, 1), implied(RelJmpDisp, 1)]@),
        model(Js, [literal(8, 0b01111000), implied(HasDisp, 1), implied(RelJmpDisp, 1)]@),
        model(Jne, [literal(8, 0b01110101), implied(HasDisp, 1), implied(RelJmpDisp, 1)]@),
        model(Jnl, [literal(8, 0b01111101), implied(HasDisp, 1), implied(RelJmpDisp, 1)]@),
        model(Jg, [literal(8, 0b01111111), implied(HasDisp, 1), implied(RelJmpDisp, 1)]@),
        model(Jnb, [literal(8, 0b01110011), implied(HasDisp, 1), implied(RelJmpDisp, 1)]@),
        model(Ja, [literal(8, 0b01110111), implied(HasDisp, 1), implied(RelJmpDisp, 1)]@),
        model(Jnp, [literal(8, 0b01111011), implied(HasDisp, 1), implied(RelJmpDisp, 1)]@),
        model(Jno, [literal(8, 0b01110001), implied(HasDisp, 1), implied(RelJmpDisp, 1)]@),
        model(Jns, [literal(8, 0b01111001), implied(HasDisp, 1), implied(RelJmpDisp, 1)]@),
        model(Loop, [literal(8, 0b11100010), implied(HasDisp, 1), implied(RelJmpDisp, 1)]@),
        model(Loopz, [literal(8, 0b11100001), implied(HasDisp, 1), implied(RelJmpDisp, 1)]@),
        model(Loopnz, [literal(8, 0b11100000), implied(HasDisp, 1), implied(RelJmpDisp, 1)]@),
        model(Jcxz, [literal(8, 0b11100011), implied(HasDisp, 1), implied(RelJmpDisp, 1)]@),
        model(Int, [literal(8, 0b11001101), implied(HasData, 1)]@),
        model(Int3, [literal(8, 0b11001100)]@),
        model(Into, [literal(8, 0b11001110)]@),
        model(Iret, [literal(8, 0b11001111)]@),
    ]
}

/// Flag operations, halts and the remaining prefixes.
#[verifier::opaque]
pub open spec fn processor_control_formats() -> Seq<FormatModel> {
    seq![
        model(Clc, [literal(8, 0b11111000)]@),
        model(Cmc, [literal(8, 0b11110101)]@),
        model(Stc, [literal(8, 0b11111001)]@),
        model(Cld, [literal(8, 0b11111100)]@),
        model(Std, [literal(8, 0b11111101)]@),
        model(Cli, [literal(8, 0b11111010)]@),
        model(Sti, [literal(8, 0b11111011)]@),
        model(Hlt, [literal(8, 0b11110100)]@),
        model(Wait, [literal(8, 0b10011011)]@),
        model(Esc, [
            literal(5, 0b11011), field(Data, 3), field(Mod, 2),
            InstructionBits { usage: Data, bit_count: 3, shift: 0, value: 3 }, field(Rm, 3),
        ]@),
        model(Lock, [literal(8, 0b11110000)]@),
        model(Segment, [literal(3, 0b001), field(Sr, 2), literal(3, 0b110)]@),
    ]
}

/// The instruction formats of the 8086, in the order in which a decoder tries
/// them: of two formats that match the same bytes, the earlier one wins.
pub open spec fn instruction_formats() -> Seq<FormatModel> {
    data_transfer_formats()
        + arithmetic_formats()
        + logic_formats()
        + string_formats()
        + control_transfer_formats()
        + processor_control_formats()
}

fn data_transfer() -> (formats: Vec<InstructionFormat>)
    ensures
        table_view(formats@) == data_transfer_formats(),
        all_well_formed(formats@),
{
    reveal(data_transfer_formats);
    let mut formats: Vec<InstructionFormat> = Vec::new();
    push_format(&mut formats, Mov, [
        literal(6, 0b100010), field(D, 1), field(W, 1), field(Mod, 2), field(Reg, 3), field(Rm, 3),
    ]);
    push_format(&mut formats, Mov, [
        literal(7, 0b1100011), field(W, 1), field(Mod, 2), literal(3, 0b000), field(Rm, 3),
        implied(HasData, 1), implied(WMakesDataW, 1), implied(D, 0),
    ]);
    push_format(&mut formats, Mov, [
        literal(4, 0b1011), field(W, 1), field(Reg, 3), implied(HasData, 1),
        implied(WMakesDataW, 1), implied(D, 1),
    ]);
    push_format(&mut formats, Mov, [
        literal(7, 0b1010000), field(W, 1), implied(HasDisp, 1), implied(DispAlwaysW, 1),
        implied(Reg, 0), implied(Mod, 0), implied(Rm, 6), implied(D, 1),
    ]);
    push_format(&mut formats, Mov, [
        literal(7, 0b1010001), field(W, 1), implied(HasDisp, 1), implied(DispAlwaysW, 1),
        implied(Reg, 0), implied(Mod, 0), implied(Rm, 6), implied(D, 0),
    ]);
    push_format(&mut formats, Mov, [
        literal(6, 0b100011), field(D, 1), literal(1, 0b0), field(Mod, 2), literal(1, 0b0),
        field(Sr, 2), field(Rm, 3),
    ]);
    push_format(&mut formats, Push, [
        literal(8, 0b11111111), field(Mod, 2), literal(3, 0b110), field(Rm, 3), implied(W, 1),
    ]);
    push_format(&mut formats, Push, [literal(5, 0b01010), field(Reg, 3), implied(W, 1)]);
    push_format(&mut formats, Push, [
        literal(3, 0b000), field(Sr, 2), literal(3, 0b110), implied(W, 1),
    ]);
    push_format(&mut formats, Pop, [
        literal(8, 0b10001111), field(Mod, 2), literal(3, 0b000), field(Rm, 3), implied(W, 1),
    ]);
    push_format(&mut formats, Pop, [literal(5, 0b01011), field(Reg, 3), implied(W, 1)]);
    push_format(&mut formats, Pop, [
        literal(3, 0b000), field(Sr, 2), literal(3, 0b111), implied(W, 1),
    ]);
    push_format(&mut formats, Xchg, [
        literal(7, 0b1000011), field(W, 1), field(Mod, 2), field(Reg, 3), field(Rm, 3),
        implied(D, 1),
    ]);
    push_format(&mut formats, Xchg, [
        literal(5, 0b10010), field(Reg, 3), implied(Mod, 3), implied(W, 1), implied(Rm, 0),
    ]);
    push_format(&mut formats, In, [
        literal(7, 0b1110010), field(W, 1), implied(HasData, 1), implied(Reg, 0), implied(D, 1),
    ]);
    push_format(&mut formats, In, [
        literal(7, 0b1110110), field(W, 1), implied(Reg, 0), implied(D, 1), implied(Mod, 3),
        implied(Rm, 2), implied(RmRegAlwaysW, 1),
    ]);
    push_format(&mut formats, Out, [
        literal(7, 0b1110011), field(W, 1), implied(HasData, 1), implied(Reg, 0), implied(D, 0),
    ]);
    push_format(&mut formats, Out, [
        literal(7, 0b1110111), field(W, 1), implied(Reg, 0), implied(D, 0), implied(Mod, 3),
        implied(Rm, 2), implied(RmRegAlwaysW, 1),
    ]);
    push_format(&mut formats, Xlat, [literal(8, 0b11010111)]);
    push_format(&mut formats, Lea, [
        literal(8, 0b10001101), field(Mod, 2), field(Reg, 3), field(Rm, 3), implied(D, 1),
        implied(W, 1),
    ]);
    push_format(&mut formats, Lds, [
        literal(8, 0b11000101), field(Mod, 2), field(Reg, 3), field(Rm, 3), implied(D, 1),
        implied(W, 1),
    ]);
    push_format(&mut formats, Les, [
        literal(8, 0b11000100), field(Mod, 2), field(Reg, 3), field(Rm, 3), implied(D, 1),
        implied(W, 1),
    ]);
    push_format(&mut formats, Lahf, [literal(8, 0b10011111)]);
    push_format(&mut formats, Sahf, [literal(8, 0b10011110)]);
    push_format(&mut formats, Pushf, [literal(8, 0b10011100)]);
    push_format(&mut formats, Popf, [literal(8, 0b10011101)]);
    formats
}

fn arithmetic() -> (formats: Vec<InstructionFormat>)
    ensures
        table_view(formats@) == arithmetic_formats(),
        all_well_formed(formats@),
{
    reveal(arithmetic_formats);
    let mut formats: Vec<InstructionFormat> = Vec::new();
    push_format(&mut formats, Add, [
        literal(6, 0b000000), field(D, 1), field(W, 1), field(Mod, 2), field(Reg, 3), field(Rm, 3),
    ]);
    push_format(&mut formats, Add, [
        literal(6, 0b100000), field(S, 1), field(W, 1), field(Mod, 2), literal(3, 0b000),
        field(Rm, 3), implied(HasData, 1), implied(WMakesDataW, 1),
    ]);
    push_format(&mut formats, Add, [
        literal(7, 0b0000010), field(W, 1), implied(HasData, 1), implied(WMakesDataW, 1),
        implied(Reg, 0), implied(D, 1),
    ]);
    push_format(&mut formats, Adc, [
        literal(6, 0b000100), field(D, 1), field(W, 1), field(Mod, 2), field(Reg, 3), field(Rm, 3),
    ]);
    push_format(&mut formats, Adc, [
        literal(6, 0b100000), field(S, 1), field(W, 1), field(Mod, 2), literal(3, 0b010),
        field(Rm, 3), implied(HasData, 1), implied(WMakesDataW, 1),
    ]);
    push_format(&mut formats, Adc, [
        literal(7, 0b0001010), field(W, 1), implied(HasData, 1), implied(WMakesDataW, 1),
        implied(Reg, 0), implied(D, 1),
    ]);
    push_format(&mut formats, Inc, [
        literal(7, 0b1111111), field(W, 1), field(Mod, 2), literal(3, 0b000), field(Rm, 3),
    ]);
    push_format(&mut formats, Inc, [literal(5, 0b01000), field(Reg, 3), implied(W, 1)]);
    push_format(&mut formats, Aaa, [literal(8, 0b00110111)]);
    push_format(&mut formats, Daa, [literal(8, 0b00100111)]);
    push_format(&mut formats, Sub, [
        literal(6, 0b001010), field(D, 1), field(W, 1), field(Mod, 2), field(Reg, 3), field(Rm, 3),
    ]);
    push_format(&mut formats, Sub, [
        literal(6, 0b100000), field(S, 1), field(W, 1), field(Mod, 2), literal(3, 0b101),
        field(Rm, 3), implied(HasData, 1), implied(WMakesDataW, 1),
    ]);
    push_format(&mut formats, Sub, [
        literal(7, 0b0010110), field(W, 1), implied(HasData, 1), implied(WMakesDataW, 1),
        implied(Reg, 0), implied(D, 1),
    ]);
    push_format(&mut formats, Sbb, [
        literal(6, 0b000110), field(D, 1), field(W, 1), field(Mod, 2), field(Reg, 3), field(Rm, 3),
    ]);
    push_format(&mut formats, Sbb, [
        literal(6, 0b100000), field(S, 1), field(W, 1), field(Mod, 2), literal(3, 0b011),
        field(Rm, 3), implied(HasData, 1), implied(WMakesDataW, 1),
    ]);
    push_format(&mut formats, Sbb, [
        literal(7, 0b0001110), field(W, 1), implied(HasData, 1), implied(WMakesDataW, 1),
        implied(Reg, 0), implied(D, 1),
    ]);
    push_format(&mut formats, Dec, [
        literal(7, 0b1111111), field(W, 1), field(Mod, 2), literal(3, 0b001), field(Rm, 3),
    ]);
    push_format(&mut formats, Dec, [literal(5, 0b01001), field(Reg, 3), implied(W, 1)]);
    push_format(&mut formats, Neg, [
        literal(7, 0b1111011), field(W, 1), field(Mod, 2), literal(3, 0b011), field(Rm, 3),
    ]);
    push_format(&mut formats, Cmp, [
        literal(6, 0b001110), field(D, 1), field(W, 1), field(Mod, 2), field(Reg, 3), field(Rm, 3),
    ]);
    push_format(&mut formats, Cmp, [
        literal(6, 0b100000), field(S, 1), field(W, 1), field(Mod, 2), literal(3, 0b111),
        field(Rm, 3), implied(HasData, 1), implied(WMakesDataW, 1),
    ]);
    push_format(&mut formats, Cmp, [
        literal(7, 0b0011110), field(W, 1), implied(HasData, 1), implied(WMakesDataW, 1),
        implied(Reg, 0), implied(D, 1),
    ]);
    push_format(&mut formats, Aas, [literal(8, 0b00111111)]);
    push_format(&mut formats, Das, [literal(8, 0b00101111)]);
    push_format(&mut formats, Mul, [
        literal(7, 0b1111011), field(W, 1), field(Mod, 2), literal(3, 0b100), field(Rm, 3),
        implied(S, 0),
    ]);
    push_format(&mut formats, Imul, [
        literal(7, 0b1111011), field(W, 1), field(Mod, 2), literal(3, 0b101), field(Rm, 3),
        implied(S, 1),
    ]);
    push_format(&mut formats, Aam, [literal(8, 0b11010100), literal(8, 0b00001010)]);
    push_format(&mut formats, Div, [
        literal(7, 0b1111011), field(W, 1), field(Mod, 2), literal(3, 0b110), field(Rm, 3),
        implied(S, 0),
    ]);
    push_format(&mut formats, Idiv, [
        literal(7, 0b1111011), field(W, 1), field(Mod, 2), literal(3, 0b111), field(Rm, 3),
        implied(S, 1),
    ]);
    push_format(&mut formats, Aad, [literal(8, 0b11010101), literal(8, 0b00001010)]);
    push_format(&mut formats, Cbw, [literal(8, 0b10011000)]);
    push_format(&mut formats, Cwd, [literal(8, 0b10011001)]);
    formats
}

fn logic() -> (formats: Vec<InstructionFormat>)
    ensures
        table_view(formats@) == logic_formats(),
        all_well_formed(formats@),
{
    reveal(logic_formats);
    let mut formats: Vec<InstructionFormat> = Vec::new();
    push_format(&mut formats, Not, [
        literal(7, 0b1111011), field(W, 1), field(Mod, 2), literal(3, 0b010), field(Rm, 3),
    ]);
    push_format(&mut formats, Shl, [
        literal(6, 0b110100), field(V, 1), field(W, 1), field(Mod, 2), literal(3, 0b100),
        field(Rm, 3),
    ]);
    push_format(&mut formats, Shr, [
        literal(6, 0b110100), field(V, 1), field(W, 1), field(Mod, 2), literal(3, 0b101),
        field(Rm, 3),
    ]);
    push_format(&mut formats, Sar, [
        literal(6, 0b110100), field(V, 1), field(W, 1), field(Mod, 2), literal(3, 0b111),
        field(Rm, 3),
    ]);
    push_format(&mut formats, Rol, [
        literal(6, 0b110100), field(V, 1), field(W, 1), field(Mod, 2), literal(3, 0b000),
        field(Rm, 3),
    ]);
    push_format(&mut formats, Ror, [
        literal(6, 0b110100), field(V, 1), field(W, 1), field(Mod, 2), literal(3, 0b001),
        field(Rm, 3),
    ]);
    push_format(&mut formats, Rcl, [
        literal(6, 0b110100), field(V, 1), field(W, 1), field(Mod, 2), literal(3, 0b010),
        field(Rm, 3),
    ]);
    push_format(&mut formats, Rcr, [
        literal(6, 0b110100), field(V, 1), field(W, 1), field(Mod, 2), literal(3, 0b011),
        field(Rm, 3),
    ]);
    push_format(&mut formats, And, [
        literal(6, 0b001000), field(D, 1), field(W, 1), field(Mod, 2), field(Reg, 3), field(Rm, 3),
    ]);
    push_format(&mut formats, And, [
        literal(7, 0b1000000), field(W, 1), field(Mod, 2), literal(3, 0b100), field(Rm, 3),
        implied(HasData, 1), implied(WMakesDataW, 1),
    ]);
    push_format(&mut formats, And, [
        literal(7, 0b0010010), field(W, 1), implied(HasData, 1), implied(WMakesDataW, 1),
        implied(Reg, 0), implied(D, 1),
    ]);
    push_format(&mut formats, Test, [
        literal(6, 0b100001), field(D, 1), field(W, 1), field(Mod, 2), field(Reg, 3), field(Rm, 3),
    ]);
    push_format(&mut formats, Test, [
        literal(7, 0b1111011), field(W, 1), field(Mod, 2), literal(3, 0b000), field(Rm, 3),
        implied(HasData, 1), implied(WMakesDataW, 1),
    ]);
    push_format(&mut formats, Test, [
        literal(7, 0b1010100), field(W, 1), implied(HasData, 1), implied(WMakesDataW, 1),
        implied(Reg, 0), implied(D, 1),
    ]);
    push_format(&mut formats, Or, [
        literal(6, 0b000010), field(D, 1), field(W, 1), field(Mod, 2), field(Reg, 3), field(Rm, 3),
    ]);
    push_format(&mut formats, Or, [
        literal(7, 0b1000000), field(W, 1), field(Mod, 2), literal(3, 0b001), field(Rm, 3),
        implied(HasData, 1), implied(WMakesDataW, 1),
    ]);
    push_format(&mut formats, Or, [
        literal(7, 0b0000110), field(W, 1), implied(HasData, 1), implied(WMakesDataW, 1),
        implied(Reg, 0), implied(D, 1),
    ]);
    push_format(&mut formats, Xor, [
        literal(6, 0b001100), field(D, 1), field(W, 1), field(Mod, 2), field(Reg, 3), field(Rm, 3),
    ]);
    push_format(&mut formats, Xor, [
        literal(7, 0b1000000), field(W, 1), field(Mod, 2), literal(3, 0b110), field(Rm, 3),
        implied(HasData, 1), implied(WMakesDataW, 1),
    ]);
    push_format(&mut formats, Xor, [
        literal(7, 0b0011010), field(W, 1), implied(HasData, 1), implied(WMakesDataW, 1),
        implied(Reg, 0), implied(D, 1),
    ]);
    formats
}

fn string() -> (formats: Vec<InstructionFormat>)
    ensures
        table_view(formats@) == string_formats(),
        all_well_formed(formats@),
{
    reveal(string_formats);
    let mut formats: Vec<InstructionFormat> = Vec::new();
    push_format(&mut formats, Rep, [literal(7, 0b1111001), field(Z, 1)]);
    push_format(&mut formats, Movs, [literal(7, 0b1010010), field(W, 1)]);
    push_format(&mut formats, Cmps, [literal(7, 0b1010011), field(W, 1)]);
    push_format(&mut formats, Scas, [literal(7, 0b1010111), field(W, 1)]);
    push_format(&mut formats, Lods, [literal(7, 0b1010110), field(W, 1)]);
    push_format(&mut formats, Stos, [literal(7, 0b1010101), field(W, 1)]);
    formats
}

fn control_transfer() -> (formats: Vec<InstructionFormat>)
    ensures
        table_view(formats@) == control_transfer_formats(),
        all_well_formed(formats@),
{
    reveal(control_transfer_formats);
    let mut formats: Vec<InstructionFormat> = Vec::new();
    push_format(&mut formats, Call, [literal(8, 0b11101000), implied(HasDisp, 1)]);
    push_format(&mut formats, Call, [
        literal(8, 0b11111111), field(Mod, 2), literal(3, 0b010), field(Rm, 3), implied(W, 1),
    ]);
    push_format(&mut formats, Call, [
        literal(8, 0b10011010), implied(HasDisp, 1), implied(HasData, 1), implied(W, 1),
    ]);
    push_format(&mut formats, Call, [
        literal(8, 0b11111111), field(Mod, 2), literal(3, 0b011), field(Rm, 3), implied(W, 1),
    ]);
    push_format(&mut formats, Jmp, [literal(8, 0b11101001), implied(HasDisp, 1)]);
    push_format(&mut formats, Jmp, [literal(8, 0b11101011), implied(HasDisp, 1)]);
    push_format(&mut formats, Jmp, [
        literal(8, 0b11111111), field(Mod, 2), literal(3, 0b100), field(Rm, 3), implied(W, 1),
    ]);
    push_format(&mut formats, Jmp, [
        literal(8, 0b11101010), implied(HasDisp, 1), implied(HasData, 1), implied(W, 1),
    ]);
    push_format(&mut formats, Jmp, [
        literal(8, 0b11111111), field(Mod, 2), literal(3, 0b101), field(Rm, 3), implied(W, 1),
    ]);
    push_format(&mut formats, Ret, [literal(8, 0b11000011)]);
    push_format(&mut formats, Ret, [
        literal(8, 0b11000010), implied(HasData, 1), implied(WMakesDataW, 1), implied(W, 1),
    ]);
    push_format(&mut formats, Ret, [literal(8, 0b11001011)]);
    push_format(&mut formats, Ret, [
        literal(8, 0b11001010), implied(HasData, 1), implied(WMakesDataW, 1), implied(W, 1),
    ]);
    push_format(&mut formats, Je, [
        literal(8, 0b01110100), implied(HasDisp, 1), implied(RelJmpDisp, 1),
    ]);
    push_format(&mut formats, Jl, [
        literal(8, 0b01111100), implied(HasDisp, 1), implied(RelJmpDisp, 1),
    ]);
    push_format(&mut formats, Jle, [
        literal(8, 0b01111110), implied(HasDisp, 1), implied(RelJmpDisp, 1),
    ]);
    push_format(&mut formats, Jb, [
        literal(8, 0b01110010), implied(HasDisp, 1), implied(RelJmpDisp, 1),
    ]);
    push_format(&mut formats, Jbe, [
        literal(8, 0b01110110), implied(HasDisp, 1), implied(RelJmpDisp, 1),
    ]);
    push_format(&mut formats, Jp, [
        literal(8, 0b01111010), implied(HasDisp, 1), implied(RelJmpDisp, 1),
    ]);
    push_format(&mut formats, Jo, [
        literal(8, 0b01110000), implied(HasDisp, 1), implied(RelJmpDisp, 1),
    ]);
    push_format(&mut formats, Js, [
        literal(8, 0b01111000), implied(HasDisp, 1), implied(RelJmpDisp, 1),
    ]);
    push_format(&mut formats, Jne, [
        literal(8, 0b01110101), implied(HasDisp, 1), implied(RelJmpDisp, 1),
    ]);
    push_format(&mut formats, Jnl, [
        literal(8, 0b01111101), implied(HasDisp, 1), implied(RelJmpDisp, 1),
    ]);
    push_format(&mut formats, Jg, [
        literal(8, 0b01111111), implied(HasDisp, 1), implied(RelJmpDisp, 1),
    ]);
    push_format(&mut formats, Jnb, [
        literal(8, 0b01110011), implied(HasDisp, 1), implied(RelJmpDisp, 1),
    ]);
    push_format(&mut formats, Ja, [
        literal(8, 0b01110111), implied(HasDisp, 1), implied(RelJmpDisp, 1),
    ]);
    push_format(&mut formats, Jnp, [
        literal(8, 0b01111011), implied(HasDisp, 1), implied(RelJmpDisp, 1),
    ]);
    push_format(&mut formats, Jno, [
        literal(8, 0b01110001), implied(HasDisp, 1), implied(RelJmpDisp, 1),
    ]);
    push_format(&mut formats, Jns, [
        literal(8, 0b01111001), implied(HasDisp, 1), implied(RelJmpDisp, 1),
    ]);
    push_format(&mut formats, Loop, [
        literal(8, 0b11100010), implied(HasDisp, 1), implied(RelJmpDisp, 1),
    ]);
    push_format(&mut formats, Loopz, [
        literal(8, 0b11100001), implied(HasDisp, 1), implied(RelJmpDisp, 1),
    ]);
    push_format(&mut formats, Loopnz, [
        literal(8, 0b11100000), implied(HasDisp, 1), implied(RelJmpDisp, 1),
    ]);
    push_format(&mut formats, Jcxz, [
        literal(8, 0b11100011), implied(HasDisp, 1), implied(RelJmpDisp, 1),
    ]);
    push_format(&mut formats, Int, [literal(8, 0b11001101), implied(HasData, 1)]);
    push_format(&mut formats, Int3, [literal(8, 0b11001100)]);
    push_format(&mut formats, Into, [literal(8, 0b11001110)]);
    push_format(&mut formats, Iret, [literal(8, 0b11001111)]);
    formats
}

fn processor_control() -> (formats: Vec<InstructionFormat>)
    ensures
        table_view(formats@) == processor_control_formats(),
        all_well_formed(formats@),
{
    reveal(processor_control_formats);
    let mut formats: Vec<InstructionFormat> = Vec::new();
    push_format(&mut formats, Clc, [literal(8, 0b11111000)]);
    push_format(&mut formats, Cmc, [literal(8, 0b11110101)]);
    push_format(&mut formats, Stc, [literal(8, 0b11111001)]);
    push_format(&mut formats, Cld, [literal(8, 0b11111100)]);
    push_format(&mut formats, Std, [literal(8, 0b11111101)]);
    push_format(&mut formats, Cli, [literal(8, 0b11111010)]);
    push_format(&mut formats, Sti, [literal(8, 0b11111011)]);
    push_format(&mut formats, Hlt, [literal(8, 0b11110100)]);
    push_format(&mut formats, Wait, [literal(8, 0b10011011)]);
    push_format(&mut formats, Esc, [
        literal(5, 0b11011), field(Data, 3), field(Mod, 2),
        InstructionBits { usage: Data, bit_count: 3, shift: 0, value: 3 }, field(Rm, 3),
    ]);
    push_format(&mut formats, Lock, [literal(8, 0b11110000)]);
    push_format(&mut formats, Segment, [literal(3, 0b001), field(Sr, 2), literal(3, 0b110)]);
    formats
}

/// A table built by appending the formats of `tail` to those of `head` holds
/// the formats of both, in that order.
proof fn lemma_table_view_add(head: Seq<InstructionFormat>, tail: Seq<InstructionFormat>)
    ensures
        table_view(head + tail) =~= table_view(head) + table_view(tail),
        all_well_formed(head) && all_well_formed(tail) ==> all_well_formed(head + tail),
{
    if all_well_formed(head) && all_well_formed(tail) {
        assert forall|i: int| 0 <= i < (head + tail).len() implies (#[trigger] (head
        + tail)[i])@.well_formed() by {
            if i < head.len() {
                assert(head[i]@.well_formed());
            } else {
                assert(tail[i - head.len()]@.well_formed());
            }
        }
    }
}

/// Every format of `formats` is regular.
pub open spec fn all_regular(formats: Seq<FormatModel>) -> bool {
    forall|i: int| 0 <= i < formats.len() ==> (#[trigger] formats[i]).is_regular()
}

/// Where every format of `head` and of `tail` is regular, so is every format
/// of the two put together.
proof fn lemma_all_regular_add(head: Seq<FormatModel>, tail: Seq<FormatModel>)
    requires
        all_regular(head),
        all_regular(tail),
    ensures
        all_regular(head + tail),
{
    assert forall|i: int| 0 <= i < (head + tail).len() implies (#[trigger] (head
        + tail)[i]).is_regular() by {
        if i < head.len() {
            assert(head[i].is_regular());
        } else {
            assert(tail[i - head.len()].is_regular());
        }
    }
}

/// Every format of this group is regular.
proof fn lemma_data_transfer_regular()
    ensures
        all_regular(data_transfer_formats()),
{
    reveal(data_transfer_formats);
    reveal_with_fuel(width_from, 9);
}

/// Every format of this group is regular.
proof fn lemma_arithmetic_regular()
    ensures
        all_regular(arithmetic_formats()),
{
    reveal(arithmetic_formats);
    reveal_with_fuel(width_from, 9);
}

/// Every format of this group is regular.
proof fn lemma_logic_regular()
    ensures
        all_regular(logic_formats()),
{
    reveal(logic_formats);
    reveal_with_fuel(width_from, 9);
}

/// Every format of this group is regular.
proof fn lemma_string_regular()
    ensures
        all_regular(string_formats()),
{
    reveal(string_formats);
    reveal_with_fuel(width_from, 9);
}

/// Every format of this group is regular.
proof fn lemma_control_transfer_regular()
    ensures
        all_regular(control_transfer_formats()),
{
    reveal(control_transfer_formats);
    reveal_with_fuel(width_from, 9);
}

/// Every format of this group is regular.
proof fn lemma_processor_control_regular()
    ensures
        all_regular(processor_control_formats()),
{
    reveal(processor_control_formats);
    reveal_with_fuel(width_from, 9);
}

/// Every instruction format is regular.
pub proof fn lemma_instruction_formats_regular()
    ensures
        all_regular(instruction_formats()),
{
    lemma_data_transfer_regular();
    lemma_arithmetic_regular();
    lemma_logic_regular();
    lemma_string_regular();
    lemma_control_transfer_regular();
    lemma_processor_control_regular();
    let head = data_transfer_formats();
    lemma_all_regular_add(head, arithmetic_formats());
    let head = head + arithmetic_formats();
    lemma_all_regular_add(head, logic_formats());
    let head = head + logic_formats();
    lemma_all_regular_add(head, string_formats());
    let head = head + string_formats();
    lemma_all_regular_add(head, control_transfer_formats());
    let head = head + control_transfer_formats();
    lemma_all_regular_add(head, processor_control_formats());
}

/// There are 133 instruction formats.
pub proof fn lemma_instruction_formats_len()
    ensures
        instruction_formats().len() == 133,
{
    reveal(data_transfer_formats);
    reveal(arithmetic_formats);
    reveal(logic_formats);
    reveal(string_formats);
    reveal(control_transfer_formats);
    reveal(processor_control_formats);
}

/// The table of instruction formats.
pub fn get_instruction_formats() -> (formats: Vec<InstructionFormat>)
    ensures
        table_view(formats@) == instruction_formats(),
        all_well_formed(formats@),
        formats.len() == 133,
{
    proof {
        lemma_instruction_formats_len();
    }
    let mut formats = data_transfer();
    let mut group = arithmetic();
    proof {
        lemma_table_view_add(formats@, group@);
    }
    formats.append(&mut group);
    let mut group = logic();
    proof {
        lemma_table_view_add(formats@, group@);
    }
    formats.append(&mut group);
    let mut group = string();
    proof {
        lemma_table_view_add(formats@, group@);
    }
    formats.append(&mut group);
    let mut group = control_transfer();
    proof {
        lemma_table_view_add(formats@, group@);
    }
    formats.append(&mut group);
    let mut group = processor_control();
    proof {
        lemma_table_view_add(formats@, group@);
    }
    formats.append(&mut group);
    formats
}

} // verus!
