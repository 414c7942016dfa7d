//! Decoding: from the bytes at a cursor to an instruction record, and the
//! prefix state that one instruction hands to the next.

use vstd::prelude::*;

use crate::instruction_formats::{
    all_regular, all_well_formed, get_instruction_formats, instruction_formats,
    lemma_instruction_formats_regular, segment_override_format, table_view, width_from,
    FormatModel, InstructionBits, InstructionBitsUsage, InstructionFormat, OperationType,
    USAGE_COUNT,
};
use crate::memory::{Memory, SegmentedAccess};
pub use crate::register::{
    EffectiveAddressBase, EffectiveAddressExpression, RegisterAccess, RegisterIndex,
};

verus! {

/// The bits of the flags that an instruction carries.
#[derive(Debug, Clone, Copy)]
pub struct InstructionFlag;

impl InstructionFlag {
    /// A `lock` prefix came before the instruction.
    pub const LOCK: u32 = 0x1;

    /// A `rep` prefix came before the instruction.
    pub const REP: u32 = 0x2;

    /// A segment override came before the instruction.
    pub const SEGMENT: u32 = 0x4;

    /// The operands are sixteen bits wide.
    pub const WIDE: u32 = 0x8;
}

/// One operand of an instruction. `Absent` stands for no operand.
#[derive(Debug, Clone, Copy, PartialEq, Eq, Structural)]
pub enum Operand {
    Absent,
    Register(RegisterAccess),
    Memory(EffectiveAddressExpression),
    ImmediateU32(u32),
    ImmediateS32(i32),
    RelativeImmediate(i32),
}

impl Default for Operand {
    fn default() -> (operand: Self)
        ensures
            operand == Operand::Absent,
    {
        Operand::Absent
    }
}

/// A decoded instruction: where it starts, how many bytes it takes, what it
/// does, its flags and its two operands.
#[derive(Debug, Clone, Copy)]
pub struct Instruction {
    pub address: u32,
    pub size: u32,
    pub op: OperationType,
    pub flags: u32,
    pub operands: [Operand; 2],
}

impl Instruction {
    /// The record that stands for bytes that encode no instruction: no
    /// operation, no bytes, no operands.
    pub open spec fn unrecognized() -> Instruction {
        Instruction {
            address: 0,
            size: 0,
            op: OperationType::Unrecognized,
            flags: 0,
            operands: [Operand::Absent, Operand::Absent],
        }
    }
}

impl Default for Instruction {
    fn default() -> (instruction: Self)
        ensures
            instruction == Instruction::unrecognized(),
    {
        Self {
            address: 0,
            size: 0,
            op: OperationType::Unrecognized,
            flags: 0,
            operands: [Operand::Absent, Operand::Absent],
        }
    }
}

/// What the prefixes seen so far hand to the next instruction: the segment
/// that its memory operand is in, and the flags that it takes over.
pub struct DisasmContext {
    pub default_segment: RegisterIndex,
    pub additional_flags: u32,
}

impl DisasmContext {
    /// The state with no prefix pending: segment `ds` and no flags.
    pub open spec fn initial() -> DisasmContext {
        DisasmContext { default_segment: RegisterIndex::Ds, additional_flags: 0 }
    }

    /// Whether `instruction` can be taken into account: a segment override
    /// names its segment register in its second operand.
    pub open spec fn accepts(instruction: Instruction) -> bool {
        instruction.op == OperationType::Segment ==> instruction.operands[1] is Register
    }

    /// The state after `instruction`. A prefix adds its flag to those pending,
    /// and a segment override also replaces the segment; any other
    /// instruction uses the pending prefixes up.
    pub open spec fn after(self, instruction: Instruction) -> DisasmContext {
        match instruction.op {
            OperationType::Lock => DisasmContext {
                additional_flags: self.additional_flags | InstructionFlag::LOCK,
                ..self
            },
            OperationType::Rep => DisasmContext {
                additional_flags: self.additional_flags | InstructionFlag::REP,
                ..self
            },
            OperationType::Segment => DisasmContext {
                default_segment: instruction.operands[1]->Register_0.index,
                additional_flags: self.additional_flags | InstructionFlag::SEGMENT,
            },
            _ => DisasmContext::initial(),
        }
    }

    /// The state at the start of an instruction stream.
    pub fn new() -> (context: Self)
        ensures
            context == DisasmContext::initial(),
    {
        Self { default_segment: RegisterIndex::Ds, additional_flags: 0 }
    }

    /// Takes `instruction` into account.
    pub fn update(&mut self, instruction: &Instruction)
        requires
            DisasmContext::accepts(*instruction),
        ensures
            *final(self) == old(self).after(*instruction),
    {
        match instruction.op {
            OperationType::Lock => {
                self.additional_flags |= InstructionFlag::LOCK;
            },
            OperationType::Rep => {
                self.additional_flags |= InstructionFlag::REP;
            },
            OperationType::Segment => {
                self.additional_flags |= InstructionFlag::SEGMENT;
                if let Operand::Register(reg) = instruction.operands[1] {
                    self.default_segment = reg.index;
                }
            },
            _ => {
                self.additional_flags = 0;
                self.default_segment = RegisterIndex::Ds;
            },
        }
    }
}

/// The register operand that a three-bit register code names. Narrow, the
/// codes name the low bytes of `a`, `c`, `d`, `b` and then their high bytes;
/// wide, they name `a`, `c`, `d`, `b` and then `sp`, `bp`, `si`, `di`.
pub open spec fn register_operand(code: u32, wide: bool) -> Operand {
    let low = code % 8;
    let general = if low % 4 == 0 {
        RegisterIndex::A
    } else if low % 4 == 1 {
        RegisterIndex::C
    } else if low % 4 == 2 {
        RegisterIndex::D
    } else {
        RegisterIndex::B
    };
    let pointer = if low == 4 {
        RegisterIndex::Sp
    } else if low == 5 {
        RegisterIndex::Bp
    } else if low == 6 {
        RegisterIndex::Si
    } else {
        RegisterIndex::Di
    };
    Operand::Register(
        if !wide {
            RegisterAccess { index: general, offset: (low / 4) as u8, count: 1 }
        } else if low < 4 {
            RegisterAccess { index: general, offset: 0, count: 2 }
        } else {
            RegisterAccess { index: pointer, offset: 0, count: 2 }
        },
    )
}

/// The operand that a two-bit segment register code names.
pub open spec fn segment_operand(code: u32) -> Operand {
    let low = code % 4;
    Operand::Register(
        RegisterAccess {
            index: if low == 0 {
                RegisterIndex::Es
            } else if low == 1 {
                RegisterIndex::Cs
            } else if low == 2 {
                RegisterIndex::Ss
            } else {
                RegisterIndex::Ds
            },
            offset: 0,
            count: 2,
        },
    )
}

/// The base of the memory operand that addressing mode `mode` and code `rm`
/// name. Mode 0 with code 6 is an address without a base.
pub open spec fn address_base(mode: u32, rm: u32) -> EffectiveAddressBase {
    if mode == 0 && rm == 6 {
        EffectiveAddressBase::Direct
    } else if rm == 0 {
        EffectiveAddressBase::BxSi
    } else if rm == 1 {
        EffectiveAddressBase::BxDi
    } else if rm == 2 {
        EffectiveAddressBase::BpSi
    } else if rm == 3 {
        EffectiveAddressBase::BpDi
    } else if rm == 4 {
        EffectiveAddressBase::Si
    } else if rm == 5 {
        EffectiveAddressBase::Di
    } else if rm == 6 {
        EffectiveAddressBase::Bp
    } else if rm == 7 {
        EffectiveAddressBase::Bx
    } else {
        EffectiveAddressBase::Direct
    }
}

/// The byte of memory under the cursor `at`.
pub open spec fn byte_at(memory: Seq<u8>, at: SegmentedAccess) -> u8 {
    memory[at.address(0)]
}

/// A byte read as a number from -128 to 127.
pub open spec fn signed_byte(byte: u8) -> int {
    if byte < 0x80 {
        byte as int
    } else {
        byte - 0x100
    }
}

/// The low sixteen bits of `value` read as a number from -32768 to 32767.
pub open spec fn signed_word(value: int) -> int {
    let low = value % 0x1_0000;
    if low < 0x8000 {
        low
    } else {
        low - 0x1_0000
    }
}

/// The number of bytes that a value following the opcode takes.
pub open spec fn value_len(exists: bool, wide: bool) -> nat {
    if !exists {
        0
    } else if wide {
        2
    } else {
        1
    }
}

/// The value that follows the opcode at `at`, if there is one: two bytes, low
/// byte first, where it is wide, else one byte, read as a signed number where
/// it is to be sign-extended. A value that is not there counts as zero.
pub open spec fn value_at(
    memory: Seq<u8>,
    at: SegmentedAccess,
    exists: bool,
    wide: bool,
    sign_extended: bool,
) -> int {
    if !exists {
        0
    } else if wide {
        byte_at(memory, at) + 0x100 * byte_at(memory, at.advanced(1))
    } else if sign_extended {
        signed_byte(byte_at(memory, at))
    } else {
        byte_at(memory, at) as int
    }
}

/// What the fields of a format have yielded, up to some field.
pub struct FieldValues {
    /// For each kind of field, the value collected under it.
    pub values: Seq<u32>,
    /// For each kind of field, whether the format has named it.
    pub present: Seq<bool>,
    /// The number of bytes read from the instruction stream.
    pub consumed: nat,
    /// The number of bits of the last byte read that no field has taken yet.
    pub pending: nat,
}

impl FieldValues {
    /// The state before the first field: nothing collected, nothing read.
    pub open spec fn empty() -> FieldValues {
        FieldValues {
            values: Seq::new(USAGE_COUNT as nat, |i: int| 0u32),
            present: Seq::new(USAGE_COUNT as nat, |i: int| false),
            consumed: 0,
            pending: 0,
        }
    }

    /// The value collected under `usage`.
    pub open spec fn value(self, usage: InstructionBitsUsage) -> u32 {
        self.values[usage.spec_index() as int]
    }

    /// Whether the format has named `usage`.
    pub open spec fn has(self, usage: InstructionBitsUsage) -> bool {
        self.present[usage.spec_index() as int]
    }

    /// Whether the value collected under `usage` is other than zero.
    pub open spec fn is_set(self, usage: InstructionBitsUsage) -> bool {
        self.value(usage) != 0
    }

    /// The operand is addressed directly: mode 0 with code 6.
    pub open spec fn has_direct_address(self) -> bool {
        self.value(InstructionBitsUsage::Mod) == 0 && self.value(InstructionBitsUsage::Rm) == 6
    }

    /// A displacement follows the opcode: the format says so, or the
    /// addressing mode is 1 or 2, or the operand is addressed directly.
    pub open spec fn has_displacement(self) -> bool {
        self.is_set(InstructionBitsUsage::HasDisp) || self.value(InstructionBitsUsage::Mod) == 2
            || self.value(InstructionBitsUsage::Mod) == 1 || self.has_direct_address()
    }

    /// The displacement is sixteen bits wide: the format says so, or the
    /// addressing mode is 2, or the operand is addressed directly.
    pub open spec fn displacement_is_wide(self) -> bool {
        self.is_set(InstructionBitsUsage::DispAlwaysW) || self.value(InstructionBitsUsage::Mod)
            == 2 || self.has_direct_address()
    }

    /// An immediate follows the displacement.
    pub open spec fn has_data(self) -> bool {
        self.is_set(InstructionBitsUsage::HasData)
    }

    /// The immediate is sixteen bits wide: the format lets the width of the
    /// operands decide, they are wide, and the immediate is not sign-extended.
    pub open spec fn data_is_wide(self) -> bool {
        self.is_set(InstructionBitsUsage::WMakesDataW) && !self.is_set(InstructionBitsUsage::S)
            && self.is_set(InstructionBitsUsage::W)
    }

    /// The number of bytes of the whole instruction: those that the fields
    /// have read, the displacement and the immediate.
    pub open spec fn size(self) -> nat {
        self.consumed + value_len(self.has_displacement(), self.displacement_is_wide())
            + value_len(self.has_data(), self.data_is_wide())
    }

    /// The displacement of the instruction that starts at `at`.
    pub open spec fn displacement(self, memory: Seq<u8>, at: SegmentedAccess) -> int {
        signed_word(
            value_at(
                memory,
                at.advanced(self.consumed),
                self.has_displacement(),
                self.displacement_is_wide(),
                !self.displacement_is_wide(),
            ),
        )
    }

    /// The immediate of the instruction that starts at `at`.
    pub open spec fn data(self, memory: Seq<u8>, at: SegmentedAccess) -> int {
        value_at(
            memory,
            at.advanced(self.consumed).advanced(
                value_len(self.has_displacement(), self.displacement_is_wide()),
            ),
            self.has_data(),
            self.data_is_wide(),
            self.is_set(InstructionBitsUsage::S),
        )
    }

    /// The operand that the register field names: a general register, else a
    /// segment register, else none.
    pub open spec fn register_field_operand(self) -> Operand {
        if self.has(InstructionBitsUsage::Reg) {
            register_operand(
                self.value(InstructionBitsUsage::Reg),
                self.is_set(InstructionBitsUsage::W),
            )
        } else if self.has(InstructionBitsUsage::Sr) {
            segment_operand(self.value(InstructionBitsUsage::Sr))
        } else {
            Operand::Absent
        }
    }

    /// The operand that the mode and the register-or-memory code name: a
    /// register for mode 3, else a place in memory.
    pub open spec fn mode_field_operand(
        self,
        context: DisasmContext,
        memory: Seq<u8>,
        at: SegmentedAccess,
    ) -> Operand {
        if !self.has(InstructionBitsUsage::Mod) {
            Operand::Absent
        } else if self.value(InstructionBitsUsage::Mod) == 3 {
            register_operand(
                self.value(InstructionBitsUsage::Rm),
                self.is_set(InstructionBitsUsage::W) || self.is_set(
                    InstructionBitsUsage::RmRegAlwaysW,
                ),
            )
        } else {
            Operand::Memory(
                EffectiveAddressExpression {
                    segment: context.default_segment,
                    base: address_base(
                        self.value(InstructionBitsUsage::Mod),
                        self.value(InstructionBitsUsage::Rm),
                    ),
                    displacement: self.displacement(memory, at) as i32,
                },
            )
        }
    }

    /// The operand that comes after those the fields name, if any: the target
    /// of a relative jump as an offset from the start of the instruction; else
    /// the immediate; else, for a shift or rotate, the count, which is `cl` or
    /// one.
    pub open spec fn trailing_operand(self, memory: Seq<u8>, at: SegmentedAccess) -> Option<
        Operand,
    > {
        if self.is_set(InstructionBitsUsage::RelJmpDisp) {
            Some(Operand::RelativeImmediate((self.displacement(memory, at) + self.size()) as i32))
        } else if self.has_data() {
            Some(Operand::ImmediateS32(self.data(memory, at) as i32))
        } else if self.has(InstructionBitsUsage::V) {
            if self.is_set(InstructionBitsUsage::V) {
                Some(
                    Operand::Register(
                        RegisterAccess { index: RegisterIndex::C, offset: 0, count: 1 },
                    ),
                )
            } else {
                Some(Operand::ImmediateS32(1))
            }
        } else {
            None
        }
    }

    /// The two operands. The direction bit puts the operand of the register
    /// field first and that of the mode field second, or the other way round
    /// when clear. The trailing operand takes the first place if that is still
    /// free, else the second.
    pub open spec fn operands(
        self,
        context: DisasmContext,
        memory: Seq<u8>,
        at: SegmentedAccess,
    ) -> [Operand; 2] {
        let by_register = self.register_field_operand();
        let by_mode = self.mode_field_operand(context, memory, at);
        let first = if self.is_set(InstructionBitsUsage::D) {
            by_register
        } else {
            by_mode
        };
        let second = if self.is_set(InstructionBitsUsage::D) {
            by_mode
        } else {
            by_register
        };
        match self.trailing_operand(memory, at) {
            None => [first, second],
            Some(trailing) => if first is Absent {
                [trailing, second]
            } else {
                [first, trailing]
            },
        }
    }

    /// The instruction for operation `op` that these field values describe.
    pub open spec fn instruction(
        self,
        context: DisasmContext,
        op: OperationType,
        memory: Seq<u8>,
        at: SegmentedAccess,
    ) -> Instruction {
        Instruction {
            address: at.address(0) as u32,
            size: self.size() as u32,
            op,
            flags: if self.is_set(InstructionBitsUsage::W) {
                context.additional_flags | InstructionFlag::WIDE
            } else {
                context.additional_flags
            },
            operands: self.operands(context, memory, at),
        }
    }
}

/// The `count` bits of `byte` above its lowest `below` bits.
pub open spec fn bits_of(byte: u8, below: nat, count: nat) -> u32 {
    ((byte as u32) >> (below as u32)) & (((1u32 << (count as u32)) - 1) as u32)
}

/// The state after `value` has been read for `field`: nothing changes for a
/// literal that reads as it must; a literal that does not makes the format
/// fail; any other value is collected under the usage of the field.
pub open spec fn collect(field: InstructionBits, value: u32, state: FieldValues) -> Option<
    FieldValues,
> {
    let index = field.usage.spec_index() as int;
    if field.usage == InstructionBitsUsage::Literal {
        if value == field.value {
            Some(state)
        } else {
            None
        }
    } else {
        Some(
            FieldValues {
                values: state.values.update(index, state.values[index] | (value << field.shift)),
                present: state.present.update(index, true),
                ..state
            },
        )
    }
}

/// The state after `field` of the instruction at `at`. A field of no bits
/// yields its own value. Any other field takes its bits from the byte last
/// read, highest bits first, and a new byte is read when none are left; a
/// field wider than what is left of the byte makes the format fail.
pub open spec fn read_field(
    field: InstructionBits,
    memory: Seq<u8>,
    at: SegmentedAccess,
    state: FieldValues,
) -> Option<FieldValues> {
    if field.bit_count == 0 {
        collect(field, field.value as u32, state)
    } else {
        let consumed = if state.pending == 0 {
            state.consumed + 1
        } else {
            state.consumed
        };
        let pending = if state.pending == 0 {
            8
        } else {
            state.pending
        };
        if field.bit_count > pending {
            None
        } else {
            let below = (pending - field.bit_count) as nat;
            collect(
                field,
                bits_of(
                    byte_at(memory, at.advanced((consumed - 1) as nat)),
                    below,
                    field.bit_count as nat,
                ),
                FieldValues { consumed, pending: below, ..state },
            )
        }
    }
}

/// The state after the fields of `bits` from field `from` on, or `None` where
/// one of them makes the format fail. A literal of no bits ends the format.
pub open spec fn scan(
    bits: Seq<InstructionBits>,
    memory: Seq<u8>,
    at: SegmentedAccess,
    from: int,
    state: FieldValues,
) -> Option<FieldValues>
    decreases bits.len() - from,
{
    if from < 0 || from >= bits.len() || bits[from].ends_format() {
        Some(state)
    } else {
        match read_field(bits[from], memory, at, state) {
            None => None,
            Some(next) => scan(bits, memory, at, from + 1, next),
        }
    }
}

/// The instruction that the bytes at `at` encode in `format`, or `None` where
/// they do not match it.
pub open spec fn decoded_as(
    context: DisasmContext,
    format: FormatModel,
    memory: Seq<u8>,
    at: SegmentedAccess,
) -> Option<Instruction> {
    match scan(format.bits, memory, at, 0, FieldValues::empty()) {
        None => None,
        Some(fields) => Some(fields.instruction(context, format.op, memory, at)),
    }
}

/// The instruction that the bytes at `at` encode in the first of `formats`,
/// from format `from` on, that they match.
pub open spec fn first_match(
    context: DisasmContext,
    formats: Seq<FormatModel>,
    memory: Seq<u8>,
    at: SegmentedAccess,
    from: int,
) -> Option<Instruction>
    decreases formats.len() - from,
{
    if from < 0 || from >= formats.len() {
        None
    } else {
        match decoded_as(context, formats[from], memory, at) {
            Some(instruction) => Some(instruction),
            None => first_match(context, formats, memory, at, from + 1),
        }
    }
}

/// The instruction at `at`: that of the first instruction format that the
/// bytes match, or the unrecognized instruction where they match none.
pub open spec fn decoded(
    context: DisasmContext,
    memory: Seq<u8>,
    at: SegmentedAccess,
) -> Instruction {
    match first_match(context, instruction_formats(), memory, at, 0) {
        Some(instruction) => instruction,
        None => Instruction::unrecognized(),
    }
}

/// The fields of a format as a decoder holds them while it reads.
struct Scanned {
    values: [u32; USAGE_COUNT],
    present: [bool; USAGE_COUNT],
    consumed: u16,
    pending: u8,
    cursor: SegmentedAccess,
}

impl View for Scanned {
    type V = FieldValues;

    closed spec fn view(&self) -> FieldValues {
        FieldValues {
            values: self.values@,
            present: self.present@,
            consumed: self.consumed as nat,
            pending: self.pending as nat,
        }
    }
}

impl Scanned {
    /// The value collected under `usage`.
    fn value(&self, usage: InstructionBitsUsage) -> (value: u32)
        ensures
            value == self@.value(usage),
    {
        self.values[usage.index()]
    }

    /// Whether the format has named `usage`.
    fn has(&self, usage: InstructionBitsUsage) -> (present: bool)
        ensures
            present == self@.has(usage),
    {
        self.present[usage.index()]
    }

    /// Whether the value collected under `usage` is other than zero.
    fn is_set(&self, usage: InstructionBitsUsage) -> (set: bool)
        ensures
            set == self@.is_set(usage),
    {
        self.values[usage.index()] != 0
    }
}

/// The register operand that a three-bit register code names.
pub fn get_reg_operand(intel_reg_index: u32, wide: bool) -> (operand: Operand)
    ensures
        operand == register_operand(intel_reg_index, wide),
{
    assert(intel_reg_index & 0x7 == intel_reg_index % 8) by (bit_vector);
    let code: u32 = intel_reg_index & 0x7;
    let general = match code {
        0 | 4 => RegisterIndex::A,
        1 | 5 => RegisterIndex::C,
        2 | 6 => RegisterIndex::D,
        _ => RegisterIndex::B,
    };
    let access = if !wide {
        let offset: u8 = if code < 4 {
            0
        } else {
            1
        };
        RegisterAccess { index: general, offset, count: 1 }
    } else {
        let index = match code {
            4 => RegisterIndex::Sp,
            5 => RegisterIndex::Bp,
            6 => RegisterIndex::Si,
            7 => RegisterIndex::Di,
            _ => general,
        };
        RegisterAccess { index, offset: 0, count: 2 }
    };
    Operand::Register(access)
}

/// The operand that a two-bit segment register code names.
fn get_segment_operand(code: u32) -> (operand: Operand)
    ensures
        operand == segment_operand(code),
{
    assert(code & 0x3 == code % 4) by (bit_vector);
    let index = match code & 0x3 {
        0 => RegisterIndex::Es,
        1 => RegisterIndex::Cs,
        2 => RegisterIndex::Ss,
        _ => RegisterIndex::Ds,
    };
    Operand::Register(RegisterAccess { index, offset: 0, count: 2 })
}

/// The base of the memory operand that addressing mode `mode` and code `rm`
/// name.
fn get_address_base(mode: u32, rm: u32) -> (base: EffectiveAddressBase)
    ensures
        base == address_base(mode, rm),
{
    if mode == 0 && rm == 6 {
        EffectiveAddressBase::Direct
    } else {
        match rm {
            0 => EffectiveAddressBase::BxSi,
            1 => EffectiveAddressBase::BxDi,
            2 => EffectiveAddressBase::BpSi,
            3 => EffectiveAddressBase::BpDi,
            4 => EffectiveAddressBase::Si,
            5 => EffectiveAddressBase::Di,
            6 => EffectiveAddressBase::Bp,
            7 => EffectiveAddressBase::Bx,
            _ => EffectiveAddressBase::Direct,
        }
    }
}

/// Reads the value that follows the opcode at `access`, if there is one, and
/// moves `access` past it.
pub fn parse_data_value(
    memory: &Memory,
    access: &mut SegmentedAccess,
    exists: bool,
    wide: bool,
    sign_extended: bool,
) -> (value: i32)
    requires
        memory.wf(),
    ensures
        value == value_at(memory@, *old(access), exists, wide, sign_extended),
        *final(access) == old(access).advanced(value_len(exists, wide)),
        -0x80 <= value <= 0xffff,
{
    if !exists {
        return 0;
    }
    let low: u8 = memory.read(access.get_absolute_address(0));
    access.step();
    if wide {
        let high: u8 = memory.read(access.get_absolute_address(0));
        access.step();
        0x100 * (high as i32) + (low as i32)
    } else if sign_extended && low >= 0x80 {
        (low as i32) - 0x100
    } else {
        low as i32
    }
}

/// Reads the fields of `format` from the bytes at `at`.
fn scan_fields(format: &InstructionFormat, memory: &Memory, at: SegmentedAccess) -> (found: Option<
    Scanned,
>)
    requires
        memory.wf(),
        format@.well_formed(),
    ensures
        match found {
            Some(fields) => {
                &&& scan(format@.bits, memory@, at, 0, FieldValues::empty()) == Some(fields@)
                &&& fields.cursor == at.advanced(fields@.consumed)
                &&& fields@.consumed <= format@.bits.len()
            },
            None => scan(format@.bits, memory@, at, 0, FieldValues::empty()) is None,
        },
{
    let mut fields = Scanned {
        values: [0u32; USAGE_COUNT],
        present: [false; USAGE_COUNT],
        consumed: 0,
        pending: 0,
        cursor: at,
    };
    let mut byte: u8 = 0;
    let mut i: usize = 0;
    assert(fields@ =~= FieldValues::empty()) by {
        assert(fields@.values =~= FieldValues::empty().values);
        assert(fields@.present =~= FieldValues::empty().present);
    }
    while i < format.bits.len()
        invariant
            memory.wf(),
            format@.well_formed(),
            i <= format.bits.len(),
            fields.consumed <= i,
            fields.pending <= 8,
            fields.cursor == at.advanced(fields.consumed as nat),
            fields.pending > 0 ==> fields.consumed > 0 && byte == byte_at(
                memory@,
                at.advanced((fields.consumed - 1) as nat),
            ),
            scan(format@.bits, memory@, at, 0, FieldValues::empty()) == scan(
                format@.bits,
                memory@,
                at,
                i as int,
                fields@,
            ),
        ensures
            scan(format@.bits, memory@, at, 0, FieldValues::empty()) == Some(fields@),
            fields.cursor == at.advanced(fields.consumed as nat),
            fields.consumed <= format.bits.len(),
        decreases format.bits.len() - i,
    {
        let field: InstructionBits = format.bits[i];
        let literal: bool = match field.usage {
            InstructionBitsUsage::Literal => true,
            _ => false,
        };
        if literal && field.bit_count == 0 {
            break;
        }
        let ghost before = fields@;
        let mut read: u32 = field.value as u32;
        if field.bit_count != 0 {
            if fields.pending == 0 {
                byte = memory.read(fields.cursor.get_absolute_address(0));
                fields.cursor.step();
                fields.consumed = fields.consumed + 1;
                fields.pending = 8;
            }
            if field.bit_count > fields.pending {
                return None;
            }
            fields.pending = fields.pending - field.bit_count;
            let below: u32 = fields.pending as u32;
            let count: u32 = field.bit_count as u32;
            assert(1u32 << count >= 1) by (bit_vector)
                requires
                    count <= 8,
            ;
            read = ((byte as u32) >> below) & ((1u32 << count) - 1);
        }
        if literal {
            if read != field.value as u32 {
                return None;
            }
        } else {
            let index: usize = field.usage.index();
            fields.values[index] = fields.values[index] | (read << field.shift);
            fields.present[index] = true;
        }
        assert(read_field(field, memory@, at, before) == Some(fields@));
        i += 1;
    }
    Some(fields)
}

/// The instruction for operation `op` that `fields` describe.
fn resolve(
    context: &DisasmContext,
    op: OperationType,
    fields: &Scanned,
    memory: &Memory,
    at: SegmentedAccess,
) -> (instruction: Instruction)
    requires
        memory.wf(),
        fields.cursor == at.advanced(fields@.consumed),
    ensures
        instruction == fields@.instruction(*context, op, memory@, at),
        instruction.size <= fields@.consumed + 4,
{
    let mode: u32 = fields.value(InstructionBitsUsage::Mod);
    let rm: u32 = fields.value(InstructionBitsUsage::Rm);
    let w: bool = fields.is_set(InstructionBitsUsage::W);
    let s: bool = fields.is_set(InstructionBitsUsage::S);
    let d: bool = fields.is_set(InstructionBitsUsage::D);

    let has_direct_address: bool = mode == 0 && rm == 6;
    let has_displacement: bool = fields.is_set(InstructionBitsUsage::HasDisp) || mode == 2 || mode
        == 1 || has_direct_address;
    let displacement_is_w: bool = fields.is_set(InstructionBitsUsage::DispAlwaysW) || mode == 2
        || has_direct_address;
    let has_data: bool = fields.is_set(InstructionBitsUsage::HasData);
    let data_is_w: bool = fields.is_set(InstructionBitsUsage::WMakesDataW) && !s && w;

    let mut cursor = fields.cursor;
    let displacement: i32 = to_signed_word(
        parse_data_value(
            memory,
            &mut cursor,
            has_displacement,
            displacement_is_w,
            !displacement_is_w,
        ),
    );
    let data: i32 = parse_data_value(memory, &mut cursor, has_data, data_is_w, s);
    let size: u32 = fields.consumed as u32 + value_size(has_displacement, displacement_is_w)
        + value_size(has_data, data_is_w);

    let by_register = if fields.has(InstructionBitsUsage::Reg) {
        get_reg_operand(fields.value(InstructionBitsUsage::Reg), w)
    } else if fields.has(InstructionBitsUsage::Sr) {
        get_segment_operand(fields.value(InstructionBitsUsage::Sr))
    } else {
        Operand::Absent
    };
    let by_mode = if !fields.has(InstructionBitsUsage::Mod) {
        Operand::Absent
    } else if mode == 3 {
        get_reg_operand(rm, w || fields.is_set(InstructionBitsUsage::RmRegAlwaysW))
    } else {
        Operand::Memory(
            EffectiveAddressExpression {
                segment: context.default_segment,
                base: get_address_base(mode, rm),
                displacement,
            },
        )
    };
    let mut first = if d {
        by_register
    } else {
        by_mode
    };
    let mut second = if d {
        by_mode
    } else {
        by_register
    };

    let trailing: Option<Operand> = if fields.is_set(InstructionBitsUsage::RelJmpDisp) {
        Some(Operand::RelativeImmediate(displacement + size as i32))
    } else if has_data {
        Some(Operand::ImmediateS32(data))
    } else if fields.has(InstructionBitsUsage::V) {
        if fields.is_set(InstructionBitsUsage::V) {
            Some(Operand::Register(RegisterAccess { index: RegisterIndex::C, offset: 0, count: 1 }))
        } else {
            Some(Operand::ImmediateS32(1))
        }
    } else {
        None
    };
    if let Some(operand) = trailing {
        match first {
            Operand::Absent => {
                first = operand;
            },
            _ => {
                second = operand;
            },
        }
    }
    Instruction {
        address: at.get_absolute_address(0),
        size,
        op,
        flags: if w {
            context.additional_flags | InstructionFlag::WIDE
        } else {
            context.additional_flags
        },
        operands: [first, second],
    }
}

/// The number of bytes that a value following the opcode takes.
fn value_size(exists: bool, wide: bool) -> (len: u32)
    ensures
        len == value_len(exists, wide),
{
    if !exists {
        0
    } else if wide {
        2
    } else {
        1
    }
}

/// The low sixteen bits of `value` read as a signed number.
fn to_signed_word(value: i32) -> (word: i32)
    requires
        -0x8000 <= value <= 0xffff,
    ensures
        word == signed_word(value as int),
        -0x8000 <= word <= 0x7fff,
{
    if value >= 0x8000 {
        value - 0x1_0000
    } else {
        value
    }
}

/// Decodes the bytes at `at` in `format`, if they match it.
pub fn try_decode(
    context: &DisasmContext,
    format: &InstructionFormat,
    memory: &Memory,
    at: SegmentedAccess,
) -> (found: Option<Instruction>)
    requires
        memory.wf(),
        format@.well_formed(),
    ensures
        found == decoded_as(*context, format@, memory@, at),
        found matches Some(instruction) ==> instruction.size <= format@.bits.len() + 4,
{
    match scan_fields(format, memory, at) {
        None => None,
        Some(fields) => Some(resolve(context, format.op, &fields, memory, at)),
    }
}

/// Reading fields never gives bytes back: the state after a scan has consumed
/// at least as many bytes as the state it started from.
pub proof fn lemma_scan_consumes(
    bits: Seq<InstructionBits>,
    memory: Seq<u8>,
    at: SegmentedAccess,
    from: int,
    state: FieldValues,
)
    ensures
        scan(bits, memory, at, from, state) matches Some(fields) ==> fields.consumed
            >= state.consumed,
    decreases bits.len() - from,
{
    if !(from < 0 || from >= bits.len() || bits[from].ends_format()) {
        if let Some(next) = read_field(bits[from], memory, at, state) {
            lemma_scan_consumes(bits, memory, at, from + 1, next);
        }
    }
}

/// A scan takes from the bytes it reads no more bits than its fields are
/// wide: the bits of the bytes consumed, less those still pending, grow by at
/// most the width of the fields scanned.
pub proof fn lemma_scan_width(
    bits: Seq<InstructionBits>,
    memory: Seq<u8>,
    at: SegmentedAccess,
    from: int,
    state: FieldValues,
)
    requires
        0 <= from,
        state.pending <= 7,
    ensures
        scan(bits, memory, at, from, state) matches Some(fields) ==> {
            &&& fields.pending <= 7
            &&& 8 * fields.consumed - fields.pending <= 8 * state.consumed - state.pending
                + width_from(bits, from)
        },
    decreases bits.len() - from,
{
    if !(from >= bits.len() || bits[from].ends_format()) {
        if let Some(next) = read_field(bits[from], memory, at, state) {
            lemma_scan_width(bits, memory, at, from + 1, next);
        }
    }
}

/// An instruction in a regular format has the operation of the format, takes
/// from one to six bytes, carries the flags of the context, with the wide
/// flag or without, and can be taken into account by the prefix state.
pub proof fn lemma_regular_format(
    context: DisasmContext,
    format: FormatModel,
    memory: Seq<u8>,
    at: SegmentedAccess,
)
    requires
        format.is_regular(),
    ensures
        decoded_as(context, format, memory, at) matches Some(instruction) ==> {
            &&& instruction.op == format.op
            &&& instruction.op != OperationType::Unrecognized
            &&& 1 <= instruction.size <= 6
            &&& instruction.flags == context.additional_flags || instruction.flags
                == context.additional_flags | InstructionFlag::WIDE
            &&& DisasmContext::accepts(instruction)
        },
{
    let start = FieldValues::empty();
    if let Some(fields) = scan(format.bits, memory, at, 0, start) {
        let first = read_field(format.bits[0], memory, at, start);
        assert(first is Some && first->0.consumed == 1);
        lemma_scan_consumes(format.bits, memory, at, 1, first->0);
        lemma_scan_width(format.bits, memory, at, 0, start);
        if format.op == OperationType::Segment {
            lemma_segment_override(context, memory, at);
        }
    }
}

/// `first_match` finds the first format that the bytes match: every format
/// before it fails, and where it finds none, every format fails.
pub proof fn lemma_first_match(
    context: DisasmContext,
    formats: Seq<FormatModel>,
    memory: Seq<u8>,
    at: SegmentedAccess,
    from: int,
)
    requires
        0 <= from,
    ensures
        match first_match(context, formats, memory, at, from) {
            Some(instruction) => exists|i: int|
                {
                    &&& from <= i < formats.len()
                    &&& #[trigger] decoded_as(context, formats[i], memory, at) == Some(
                        instruction,
                    )
                    &&& forall|j: int|
                        from <= j < i ==> #[trigger] decoded_as(
                            context,
                            formats[j],
                            memory,
                            at,
                        ) is None
                },
            None => forall|j: int|
                from <= j < formats.len() ==> #[trigger] decoded_as(
                    context,
                    formats[j],
                    memory,
                    at,
                ) is None,
        },
    decreases formats.len() - from,
{
    if from < formats.len() {
        lemma_first_match(context, formats, memory, at, from + 1);
        match decoded_as(context, formats[from], memory, at) {
            Some(instruction) => {
                assert(decoded_as(context, formats[from], memory, at) == Some(instruction));
            },
            None => {
                if let Some(instruction) = first_match(context, formats, memory, at, from + 1) {
                    let i = choose|i: int|
                        {
                            &&& from + 1 <= i < formats.len()
                            &&& #[trigger] decoded_as(context, formats[i], memory, at) == Some(
                                instruction,
                            )
                            &&& forall|j: int|
                                from + 1 <= j < i ==> #[trigger] decoded_as(
                                    context,
                                    formats[j],
                                    memory,
                                    at,
                                ) is None
                        };
                    assert(decoded_as(context, formats[i], memory, at) == Some(instruction));
                }
            },
        }
    }
}

/// What holds of every decoded instruction. The unrecognized instruction is
/// the empty record. Any other takes from one to six bytes, carries the flags
/// of the context, with the wide flag or without, and can be taken into
/// account by the prefix state.
pub proof fn lemma_decoded(context: DisasmContext, memory: Seq<u8>, at: SegmentedAccess)
    ensures
        ({
            let instruction = decoded(context, memory, at);
            &&& instruction.op == OperationType::Unrecognized ==> instruction
                == Instruction::unrecognized()
            &&& instruction.op != OperationType::Unrecognized ==> {
                &&& 1 <= instruction.size <= 6
                &&& instruction.flags == context.additional_flags || instruction.flags
                    == context.additional_flags | InstructionFlag::WIDE
            }
            &&& DisasmContext::accepts(instruction)
        }),
{
    let formats = instruction_formats();
    lemma_first_match(context, formats, memory, at, 0);
    if let Some(instruction) = first_match(context, formats, memory, at, 0) {
        let i = choose|i: int|
            0 <= i < formats.len() && #[trigger] decoded_as(context, formats[i], memory, at)
                == Some(instruction);
        lemma_instruction_formats_regular();
        assert(formats[i].is_regular());
        lemma_regular_format(context, formats[i], memory, at);
    }
}

/// Two memories hold the same `count` bytes from `at` on.
pub open spec fn same_bytes(
    first: Seq<u8>,
    second: Seq<u8>,
    at: SegmentedAccess,
    count: nat,
) -> bool {
    forall|k: nat|
        k < count ==> byte_at(first, #[trigger] at.advanced(k)) == byte_at(
            second,
            at.advanced(k),
        )
}

/// A scan whose fields read no more than two bytes sees nothing of memory
/// but the two bytes at `at`.
proof fn lemma_scan_is_local(
    bits: Seq<InstructionBits>,
    first: Seq<u8>,
    second: Seq<u8>,
    at: SegmentedAccess,
    from: int,
    state: FieldValues,
)
    requires
        0 <= from,
        same_bytes(first, second, at, 2),
        state.pending <= 7,
        state.pending > 0 ==> state.consumed >= 1,
        8 * state.consumed - state.pending + width_from(bits, from) <= 16,
    ensures
        scan(bits, first, at, from, state) == scan(bits, second, at, from, state),
    decreases bits.len() - from,
{
    if !(from >= bits.len() || bits[from].ends_format()) {
        let field = bits[from];
        if field.bit_count > 0 {
            let consumed = if state.pending == 0 {
                state.consumed + 1
            } else {
                state.consumed
            };
            assert(1 <= consumed <= 2);
            assert(byte_at(first, at.advanced((consumed - 1) as nat)) == byte_at(
                second,
                at.advanced((consumed - 1) as nat),
            ));
        }
        assert(read_field(field, first, at, state) == read_field(field, second, at, state));
        if let Some(next) = read_field(field, first, at, state) {
            lemma_scan_is_local(bits, first, second, at, from + 1, next);
        }
    }
}

/// An instruction in a regular format is decoded from the six bytes at `at`
/// alone.
proof fn lemma_regular_format_is_local(
    context: DisasmContext,
    format: FormatModel,
    first: Seq<u8>,
    second: Seq<u8>,
    at: SegmentedAccess,
)
    requires
        format.is_regular(),
        same_bytes(first, second, at, 6),
    ensures
        decoded_as(context, format, first, at) == decoded_as(context, format, second, at),
{
    let start = FieldValues::empty();
    assert(same_bytes(first, second, at, 2));
    lemma_scan_is_local(format.bits, first, second, at, 0, start);
    if let Some(fields) = scan(format.bits, first, at, 0, start) {
        lemma_scan_width(format.bits, first, at, 0, start);
        let consumed = fields.consumed;
        assert(consumed <= 2);
        let cursor = at.advanced(consumed);
        let data_cursor = cursor.advanced(
            value_len(fields.has_displacement(), fields.displacement_is_wide()),
        );
        assert(cursor.advanced(1) == at.advanced(consumed + 1));
        assert(data_cursor == at.advanced(
            consumed + value_len(fields.has_displacement(), fields.displacement_is_wide()),
        ));
        assert(data_cursor.advanced(1) == at.advanced(
            consumed + value_len(fields.has_displacement(), fields.displacement_is_wide()) + 1,
        ));
        assert(fields.displacement(first, at) == fields.displacement(second, at));
        assert(fields.data(first, at) == fields.data(second, at));
    }
}

/// Decoding is local: the instruction at `at` depends on nothing in memory but
/// the six bytes at `at`.
pub proof fn lemma_decoding_is_local(
    context: DisasmContext,
    first: Seq<u8>,
    second: Seq<u8>,
    at: SegmentedAccess,
)
    requires
        same_bytes(first, second, at, 6),
    ensures
        decoded(context, first, at) == decoded(context, second, at),
{
    lemma_instruction_formats_regular();
    lemma_first_match_is_local(context, instruction_formats(), first, second, at, 0);
}

/// Over regular formats, the first match depends on nothing in memory but the
/// six bytes at `at`.
proof fn lemma_first_match_is_local(
    context: DisasmContext,
    formats: Seq<FormatModel>,
    first: Seq<u8>,
    second: Seq<u8>,
    at: SegmentedAccess,
    from: int,
)
    requires
        0 <= from,
        all_regular(formats),
        same_bytes(first, second, at, 6),
    ensures
        first_match(context, formats, first, at, from) == first_match(
            context,
            formats,
            second,
            at,
            from,
        ),
    decreases formats.len() - from,
{
    if from < formats.len() {
        assert(formats[from].is_regular());
        lemma_regular_format_is_local(context, formats[from], first, second, at);
        lemma_first_match_is_local(context, formats, first, second, at, from + 1);
    }
}

/// A prefix reaches the instruction after it and no further. Decoded in the
/// context that a prefix leaves, an instruction carries the flag of the
/// prefix; unless it is a prefix itself, the context after it is the initial
/// one again, and an instruction decoded in the initial context carries no
/// prefix flag.
pub proof fn lemma_prefix_persistence(
    context: DisasmContext,
    prefix: Instruction,
    memory: Seq<u8>,
    at: SegmentedAccess,
    later: SegmentedAccess,
)
    requires
        prefix.op == OperationType::Lock || prefix.op == OperationType::Rep || prefix.op
            == OperationType::Segment,
    ensures
        ({
            let flag = if prefix.op == OperationType::Lock {
                InstructionFlag::LOCK
            } else if prefix.op == OperationType::Rep {
                InstructionFlag::REP
            } else {
                InstructionFlag::SEGMENT
            };
            let next = decoded(context.after(prefix), memory, at);
            let after = decoded(context.after(prefix).after(next), memory, later);
            &&& next.op != OperationType::Unrecognized ==> next.flags & flag == flag
            &&& next.op != OperationType::Lock && next.op != OperationType::Rep && next.op
                != OperationType::Segment ==> {
                &&& context.after(prefix).after(next) == DisasmContext::initial()
                &&& after.flags & InstructionFlag::LOCK == 0
                &&& after.flags & InstructionFlag::REP == 0
                &&& after.flags & InstructionFlag::SEGMENT == 0
            }
        }),
{
    let pending = context.after(prefix);
    let next = decoded(pending, memory, at);
    lemma_decoded(pending, memory, at);
    lemma_decoded(pending.after(next), memory, later);
    let flags = context.additional_flags;
    assert((flags | 0x1) & 0x1 == 0x1 && ((flags | 0x1) | 0x8) & 0x1 == 0x1 && (flags | 0x2) & 0x2
        == 0x2 && ((flags | 0x2) | 0x8) & 0x2 == 0x2 && (flags | 0x4) & 0x4 == 0x4 && ((flags
        | 0x4) | 0x8) & 0x4 == 0x4) by (bit_vector);
    assert(0u32 & 0x1 == 0 && 0u32 & 0x2 == 0 && 0u32 & 0x4 == 0 && (0u32 | 0x8) & 0x1 == 0 && (0u32
        | 0x8) & 0x2 == 0 && (0u32 | 0x8) & 0x4 == 0) by (bit_vector);
}

/// A segment override has no first operand, and its second operand is the
/// segment register that it names.
pub proof fn lemma_segment_override(context: DisasmContext, memory: Seq<u8>, at: SegmentedAccess)
    ensures
        decoded_as(context, segment_override_format(), memory, at) matches Some(instruction) ==> {
            &&& instruction.operands[0] is Absent
            &&& instruction.operands[1] == segment_operand(
                bits_of(byte_at(memory, at), 3, 2),
            )
            &&& instruction.operands[1] is Register
            &&& instruction.size == 1
        },
{
    let bits = segment_override_format().bits;
    let start = FieldValues::empty();
    reveal_with_fuel(scan, 4);
    assert(bits.len() == 3);
    assert(at.advanced(0) == at);
    let code = bits_of(byte_at(memory, at), 3, 2);
    assert(0u32 | (code << 0u8) == code) by (bit_vector);
}

/// Decodes the instruction at `at` and moves `at` past it. Bytes that match no
/// instruction format give the unrecognized instruction, of no bytes, and
/// leave `at` where it is; any other instruction takes at least one byte.
pub fn decode_instruction(
    context: &DisasmContext,
    memory: &Memory,
    at: &mut SegmentedAccess,
) -> (instruction: Instruction)
    requires
        memory.wf(),
    ensures
        instruction == decoded(*context, memory@, *old(at)),
        *final(at) == old(at).advanced(instruction.size as nat),
        old(at).segment_offset + instruction.size <= 0xffff ==> final(at).segment_offset - old(
            at,
        ).segment_offset == instruction.size,
        instruction.op == OperationType::Unrecognized ==> instruction
            == Instruction::unrecognized() && *final(at) == *old(at),
        instruction.op != OperationType::Unrecognized ==> 1 <= instruction.size <= 6,
        DisasmContext::accepts(instruction),
{
    let formats = get_instruction_formats();
    let mut i: usize = 0;
    while i < formats.len()
        invariant
            memory.wf(),
            *at == *old(at),
            i <= formats.len(),
            table_view(formats@) == instruction_formats(),
            all_well_formed(formats@),
            first_match(*context, instruction_formats(), memory@, *at, 0) == first_match(
                *context,
                instruction_formats(),
                memory@,
                *at,
                i as int,
            ),
        decreases formats.len() - i,
    {
        assert(table_view(formats@)[i as int] == formats[i as int]@);
        if let Some(instruction) = try_decode(context, &formats[i], memory, *at) {
            proof {
                lemma_decoded(*context, memory@, *at);
            }
            at.segment_offset = at.segment_offset.wrapping_add(instruction.size as u16);
            return instruction;
        }
        i += 1;
    }
    assert(old(at).advanced(0) == *old(at));
    Instruction::default()
}

} // verus!
