//! The registers of the machine: their names, the byte views of the four
//! general registers, the flags, and the arithmetic that sets them.

use vstd::prelude::*;

verus! {

/// The registers of the 8086. `Absent` stands for no register.
#[derive(Debug, Clone, Copy, PartialEq, Eq, Structural)]
pub enum RegisterIndex {
    Absent,
    A,
    B,
    C,
    D,
    Sp,
    Bp,
    Si,
    Di,
    Es,
    Cs,
    Ss,
    Ds,
    Ip,
    Flags,
}

impl RegisterIndex {
    /// The four general registers can be read and written one byte at a time.
    pub open spec fn has_byte_views(self) -> bool {
        self == RegisterIndex::A || self == RegisterIndex::B || self == RegisterIndex::C || self
            == RegisterIndex::D
    }

    /// The name of the whole register.
    pub open spec fn word_name(self) -> Seq<char> {
        match self {
            RegisterIndex::Absent => ""@,
            RegisterIndex::A => "ax"@,
            RegisterIndex::B => "bx"@,
            RegisterIndex::C => "cx"@,
            RegisterIndex::D => "dx"@,
            RegisterIndex::Sp => "sp"@,
            RegisterIndex::Bp => "bp"@,
            RegisterIndex::Si => "si"@,
            RegisterIndex::Di => "di"@,
            RegisterIndex::Es => "es"@,
            RegisterIndex::Cs => "cs"@,
            RegisterIndex::Ss => "ss"@,
            RegisterIndex::Ds => "ds"@,
            RegisterIndex::Ip => "ip"@,
            RegisterIndex::Flags => "flags"@,
        }
    }

    /// The name of the low byte of a general register.
    pub open spec fn low_name(self) -> Seq<char> {
        match self {
            RegisterIndex::A => "al"@,
            RegisterIndex::B => "bl"@,
            RegisterIndex::C => "cl"@,
            RegisterIndex::D => "dl"@,
            _ => self.word_name(),
        }
    }

    /// The name of the high byte of a general register.
    pub open spec fn high_name(self) -> Seq<char> {
        match self {
            RegisterIndex::A => "ah"@,
            RegisterIndex::B => "bh"@,
            RegisterIndex::C => "ch"@,
            RegisterIndex::D => "dh"@,
            _ => self.word_name(),
        }
    }

    /// The name under which `count` bytes of this register, from byte
    /// `offset` on, are written in assembly. One byte of a general register
    /// has a name of its own, the low byte for an even offset and the high
    /// byte for an odd one; anything else goes by the name of the register.
    pub open spec fn name_text(self, offset: u8, count: u8) -> Seq<char> {
        if self.has_byte_views() && count == 1 {
            if offset % 2 == 0 {
                self.low_name()
            } else {
                self.high_name()
            }
        } else {
            self.word_name()
        }
    }

    /// The name under which `count` bytes of this register, from byte
    /// `offset` on, are written in assembly.
    pub fn get_name(&self, offset: u8, count: u8) -> (name: &'static str)
        ensures
            name@ == self.name_text(offset, count),
    {
        let low: bool = offset % 2 == 0;
        match self {
            RegisterIndex::Absent => "",
            RegisterIndex::A => if count != 1 {
                "ax"
            } else if low {
                "al"
            } else {
                "ah"
            },
            RegisterIndex::B => if count != 1 {
                "bx"
            } else if low {
                "bl"
            } else {
                "bh"
            },
            RegisterIndex::C => if count != 1 {
                "cx"
            } else if low {
                "cl"
            } else {
                "ch"
            },
            RegisterIndex::D => if count != 1 {
                "dx"
            } else if low {
                "dl"
            } else {
                "dh"
            },
            RegisterIndex::Sp => "sp",
            RegisterIndex::Bp => "bp",
            RegisterIndex::Si => "si",
            RegisterIndex::Di => "di",
            RegisterIndex::Es => "es",
            RegisterIndex::Cs => "cs",
            RegisterIndex::Ss => "ss",
            RegisterIndex::Ds => "ds",
            RegisterIndex::Ip => "ip",
            RegisterIndex::Flags => "flags",
        }
    }
}

/// The registers whose sum is the base of an effective address. `Direct`
/// stands for an address given by the displacement alone.
#[derive(Debug, Clone, Copy, PartialEq, Eq, Structural)]
pub enum EffectiveAddressBase {
    Direct,
    BxSi,
    BxDi,
    BpSi,
    BpDi,
    Si,
    Di,
    Bp,
    Bx,
}

impl EffectiveAddressBase {
    /// The base as it is written between the brackets of a memory operand.
    pub open spec fn expression_text(self) -> Seq<char> {
        match self {
            EffectiveAddressBase::Direct => ""@,
            EffectiveAddressBase::BxSi => "bx+si"@,
            EffectiveAddressBase::BxDi => "bx+di"@,
            EffectiveAddressBase::BpSi => "bp+si"@,
            EffectiveAddressBase::BpDi => "bp+di"@,
            EffectiveAddressBase::Si => "si"@,
            EffectiveAddressBase::Di => "di"@,
            EffectiveAddressBase::Bp => "bp"@,
            EffectiveAddressBase::Bx => "bx"@,
        }
    }

    /// The base as it is written between the brackets of a memory operand.
    pub fn expression(&self) -> (text: &'static str)
        ensures
            text@ == self.expression_text(),
    {
        match self {
            EffectiveAddressBase::Direct => "",
            EffectiveAddressBase::BxSi => "bx+si",
            EffectiveAddressBase::BxDi => "bx+di",
            EffectiveAddressBase::BpSi => "bp+si",
            EffectiveAddressBase::BpDi => "bp+di",
            EffectiveAddressBase::Si => "si",
            EffectiveAddressBase::Di => "di",
            EffectiveAddressBase::Bp => "bp",
            EffectiveAddressBase::Bx => "bx",
        }
    }
}

/// A memory operand: a segment, a base and a signed displacement.
#[derive(Debug, Clone, Copy, PartialEq, Eq, Structural)]
pub struct EffectiveAddressExpression {
    pub segment: RegisterIndex,
    pub base: EffectiveAddressBase,
    pub displacement: i32,
}

/// A register operand: `count` bytes of register `index`, from byte `offset`
/// on. The bytes are a view of the register, not storage of their own.
#[derive(Debug, Clone, Copy, PartialEq, Eq, Structural)]
pub struct RegisterAccess {
    pub index: RegisterIndex,
    pub offset: u8,
    pub count: u8,
}

impl RegisterAccess {
    /// The whole of register `index`.
    pub open spec fn whole(index: RegisterIndex) -> RegisterAccess {
        RegisterAccess { index, offset: 0, count: 2 }
    }

    /// The low byte of register `index`.
    pub open spec fn low_byte(index: RegisterIndex) -> RegisterAccess {
        RegisterAccess { index, offset: 0, count: 1 }
    }

    /// The high byte of register `index`.
    pub open spec fn high_byte(index: RegisterIndex) -> RegisterAccess {
        RegisterAccess { index, offset: 1, count: 1 }
    }

    /// The access names a single byte of a general register: any width but
    /// two bytes does.
    pub open spec fn is_byte(self) -> bool {
        self.index.has_byte_views() && self.count != 2
    }

    /// The byte named is the low one: that at offset zero.
    pub open spec fn is_low(self) -> bool {
        self.offset == 0
    }
}

/// The condition flags that arithmetic sets.
#[derive(Debug, Clone, Copy, PartialEq, Eq, Structural)]
pub enum Flag {
    Carry,
    Parity,
    Auxiliary,
    Zero,
    Sign,
    Overflow,
}

impl Flag {
    /// The position of the flag in the flags register.
    pub open spec fn bit(self) -> nat {
        match self {
            Flag::Carry => 0,
            Flag::Parity => 2,
            Flag::Auxiliary => 4,
            Flag::Zero => 6,
            Flag::Sign => 7,
            Flag::Overflow => 11,
        }
    }

    /// The flags register with this flag set and every other bit clear.
    pub open spec fn spec_mask(self) -> u16 {
        match self {
            Flag::Carry => 0x0001,
            Flag::Parity => 0x0004,
            Flag::Auxiliary => 0x0010,
            Flag::Zero => 0x0040,
            Flag::Sign => 0x0080,
            Flag::Overflow => 0x0800,
        }
    }

    /// The flags register with this flag set and every other bit clear.
    #[verifier::when_used_as_spec(spec_mask)]
    pub fn mask(self) -> (mask: u16)
        ensures
            mask == self.spec_mask(),
            mask == 1u16 << self.bit(),
    {
        assert(0x0001u16 == 1u16 << 0 && 0x0004u16 == 1u16 << 2 && 0x0010u16 == 1u16 << 4
            && 0x0040u16 == 1u16 << 6 && 0x0080u16 == 1u16 << 7 && 0x0800u16 == 1u16 << 11)
            by (bit_vector);
        match self {
            Flag::Carry => 0x0001,
            Flag::Parity => 0x0004,
            Flag::Auxiliary => 0x0010,
            Flag::Zero => 0x0040,
            Flag::Sign => 0x0080,
            Flag::Overflow => 0x0800,
        }
    }
}

/// The six flags as truth values.
pub struct FlagValues {
    pub carry: bool,
    pub parity: bool,
    pub auxiliary: bool,
    pub zero: bool,
    pub sign: bool,
    pub overflow: bool,
}

/// The number of bits set among the low eight bits of `value`.
pub open spec fn ones_in_low_byte(value: u16) -> int {
    (value & 1) + ((value >> 1) & 1) + ((value >> 2) & 1) + ((value >> 3) & 1) + ((value >> 4) & 1)
        + ((value >> 5) & 1) + ((value >> 6) & 1) + ((value >> 7) & 1)
}

/// The sum of two words, wrapped to sixteen bits.
pub open spec fn wrapped_sum(dst: u16, src: u16) -> u16 {
    ((dst + src) % 0x1_0000) as u16
}

/// The difference of two words, wrapped to sixteen bits.
pub open spec fn wrapped_difference(dst: u16, src: u16) -> u16 {
    ((dst - src) % 0x1_0000) as u16
}

/// The flags that `result` sets whatever operation it came from: zero, sign
/// and parity of the result, and the carry between the two nibbles of the low
/// byte. Carry and overflow are those handed in.
pub open spec fn flags_of_result(
    dst: u16,
    src: u16,
    result: u16,
    carry: bool,
    overflow: bool,
) -> FlagValues {
    FlagValues {
        carry,
        parity: ones_in_low_byte(result) % 2 == 0,
        auxiliary: (dst ^ src ^ result) & 0x10 != 0,
        zero: result == 0,
        sign: result & 0x8000 != 0,
        overflow,
    }
}

/// The flags after `src` has been added to `dst`.
pub open spec fn flags_after_add(dst: u16, src: u16) -> FlagValues {
    let result = wrapped_sum(dst, src);
    flags_of_result(
        dst,
        src,
        result,
        dst + src > 0xffff,
        (dst ^ result) & (src ^ result) & 0x8000 != 0,
    )
}

/// The flags after `src` has been subtracted from `dst`.
pub open spec fn flags_after_sub(dst: u16, src: u16) -> FlagValues {
    let result = wrapped_difference(dst, src);
    flags_of_result(dst, src, result, dst < src, (dst ^ src) & (dst ^ result) & 0x8000 != 0)
}

/// Whether the number of bits set among the low eight bits of `value` is even.
pub fn even_parity(value: u16) -> (even: bool)
    ensures
        even == (ones_in_low_byte(value) % 2 == 0),
{
    let low: u16 = value & 0xff;
    let nibble: u16 = low ^ (low >> 4);
    let pair: u16 = nibble ^ (nibble >> 2);
    let bit: u16 = pair ^ (pair >> 1);
    assert((bit & 1 == 0) == (ones_in_low_byte(value) % 2 == 0)) by (bit_vector)
        requires
            low == value & 0xff,
            nibble == low ^ (low >> 4),
            pair == nibble ^ (nibble >> 2),
            bit == pair ^ (pair >> 1),
    ;
    bit & 1 == 0
}

/// The registers of the machine. Each is one sixteen-bit word.
#[derive(Debug, Clone, Copy, PartialEq, Eq, Structural)]
pub struct RegisterFile {
    pub ax: u16,
    pub bx: u16,
    pub cx: u16,
    pub dx: u16,
    pub si: u16,
    pub di: u16,
    pub bp: u16,
    pub sp: u16,
    pub cs: u16,
    pub ds: u16,
    pub es: u16,
    pub ss: u16,
    pub flags: u16,
    pub ip: u16,
}

impl RegisterFile {
    /// The word held in register `index`; no register holds zero.
    pub open spec fn word(self, index: RegisterIndex) -> u16 {
        match index {
            RegisterIndex::Absent => 0,
            RegisterIndex::A => self.ax,
            RegisterIndex::B => self.bx,
            RegisterIndex::C => self.cx,
            RegisterIndex::D => self.dx,
            RegisterIndex::Sp => self.sp,
            RegisterIndex::Bp => self.bp,
            RegisterIndex::Si => self.si,
            RegisterIndex::Di => self.di,
            RegisterIndex::Es => self.es,
            RegisterIndex::Cs => self.cs,
            RegisterIndex::Ss => self.ss,
            RegisterIndex::Ds => self.ds,
            RegisterIndex::Ip => self.ip,
            RegisterIndex::Flags => self.flags,
        }
    }

    /// These registers with `value` in register `index` and every other
    /// register as it was; with no register named, nothing changes.
    pub open spec fn with_word(self, index: RegisterIndex, value: u16) -> RegisterFile {
        match index {
            RegisterIndex::Absent => self,
            RegisterIndex::A => RegisterFile { ax: value, ..self },
            RegisterIndex::B => RegisterFile { bx: value, ..self },
            RegisterIndex::C => RegisterFile { cx: value, ..self },
            RegisterIndex::D => RegisterFile { dx: value, ..self },
            RegisterIndex::Sp => RegisterFile { sp: value, ..self },
            RegisterIndex::Bp => RegisterFile { bp: value, ..self },
            RegisterIndex::Si => RegisterFile { si: value, ..self },
            RegisterIndex::Di => RegisterFile { di: value, ..self },
            RegisterIndex::Es => RegisterFile { es: value, ..self },
            RegisterIndex::Cs => RegisterFile { cs: value, ..self },
            RegisterIndex::Ss => RegisterFile { ss: value, ..self },
            RegisterIndex::Ds => RegisterFile { ds: value, ..self },
            RegisterIndex::Ip => RegisterFile { ip: value, ..self },
            RegisterIndex::Flags => RegisterFile { flags: value, ..self },
        }
    }

    /// What reading `access` gives: the low or the high byte of a general
    /// register where the access names one, else the whole register.
    pub open spec fn value_of(self, access: RegisterAccess) -> u16 {
        let word = self.word(access.index);
        if !access.is_byte() {
            word
        } else if access.is_low() {
            word % 0x100
        } else {
            word / 0x100
        }
    }

    /// The word that register `access.index` holds once `value` has been
    /// written through `access`: a byte access replaces its byte by the low
    /// byte of `value` and keeps the other.
    pub open spec fn word_after(self, access: RegisterAccess, value: u16) -> u16 {
        let word = self.word(access.index);
        if !access.is_byte() {
            value
        } else if access.is_low() {
            ((word / 0x100) * 0x100 + value % 0x100) as u16
        } else {
            ((value % 0x100) * 0x100 + word % 0x100) as u16
        }
    }

    /// These registers once `value` has been written through `access`.
    pub open spec fn updated(self, access: RegisterAccess, value: u16) -> RegisterFile {
        self.with_word(access.index, self.word_after(access, value))
    }

    /// Whether `flag` is set.
    pub open spec fn flag(self, flag: Flag) -> bool {
        self.flags & flag.spec_mask() != 0
    }

    /// These registers with `flag` set or cleared and every other bit of the
    /// flags register as it was.
    pub open spec fn with_flag(self, flag: Flag, value: bool) -> RegisterFile {
        RegisterFile {
            flags: if value {
                self.flags | flag.spec_mask()
            } else {
                self.flags & !flag.spec_mask()
            },
            ..self
        }
    }

    /// These registers with the six flags as `values` gives them and every
    /// other bit of the flags register as it was.
    pub open spec fn with_flags(self, values: FlagValues) -> RegisterFile {
        self.with_flag(Flag::Carry, values.carry).with_flag(Flag::Zero, values.zero).with_flag(
            Flag::Sign,
            values.sign,
        ).with_flag(Flag::Overflow, values.overflow).with_flag(
            Flag::Parity,
            values.parity,
        ).with_flag(Flag::Auxiliary, values.auxiliary)
    }

    /// Registers that all hold zero.
    pub open spec fn zeroed() -> RegisterFile {
        RegisterFile {
            ax: 0,
            bx: 0,
            cx: 0,
            dx: 0,
            si: 0,
            di: 0,
            bp: 0,
            sp: 0,
            cs: 0,
            ds: 0,
            es: 0,
            ss: 0,
            flags: 0,
            ip: 0,
        }
    }

    /// Registers that all hold zero.
    pub fn new() -> (registers: Self)
        ensures
            registers == RegisterFile::zeroed(),
    {
        RegisterFile {
            ax: 0,
            bx: 0,
            cx: 0,
            dx: 0,
            si: 0,
            di: 0,
            bp: 0,
            sp: 0,
            cs: 0,
            ds: 0,
            es: 0,
            ss: 0,
            flags: 0,
            ip: 0,
        }
    }

    /// Sets or clears `flag`.
    pub fn set_flag(&mut self, flag: Flag, value: bool)
        ensures
            *final(self) == old(self).with_flag(flag, value),
    {
        if value {
            self.flags |= flag.mask();
        } else {
            self.flags &= !flag.mask();
        }
    }

    /// Whether `flag` is set.
    pub fn get_flag(&self, flag: Flag) -> (set: bool)
        ensures
            set == self.flag(flag),
    {
        (self.flags & flag.mask()) != 0
    }

    /// Reads the register, or the byte of it, that `reg_access` names.
    pub fn get_register_value(&self, reg_access: &RegisterAccess) -> (value: u16)
        ensures
            value == self.value_of(*reg_access),
    {
        let byte: bool = reg_access.count != 2;
        let low: bool = reg_access.offset == 0;
        match reg_access.index {
            RegisterIndex::Absent => 0,
            RegisterIndex::A => byte_view(self.ax, byte, low),
            RegisterIndex::B => byte_view(self.bx, byte, low),
            RegisterIndex::C => byte_view(self.cx, byte, low),
            RegisterIndex::D => byte_view(self.dx, byte, low),
            RegisterIndex::Si => self.si,
            RegisterIndex::Di => self.di,
            RegisterIndex::Bp => self.bp,
            RegisterIndex::Sp => self.sp,
            RegisterIndex::Cs => self.cs,
            RegisterIndex::Ds => self.ds,
            RegisterIndex::Es => self.es,
            RegisterIndex::Ss => self.ss,
            RegisterIndex::Ip => self.ip,
            RegisterIndex::Flags => self.flags,
        }
    }

    /// Writes `value` to the register, or the byte of it, that `reg_access`
    /// names. A byte takes the low byte of `value`.
    pub fn update_register(&mut self, reg_access: &RegisterAccess, value: u16)
        ensures
            *final(self) == old(self).updated(*reg_access, value),
    {
        let byte: bool = reg_access.count != 2;
        let low: bool = reg_access.offset == 0;
        match reg_access.index {
            RegisterIndex::Absent => {},
            RegisterIndex::A => self.ax = merged(self.ax, value, byte, low),
            RegisterIndex::B => self.bx = merged(self.bx, value, byte, low),
            RegisterIndex::C => self.cx = merged(self.cx, value, byte, low),
            RegisterIndex::D => self.dx = merged(self.dx, value, byte, low),
            RegisterIndex::Si => self.si = value,
            RegisterIndex::Di => self.di = value,
            RegisterIndex::Bp => self.bp = value,
            RegisterIndex::Sp => self.sp = value,
            RegisterIndex::Cs => self.cs = value,
            RegisterIndex::Ds => self.ds = value,
            RegisterIndex::Es => self.es = value,
            RegisterIndex::Ss => self.ss = value,
            RegisterIndex::Ip => self.ip = value,
            RegisterIndex::Flags => self.flags = value,
        }
    }

    /// Moves the instruction pointer forward by `value`, wrapping at the end
    /// of the segment.
    pub fn update_ip(&mut self, value: u16)
        ensures
            *final(self) == old(self).with_word(
                RegisterIndex::Ip,
                wrapped_sum(old(self).ip, value),
            ),
    {
        self.ip = self.ip.wrapping_add(value);
    }

    /// The instruction pointer.
    pub fn get_ip(&mut self) -> (ip: u16)
        ensures
            ip == old(self).ip,
            *final(self) == *old(self),
    {
        self.ip
    }

    /// Sets every flag but carry from an addition of `src` to `dst` that gave
    /// `res`.
    pub fn set_flags_add(&mut self, src: u16, dst: u16, res: u16)
        ensures
            *final(self) == old(self).with_flag(Flag::Zero, res == 0).with_flag(
                Flag::Sign,
                res & 0x8000 != 0,
            ).with_flag(Flag::Overflow, (dst ^ res) & (src ^ res) & 0x8000 != 0).with_flag(
                Flag::Parity,
                ones_in_low_byte(res) % 2 == 0,
            ).with_flag(Flag::Auxiliary, (dst ^ src ^ res) & 0x10 != 0),
    {
        self.set_flag(Flag::Zero, res == 0);
        self.set_flag(Flag::Sign, (res & 0x8000) != 0);
        self.set_flag(Flag::Overflow, ((dst ^ res) & (src ^ res) & 0x8000) != 0);
        self.set_flag(Flag::Parity, even_parity(res));
        self.set_flag(Flag::Auxiliary, ((dst ^ src ^ res) & 0x10) != 0);
    }

    /// Sets every flag but carry from a subtraction of `src` from `dst` that
    /// gave `res`.
    pub fn set_flags_sub(&mut self, src: u16, dst: u16, res: u16)
        ensures
            *final(self) == old(self).with_flag(Flag::Zero, res == 0).with_flag(
                Flag::Sign,
                res & 0x8000 != 0,
            ).with_flag(Flag::Overflow, (dst ^ src) & (dst ^ res) & 0x8000 != 0).with_flag(
                Flag::Parity,
                ones_in_low_byte(res) % 2 == 0,
            ).with_flag(Flag::Auxiliary, (dst ^ src ^ res) & 0x10 != 0),
    {
        self.set_flag(Flag::Zero, res == 0);
        self.set_flag(Flag::Sign, (res & 0x8000) != 0);
        self.set_flag(Flag::Overflow, ((dst ^ src) & (dst ^ res) & 0x8000) != 0);
        self.set_flag(Flag::Parity, even_parity(res));
        self.set_flag(Flag::Auxiliary, ((dst ^ src ^ res) & 0x10) != 0);
    }

    /// Adds `src` to `dst`, wrapping at sixteen bits, and sets the flags.
    pub fn alu_add(&mut self, dst: u16, src: u16) -> (res: u16)
        ensures
            res == wrapped_sum(dst, src),
            *final(self) == old(self).with_flags(flags_after_add(dst, src)),
    {
        let res = dst.wrapping_add(src);
        self.set_flag(Flag::Carry, dst > 0xffff - src);
        self.set_flags_add(src, dst, res);
        res
    }

    /// Subtracts `src` from `dst`, wrapping at sixteen bits, and sets the
    /// flags.
    pub fn alu_sub(&mut self, dst: u16, src: u16) -> (res: u16)
        ensures
            res == wrapped_difference(dst, src),
            *final(self) == old(self).with_flags(flags_after_sub(dst, src)),
    {
        let res = dst.wrapping_sub(src);
        self.set_flag(Flag::Carry, dst < src);
        self.set_flags_sub(src, dst, res);
        res
    }
}

/// The word, or the byte of it that is asked for.
fn byte_view(word: u16, byte: bool, low: bool) -> (value: u16)
    ensures
        value == if !byte {
            word
        } else if low {
            word % 0x100
        } else {
            word / 0x100
        },
{
    assert(word & 0x00ff == word % 0x100 && word >> 8 == word / 0x100) by (bit_vector);
    if !byte {
        word
    } else if low {
        word & 0x00ff
    } else {
        word >> 8
    }
}

/// The word with the low byte of `value` in place of the byte asked for, or
/// `value` itself where no byte is asked for.
fn merged(word: u16, value: u16, byte: bool, low: bool) -> (result: u16)
    ensures
        result == if !byte {
            value as int
        } else if low {
            (word / 0x100) * 0x100 + value % 0x100
        } else {
            (value % 0x100) * 0x100 + word % 0x100
        },
{
    assert((word & 0xff00) | (value & 0x00ff) == (word / 0x100) * 0x100 + value % 0x100)
        by (bit_vector);
    assert((word & 0x00ff) | ((value & 0x00ff) << 8) == (value % 0x100) * 0x100 + word % 0x100)
        by (bit_vector);
    if !byte {
        value
    } else if low {
        (word & 0xff00) | (value & 0x00ff)
    } else {
        (word & 0x00ff) | ((value & 0x00ff) << 8)
    }
}

/// A word written to a general register reads back whole, and its two bytes
/// read back through the byte views of the register.
pub proof fn lemma_word_write_shows_in_bytes(
    registers: RegisterFile,
    index: RegisterIndex,
    value: u16,
)
    requires
        index.has_byte_views(),
    ensures
        registers.updated(RegisterAccess::whole(index), value).value_of(
            RegisterAccess::whole(index),
        ) == value,
        registers.updated(RegisterAccess::whole(index), value).value_of(
            RegisterAccess::low_byte(index),
        ) == value & 0xff,
        registers.updated(RegisterAccess::whole(index), value).value_of(
            RegisterAccess::high_byte(index),
        ) == (value >> 8) & 0xff,
{
    assert(value % 0x100 == value & 0xff && value / 0x100 == (value >> 8) & 0xff) by (bit_vector);
}

/// A byte written to a general register reads back as the low byte of what
/// was written, and leaves the other byte of the register as it was.
pub proof fn lemma_byte_write_keeps_other_byte(
    registers: RegisterFile,
    index: RegisterIndex,
    value: u16,
)
    requires
        index.has_byte_views(),
    ensures
        registers.updated(RegisterAccess::low_byte(index), value).value_of(
            RegisterAccess::low_byte(index),
        ) == value & 0xff,
        registers.updated(RegisterAccess::low_byte(index), value).value_of(
            RegisterAccess::high_byte(index),
        ) == registers.value_of(RegisterAccess::high_byte(index)),
        registers.updated(RegisterAccess::high_byte(index), value).value_of(
            RegisterAccess::high_byte(index),
        ) == value & 0xff,
        registers.updated(RegisterAccess::high_byte(index), value).value_of(
            RegisterAccess::low_byte(index),
        ) == registers.value_of(RegisterAccess::low_byte(index)),
{
    assert(value % 0x100 == value & 0xff) by (bit_vector);
}

/// A write through any access leaves every other register as it was.
pub proof fn lemma_write_keeps_other_registers(
    registers: RegisterFile,
    access: RegisterAccess,
    value: u16,
    other: RegisterIndex,
)
    requires
        other != access.index,
    ensures
        registers.updated(access, value).word(other) == registers.word(other),
{
}

/// A flag that has been set or cleared reads back as it was written, and
/// every other flag as before.
pub proof fn lemma_flag_written(registers: RegisterFile, flag: Flag, value: bool, other: Flag)
    ensures
        registers.with_flag(flag, value).flag(flag) == value,
        other != flag ==> registers.with_flag(flag, value).flag(other) == registers.flag(other),
        forall|index: RegisterIndex|
            index != RegisterIndex::Flags ==> registers.with_flag(flag, value).word(index)
                == registers.word(index),
{
    let flags = registers.flags;
    let mask = flag.spec_mask();
    let other_mask = other.spec_mask();
    assert(mask != 0 ==> (flags | mask) & mask != 0 && (flags & !mask) & mask == 0) by (bit_vector);
    assert(mask & other_mask == 0 ==> (flags | mask) & other_mask == flags & other_mask && (flags
        & !mask) & other_mask == flags & other_mask) by (bit_vector);
    assert(other != flag ==> mask & other_mask == 0) by {
        assert(0x0001u16 & 0x0004 == 0 && 0x0001u16 & 0x0010 == 0 && 0x0001u16 & 0x0040 == 0
            && 0x0001u16 & 0x0080 == 0 && 0x0001u16 & 0x0800 == 0 && 0x0004u16 & 0x0010 == 0
            && 0x0004u16 & 0x0040 == 0 && 0x0004u16 & 0x0080 == 0 && 0x0004u16 & 0x0800 == 0
            && 0x0010u16 & 0x0040 == 0 && 0x0010u16 & 0x0080 == 0 && 0x0010u16 & 0x0800 == 0
            && 0x0040u16 & 0x0080 == 0 && 0x0040u16 & 0x0800 == 0 && 0x0080u16 & 0x0800 == 0)
            by (bit_vector);
        assert(forall|a: u16, b: u16| #[trigger] (a & b) == b & a) by (bit_vector);
    }
}

/// After the six flags have been written together, each reads back as it was
/// written, and every register but the flags is as it was.
pub proof fn lemma_flags_written(registers: RegisterFile, values: FlagValues)
    ensures
        registers.with_flags(values).flag(Flag::Carry) == values.carry,
        registers.with_flags(values).flag(Flag::Parity) == values.parity,
        registers.with_flags(values).flag(Flag::Auxiliary) == values.auxiliary,
        registers.with_flags(values).flag(Flag::Zero) == values.zero,
        registers.with_flags(values).flag(Flag::Sign) == values.sign,
        registers.with_flags(values).flag(Flag::Overflow) == values.overflow,
        forall|index: RegisterIndex|
            index != RegisterIndex::Flags ==> registers.with_flags(values).word(index)
                == registers.word(index),
{
    let r1 = registers.with_flag(Flag::Carry, values.carry);
    let r2 = r1.with_flag(Flag::Zero, values.zero);
    let r3 = r2.with_flag(Flag::Sign, values.sign);
    let r4 = r3.with_flag(Flag::Overflow, values.overflow);
    let r5 = r4.with_flag(Flag::Parity, values.parity);
    let r6 = r5.with_flag(Flag::Auxiliary, values.auxiliary);
    assert(r6 == registers.with_flags(values));
    lemma_flag_written(registers, Flag::Carry, values.carry, Flag::Carry);
    lemma_flag_written(r1, Flag::Zero, values.zero, Flag::Carry);
    lemma_flag_written(r2, Flag::Sign, values.sign, Flag::Carry);
    lemma_flag_written(r2, Flag::Sign, values.sign, Flag::Zero);
    lemma_flag_written(r3, Flag::Overflow, values.overflow, Flag::Carry);
    lemma_flag_written(r3, Flag::Overflow, values.overflow, Flag::Zero);
    lemma_flag_written(r3, Flag::Overflow, values.overflow, Flag::Sign);
    lemma_flag_written(r4, Flag::Parity, values.parity, Flag::Carry);
    lemma_flag_written(r4, Flag::Parity, values.parity, Flag::Zero);
    lemma_flag_written(r4, Flag::Parity, values.parity, Flag::Sign);
    lemma_flag_written(r4, Flag::Parity, values.parity, Flag::Overflow);
    lemma_flag_written(r5, Flag::Auxiliary, values.auxiliary, Flag::Carry);
    lemma_flag_written(r5, Flag::Auxiliary, values.auxiliary, Flag::Zero);
    lemma_flag_written(r5, Flag::Auxiliary, values.auxiliary, Flag::Sign);
    lemma_flag_written(r5, Flag::Auxiliary, values.auxiliary, Flag::Overflow);
    lemma_flag_written(r5, Flag::Auxiliary, values.auxiliary, Flag::Parity);
}

/// A word read as a number from -32768 to 32767.
pub open spec fn signed_value(word: u16) -> int {
    if word < 0x8000 {
        word as int
    } else {
        word - 0x1_0000
    }
}

/// What the flags of an addition say about the numbers added. Sign says that
/// the result is negative as a signed number; overflow, that the sum of the
/// operands as signed numbers does not fit a word; auxiliary, that the low
/// nibbles of the operands add up to more than a nibble.
pub proof fn lemma_add_flags_meaning(dst: u16, src: u16)
    ensures
        flags_after_add(dst, src).sign == (signed_value(wrapped_sum(dst, src)) < 0),
        flags_after_add(dst, src).overflow == !(-0x8000 <= signed_value(dst) + signed_value(src)
            <= 0x7fff),
        flags_after_add(dst, src).auxiliary == (dst % 0x10 + src % 0x10 > 0xf),
{
    let result = wrapped_sum(dst, src);
    assert((result & 0x8000 != 0) == (result >= 0x8000)) by (bit_vector);
    assert(((dst ^ result) & (src ^ result) & 0x8000 != 0) == ((dst >= 0x8000) == (src >= 0x8000)
        && (result >= 0x8000) != (dst >= 0x8000))) by (bit_vector);
    assert(((dst ^ src ^ result) & 0x10 != 0) == ((dst & 0xf) + (src & 0xf) > 0xf)) by (bit_vector)
        requires
            result as u32 == (((dst as u32) + (src as u32)) as u32) % 0x1_0000u32,
    ;
    assert(dst & 0xf == dst % 0x10 && src & 0xf == src % 0x10) by (bit_vector);
}

/// What the flags of a subtraction say about the numbers subtracted. Sign says
/// that the result is negative as a signed number; overflow, that the
/// difference of the operands as signed numbers does not fit a word;
/// auxiliary, that the low nibble of the first operand is less than that of
/// the second.
pub proof fn lemma_sub_flags_meaning(dst: u16, src: u16)
    ensures
        flags_after_sub(dst, src).sign == (signed_value(wrapped_difference(dst, src)) < 0),
        flags_after_sub(dst, src).overflow == !(-0x8000 <= signed_value(dst) - signed_value(src)
            <= 0x7fff),
        flags_after_sub(dst, src).auxiliary == (dst % 0x10 < src % 0x10),
{
    let result = wrapped_difference(dst, src);
    assert((result & 0x8000 != 0) == (result >= 0x8000)) by (bit_vector);
    assert(((dst ^ src) & (dst ^ result) & 0x8000 != 0) == ((dst >= 0x8000) != (src >= 0x8000)
        && (result >= 0x8000) != (dst >= 0x8000))) by (bit_vector);
    assert(((dst ^ src ^ result) & 0x10 != 0) == ((dst & 0xf) < (src & 0xf))) by (bit_vector)
        requires
            result as u32 == (((dst as u32) + 0x1_0000u32 - (src as u32)) as u32) % 0x1_0000u32,
    ;
    assert(dst & 0xf == dst % 0x10 && src & 0xf == src % 0x10) by (bit_vector);
}

} // verus!
