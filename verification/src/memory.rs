//! The flat, byte-addressable memory of the machine and the segment:offset
//! cursor that walks it.

use vstd::prelude::*;

verus! {

/// Number of bytes in the address space: one megabyte.
pub const MEMORY_SIZE: usize = 0x10_0000;

/// Mask that folds a sum of segment base and offset into the address space.
pub const MEMORY_ACCESS_MASK: u32 = 0xf_ffff;

/// The memory of the machine, one byte per address.
pub struct Memory {
    pub bytes: Vec<u8>,
}

impl View for Memory {
    type V = Seq<u8>;

    open spec fn view(&self) -> Seq<u8> {
        self.bytes@
    }
}

impl Memory {
    /// A memory is well formed when it holds the whole address space, so that
    /// every 20-bit address can be read.
    pub open spec fn wf(&self) -> bool {
        self.bytes.len() == MEMORY_SIZE
    }

    /// A memory whose bytes are all zero.
    pub fn new() -> (memory: Memory)
        ensures
            memory.wf(),
            memory@ == Seq::new(MEMORY_SIZE as nat, |i: int| 0u8),
    {
        let bytes = vec![0u8; MEMORY_SIZE];
        assert(bytes@ =~= Seq::new(MEMORY_SIZE as nat, |i: int| 0u8));
        Memory { bytes }
    }

    /// The byte at `absolute_address`.
    pub fn read(&self, absolute_address: u32) -> (byte: u8)
        requires
            absolute_address < self@.len(),
        ensures
            byte == self@[absolute_address as int],
    {
        self.bytes[absolute_address as usize]
    }

    /// Copies `data` into memory starting at `at_offset`, as far as it fits,
    /// and returns the number of bytes copied.
    pub fn load(&mut self, data: &[u8], at_offset: u32) -> (copied: u32)
        requires
            old(self).wf(),
        ensures
            final(self).wf(),
            copied == loaded_len(data@.len(), at_offset),
            final(self)@ == loaded(old(self)@, data@, at_offset),
    {
        if at_offset as usize >= MEMORY_SIZE {
            assert(self@ =~= loaded(self@, data@, at_offset));
            return 0;
        }
        let available: usize = MEMORY_SIZE - at_offset as usize;
        let count: usize = if data.len() < available {
            data.len()
        } else {
            available
        };
        let mut i: usize = 0;
        while i < count
            invariant
                i <= count,
                count <= data@.len(),
                at_offset + count <= MEMORY_SIZE,
                self.bytes.len() == MEMORY_SIZE,
                old(self).bytes.len() == MEMORY_SIZE,
                forall|k: int|
                    0 <= k < MEMORY_SIZE ==> #[trigger] self.bytes@[k] == (if at_offset <= k
                        < at_offset + i {
                        data@[k - at_offset]
                    } else {
                        old(self).bytes@[k]
                    }),
            decreases count - i,
        {
            self.bytes.set(at_offset as usize + i, data[i]);
            i += 1;
        }
        assert(self@ =~= loaded(old(self)@, data@, at_offset));
        count as u32
    }
}

/// How many bytes of a buffer of `len` bytes fit into memory from `at_offset`.
pub open spec fn loaded_len(len: nat, at_offset: u32) -> nat {
    if at_offset >= MEMORY_SIZE {
        0
    } else if len < MEMORY_SIZE - at_offset {
        len
    } else {
        (MEMORY_SIZE - at_offset) as nat
    }
}

/// Memory contents after `data` has been copied in at `at_offset`: the bytes
/// that fit replace what was there, every other byte stays.
pub open spec fn loaded(before: Seq<u8>, data: Seq<u8>, at_offset: u32) -> Seq<u8> {
    Seq::new(
        before.len(),
        |k: int|
            if at_offset <= k < at_offset + loaded_len(data.len(), at_offset) {
                data[k - at_offset]
            } else {
                before[k]
            },
    )
}

/// A position in memory given as a segment base and an offset into the segment.
#[derive(Debug, Clone, Copy)]
pub struct SegmentedAccess {
    pub segment_base: u16,
    pub segment_offset: u16,
}

impl Default for SegmentedAccess {
    fn default() -> (access: Self)
        ensures
            access.segment_base == 0,
            access.segment_offset == 0,
    {
        Self { segment_base: 0, segment_offset: 0 }
    }
}

/// The address that a segment base, an offset and a further offset name:
/// sixteen times the base plus both offsets, wrapped to twenty bits.
pub open spec fn absolute_address(
    segment_base: u16,
    segment_offset: u16,
    additional_offset: u16,
) -> int {
    (segment_base * 16 + segment_offset + additional_offset) % 0x10_0000
}

impl SegmentedAccess {
    /// The absolute address of the byte `additional_offset` bytes past this position.
    pub open spec fn address(self, additional_offset: u16) -> int {
        absolute_address(self.segment_base, self.segment_offset, additional_offset)
    }

    /// This position moved forward by `count` bytes; the offset wraps within
    /// the segment.
    pub open spec fn advanced(self, count: nat) -> SegmentedAccess {
        SegmentedAccess {
            segment_base: self.segment_base,
            segment_offset: ((self.segment_offset + count) % 0x1_0000) as u16,
        }
    }

    /// The absolute address of the byte `additional_offset` bytes past this position.
    pub fn get_absolute_address(&self, additional_offset: u16) -> (result: u32)
        ensures
            result == self.address(additional_offset),
            result < MEMORY_SIZE,
    {
        let base: u32 = self.segment_base as u32;
        let offset: u32 = self.segment_offset as u32;
        let extra: u32 = additional_offset as u32;
        assert(base << 4 == base * 16) by (bit_vector)
            requires
                base <= 0xffff,
        ;
        let sum: u32 = (base << 4) + offset + extra;
        assert(sum & 0xf_ffff == sum % 0x10_0000) by (bit_vector);
        sum & MEMORY_ACCESS_MASK
    }

    /// Moves this position one byte forward; the offset wraps within the segment.
    pub fn step(&mut self)
        ensures
            *final(self) == old(self).advanced(1),
    {
        self.segment_offset = self.segment_offset.wrapping_add(1);
    }
}

} // verus!
