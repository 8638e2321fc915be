//! The address space and its segment map.
//!
//! The machine sees one flat byte array of `TOTAL_SIZE` (0x4000) bytes,
//! logically split into three segments over the same storage:
//!
//! | Segment   | Start  | Size   | Writable |
//! |-----------|--------|--------|----------|
//! | Program   | 0x0000 | 0x2000 | no       |
//! | Scratch   | 0x2000 | 0x0400 | yes      |
//! | Video RAM | 0x2400 | 0x1C00 | yes      |
//!
//! `write` enforces the segment map; `load` deliberately bypasses it, since it
//! stands for flashing a program or video image into the array before
//! execution begins.

use vstd::prelude::*;

verus! {

/// Total number of bytes in the address space.
pub const TOTAL_SIZE: usize = 0x4000;

/// First address of the read-only program (ROM) segment.
pub const ROM_START: usize = 0x0000;

/// Size of the program segment.
pub const ROM_SIZE: usize = 0x2000;

/// First address of the writable scratch RAM segment.
pub const RAM_START: usize = ROM_START + ROM_SIZE;

/// Size of the scratch RAM segment.
pub const RAM_SIZE: usize = 0x0400;

/// First address of the writable video RAM segment.
pub const VRAM_START: usize = RAM_START + RAM_SIZE;

/// Size of the video RAM segment.
pub const VRAM_SIZE: usize = 0x1C00;

/// The three logical segments of the address space.
#[derive(Clone, Copy, Debug, PartialEq, Eq, Structural)]
pub enum Segment {
    /// The read-only program image (ROM).
    Program,
    /// The small writable scratch area.
    Scratch,
    /// The writable display memory.
    VideoRam,
}

/// Which segment an in-range address falls in.
pub open spec fn spec_segment_of(address: int) -> Segment {
    if address < RAM_START {
        Segment::Program
    } else if address < VRAM_START {
        Segment::Scratch
    } else {
        Segment::VideoRam
    }
}

/// Whether a segment accepts single-byte writes.
pub open spec fn spec_segment_writable(segment: Segment) -> bool {
    match segment {
        Segment::Program => false,
        Segment::Scratch => true,
        Segment::VideoRam => true,
    }
}

/// Whether `write` may touch `address`: the address is in range and its
/// segment is writable.
pub open spec fn writable(address: int) -> bool {
    0 <= address < TOTAL_SIZE && spec_segment_writable(spec_segment_of(address))
}

/// Which segment an address falls in.
pub fn segment_of(address: u16) -> (segment: Segment)
    requires
        address < TOTAL_SIZE,
    ensures
        segment == spec_segment_of(address as int),
{
    if (address as usize) < RAM_START {
        Segment::Program
    } else if (address as usize) < VRAM_START {
        Segment::Scratch
    } else {
        Segment::VideoRam
    }
}

/// Whether a segment accepts single-byte writes.
pub fn segment_writable(segment: Segment) -> (writable: bool)
    ensures
        writable == spec_segment_writable(segment),
{
    match segment {
        Segment::Program => false,
        Segment::Scratch => true,
        Segment::VideoRam => true,
    }
}

/// Why an access was rejected.
#[derive(Clone, Copy, Debug, PartialEq, Eq, Structural)]
pub enum MemoryError {
    /// `write` targeted the read-only program segment or an address at or
    /// beyond the top of the address space.
    InvalidWriteAddress,
    /// `load` was asked for a span that runs past the top of the address
    /// space. The whole load is rejected; no byte is copied.
    OutOfRangeLoad,
}

/// The address space: the flat byte store together with the segment map that
/// governs access to it.
pub struct Memory {
    /// The backing storage, always exactly `TOTAL_SIZE` bytes.
    pub memory: Vec<u8>,
}

impl View for Memory {
    type V = Seq<u8>;

    open spec fn view(&self) -> Seq<u8> {
        self.memory@
    }
}

impl Memory {
    /// The storage invariant: every instance holds exactly `TOTAL_SIZE` bytes
    /// for its whole lifetime.
    pub open spec fn wf(&self) -> bool {
        self@.len() == TOTAL_SIZE
    }

    /// The byte stored at `address`. Reads never fail: every address below
    /// `TOTAL_SIZE` is valid, whatever segment it falls in.
    pub fn read(&self, address: u16) -> (value: u8)
        requires
            self.wf(),
            address < TOTAL_SIZE,
        ensures
            value == self@[address as int],
    {
        self.memory[address as usize]
    }

    /// The bytes of the contiguous sub-range `[start, end)` of storage, in
    /// address order. Used to read back loaded blocks or to give a caller a
    /// window for bulk inspection.
    pub fn read_range(&self, start: usize, end: usize) -> (bytes: Vec<u8>)
        requires
            self.wf(),
            start <= end <= TOTAL_SIZE,
        ensures
            bytes@ == self@.subrange(start as int, end as int),
    {
        let mut bytes: Vec<u8> = Vec::new();
        let mut idx: usize = start;
        while idx < end
            invariant
                start <= idx <= end <= TOTAL_SIZE,
                self@.len() == TOTAL_SIZE,
                bytes@.len() == idx - start,
                forall|j: int| start <= j < idx ==> bytes@[j - start] == self@[j],
            decreases end - idx,
        {
            bytes.push(self.memory[idx]);
            idx += 1;
        }
        proof {
            assert(bytes@ =~= self@.subrange(start as int, end as int));
        }
        bytes
    }

    /// The bytes of the open-ended range `[start, ...)`, clipped to the top
    /// of the address space.
    pub fn read_from(&self, start: usize) -> (bytes: Vec<u8>)
        requires
            self.wf(),
            start <= TOTAL_SIZE,
        ensures
            bytes@ == self@.skip(start as int),
    {
        let bytes = self.read_range(start, TOTAL_SIZE);
        proof {
            assert(bytes@ =~= self@.skip(start as int));
        }
        bytes
    }

    /// Store `value` at `address`, subject to the segment map: the program
    /// segment and everything at or beyond the top of the address space are
    /// rejected with `InvalidWriteAddress`, and the storage is then left
    /// unchanged. A successful write replaces the one byte at `address` and
    /// no other.
    pub fn write(&mut self, address: u16, value: u8) -> (result: Result<(), MemoryError>)
        requires
            old(self).wf(),
        ensures
            final(self).wf(),
            result is Ok <==> writable(address as int),
            result is Ok ==> final(self)@ == old(self)@.update(address as int, value),
            result is Err ==> final(self)@ == old(self)@,
            result is Err ==> result == Err::<(), MemoryError>(MemoryError::InvalidWriteAddress),
    {
        if (address as usize) < TOTAL_SIZE && segment_writable(segment_of(address)) {
            self.memory[address as usize] = value;
            Ok(())
        } else {
            Err(MemoryError::InvalidWriteAddress)
        }
    }

    /// Copy `block` into storage starting at `position`, in index order.
    /// The segment map is deliberately bypassed: a load may fill the program
    /// segment, since it stands for flashing an image before execution. A
    /// span that would run past the top of the address space is rejected
    /// whole with `OutOfRangeLoad`, leaving every byte unchanged.
    pub fn load(&mut self, block: &[u8], position: u16) -> (result: Result<(), MemoryError>)
        requires
            old(self).wf(),
        ensures
            final(self).wf(),
            result is Ok <==> position + block@.len() <= TOTAL_SIZE,
            result is Ok ==> final(self)@ == old(self)@.take(position as int) + block@
                + old(self)@.skip(position + block@.len()),
            result is Err ==> final(self)@ == old(self)@,
            result is Err ==> result == Err::<(), MemoryError>(MemoryError::OutOfRangeLoad),
    {
        if (position as usize) > TOTAL_SIZE || block.len() > TOTAL_SIZE - (position as usize) {
            return Err(MemoryError::OutOfRangeLoad);
        }
        let mut idx: usize = 0;
        while idx < block.len()
            invariant
                idx <= block@.len(),
                position + block@.len() <= TOTAL_SIZE,
                self@.len() == TOTAL_SIZE,
                forall|j: int| 0 <= j < idx ==> self@[position + j] == block@[j],
                forall|k: int|
                    0 <= k < TOTAL_SIZE && !(position <= k < position + idx) ==> self@[k]
                        == old(self)@[k],
            decreases block@.len() - idx,
        {
            self.memory[position as usize + idx] = block[idx];
            idx += 1;
        }
        proof {
            assert(self@ =~= old(self)@.take(position as int) + block@
                + old(self)@.skip(position + block@.len()));
        }
        Ok(())
    }
}

/// Idempotence of `write`: storing `value` at a writable `address` twice in
/// succession leaves exactly the contents that one store leaves. Stated over
/// the contents model that `Memory::write`'s postcondition uses, so two
/// successive successful calls are observably the same as one.
pub proof fn lemma_write_idempotent(contents: Seq<u8>, address: u16, value: u8)
    requires
        contents.len() == TOTAL_SIZE,
        writable(address as int),
    ensures
        contents.update(address as int, value).update(address as int, value) == contents.update(
            address as int,
            value,
        ),
{
    assert(contents.update(address as int, value).update(address as int, value) =~= contents.update(
        address as int,
        value,
    ));
}

impl Default for Memory {
    /// A freshly constructed address space: `TOTAL_SIZE` bytes, all zero.
    fn default() -> (memory: Self)
        ensures
            memory.wf(),
            forall|i: int| 0 <= i < TOTAL_SIZE ==> memory@[i] == 0u8,
    {
        let mut storage: Vec<u8> = Vec::new();
        while storage.len() < TOTAL_SIZE
            invariant
                storage@.len() <= TOTAL_SIZE,
                forall|i: int| 0 <= i < storage@.len() ==> storage@[i] == 0u8,
            decreases TOTAL_SIZE - storage@.len(),
        {
            storage.push(0u8);
        }
        Memory { memory: storage }
    }
}

} // verus!

