//! The linear memory of a sandbox, and the bounds-checked copies that host
//! functions make into and out of it.

use vstd::prelude::*;
use wasmer_runtime_core::memory::Memory;
use crate::error::VmError;

verus! {

/// The linear memory of a sandbox. Its bytes are read and written through
/// the three functions below, whose contracts are taken on trust. A memory
/// is a handle: the contracts take it that, while a host function runs,
/// nothing else writes the bytes behind it.
#[verifier::external_type_specification]
#[verifier::external_body]
pub struct ExMemory(Memory);

/// The bytes that a memory currently exposes to the host.
pub uninterp spec fn memory_bytes(memory: Memory) -> Seq<u8>;

/// Calls `Memory::view::<u8>` and takes the length of the view: the number
/// of bytes the host can reach.
#[verifier::external_body]
fn memory_len(memory: &Memory) -> (n: usize)
    ensures
        n == memory_bytes(*memory).len(),
{
    memory.view::<u8>().len()
}

/// Calls `Memory::view::<u8>` and reads the cell at `index`.
#[verifier::external_body]
fn memory_get(memory: &Memory, index: usize) -> (byte: u8)
    requires
        index < memory_bytes(*memory).len(),
    ensures
        byte == memory_bytes(*memory)[index as int],
{
    memory.view::<u8>()[index].get()
}

/// Calls `Memory::view::<u8>` and writes the cell at `index`; every other
/// byte stays as it was.
#[verifier::external_body]
fn memory_set(memory: &mut Memory, index: usize, byte: u8)
    requires
        index < memory_bytes(*old(memory)).len(),
    ensures
        memory_bytes(*final(memory)) == memory_bytes(*old(memory)).update(index as int, byte),
{
    memory.view::<u8>()[index].set(byte)
}

/// Whether `len` bytes starting at `ptr` lie inside a memory of `size` bytes.
pub open spec fn in_bounds(ptr: int, len: int, size: int) -> bool {
    0 <= ptr && 0 <= len && ptr + len <= size
}

/// Checks a `(pointer, length)` pair handed over by the sandbox against the
/// size of its memory and turns it into a byte range.
pub fn checked_range(ptr: i64, len: i64, size: usize) -> (range: Option<(usize, usize)>)
    ensures
        in_bounds(ptr as int, len as int, size as int) <==> range is Some,
        range matches Some((start, end)) ==> start == ptr && end == ptr + len,
{
    if ptr < 0 || len < 0 {
        return None;
    }
    let start: u64 = ptr as u64;
    let end: u64 = start + len as u64;
    if end > size as u64 {
        return None;
    }
    Some((start as usize, end as usize))
}

/// The memory `mem` after `data` was written at `start`.
pub open spec fn written(mem: Seq<u8>, start: int, data: Seq<u8>) -> Seq<u8> {
    mem.subrange(0, start) + data + mem.subrange(start + data.len(), mem.len() as int)
}

/// What copying the first `len` bytes of `data` to `ptr` makes of a memory:
/// the memory afterwards, or the signal that refuses the copy.
pub open spec fn copy_in(mem: Seq<u8>, data: Seq<u8>, ptr: int, len: int) -> Result<
    Seq<u8>,
    VmError,
> {
    if len > data.len() {
        Err(VmError::DataLengthOutOfBound)
    } else if !in_bounds(ptr, len, mem.len() as int) {
        Err(VmError::MemoryOutOfBound)
    } else {
        Ok(written(mem, ptr, data.subrange(0, len)))
    }
}

/// What reading `len` bytes at `ptr` out of a memory gives.
pub open spec fn copy_out(mem: Seq<u8>, ptr: int, len: int) -> Result<Seq<u8>, VmError> {
    if in_bounds(ptr, len, mem.len() as int) {
        Ok(mem.subrange(ptr, ptr + len))
    } else {
        Err(VmError::MemoryOutOfBound)
    }
}

/// Copies the first `len` bytes of `data` into the memory at `ptr`. A
/// negative pointer or length, a range that leaves the memory, or a length
/// beyond the end of `data` is refused and leaves the memory as it was.
pub fn write_bytes(memory: &mut Memory, data: &[u8], ptr: i64, len: i64) -> (r: Result<(), VmError>)
    ensures
        match copy_in(memory_bytes(*old(memory)), data@, ptr as int, len as int) {
            Ok(after) => r is Ok && memory_bytes(*final(memory)) == after,
            Err(e) => r == Err::<(), VmError>(e) && memory_bytes(*final(memory)) == memory_bytes(
                *old(memory),
            ),
        },
{
    if len > 0 && len as u64 > data.len() as u64 {
        return Err(VmError::DataLengthOutOfBound);
    }
    let size = memory_len(memory);
    let (start, end) = match checked_range(ptr, len, size) {
        Some(range) => range,
        None => return Err(VmError::MemoryOutOfBound),
    };
    let count: usize = end - start;
    let ghost before = memory_bytes(*memory);
    let mut i: usize = 0;
    while i < count
        invariant
            i <= count,
            count <= data@.len(),
            start + count == end,
            end <= before.len(),
            memory_bytes(*memory) == written(before, start as int, data@.subrange(0, i as int)),
        decreases count - i,
    {
        memory_set(memory, start + i, data[i]);
        i = i + 1;
    }
    Ok(())
}

/// Reads `len` bytes at `ptr` out of the memory. A negative pointer or
/// length, or a range that leaves the memory, is refused.
pub fn read_bytes(memory: &Memory, ptr: i64, len: i64) -> (r: Result<Vec<u8>, VmError>)
    ensures
        match copy_out(memory_bytes(*memory), ptr as int, len as int) {
            Ok(bytes) => r matches Ok(v) && v@ == bytes,
            Err(e) => r matches Err(f) && f == e,
        },
{
    let size = memory_len(memory);
    let (start, end) = match checked_range(ptr, len, size) {
        Some(range) => range,
        None => return Err(VmError::MemoryOutOfBound),
    };
    let mut bytes: Vec<u8> = Vec::new();
    let mut i: usize = start;
    while i < end
        invariant
            start <= i <= end,
            end <= memory_bytes(*memory).len(),
            bytes@ == memory_bytes(*memory).subrange(start as int, i as int),
        decreases end - i,
    {
        bytes.push(memory_get(memory, i));
        i = i + 1;
    }
    Ok(bytes)
}

/// A copy into the memory never reads beyond the buffer it copies from:
/// a length beyond the end of `data` is always refused, and a copy that is
/// made changes the `len` bytes at `ptr` to the first `len` bytes of `data`
/// and no other byte.
pub proof fn lemma_copy_in_stays_inside(mem: Seq<u8>, data: Seq<u8>, ptr: int, len: int)
    ensures
        len > data.len() ==> copy_in(mem, data, ptr, len) == Err::<Seq<u8>, VmError>(
            VmError::DataLengthOutOfBound,
        ),
        copy_in(mem, data, ptr, len) matches Ok(after) ==> {
            &&& 0 <= len <= data.len()
            &&& in_bounds(ptr, len, mem.len() as int)
            &&& after.len() == mem.len()
            &&& forall|i: int|
                0 <= i < mem.len() ==> after[i] == if ptr <= i < ptr + len {
                    data[i - ptr]
                } else {
                    mem[i]
                }
        },
{
}

/// Bytes copied into the memory and read back from the same place are the
/// bytes that were copied.
pub proof fn lemma_copy_round_trip(mem: Seq<u8>, data: Seq<u8>, ptr: int, len: int)
    requires
        copy_in(mem, data, ptr, len) is Ok,
    ensures
        copy_out(copy_in(mem, data, ptr, len)->Ok_0, ptr, len) == Ok::<Seq<u8>, VmError>(
            data.subrange(0, len),
        ),
{
    let after = copy_in(mem, data, ptr, len)->Ok_0;
    assert(after.subrange(ptr, ptr + len) =~= data.subrange(0, len));
}

/// A buffer that is copied whole into the memory and handed back from the
/// same place comes back byte for byte.
pub proof fn lemma_echo(mem: Seq<u8>, data: Seq<u8>, ptr: int)
    requires
        in_bounds(ptr, data.len() as int, mem.len() as int),
    ensures
        copy_in(mem, data, ptr, data.len() as int) is Ok,
        copy_out(copy_in(mem, data, ptr, data.len() as int)->Ok_0, ptr, data.len() as int)
            == Ok::<Seq<u8>, VmError>(data),
{
    lemma_copy_round_trip(mem, data, ptr, data.len() as int);
    assert(data.subrange(0, data.len() as int) == data);
}

} // verus!
