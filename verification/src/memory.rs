//! The memory bridge: from module-relative offsets to host memory.
//!
//! A module declares the base address of its linear memory; every offset it
//! hands out is relative to that base. [`resolve`] turns an offset into a
//! host address. The other functions work on the module's memory held as a
//! byte slice that starts at the base, and never reach past its end.

use vstd::prelude::*;
use crate::codec::{unpack, unpack_spec};

verus! {

/// A region that does not lie within a module's memory.
#[derive(Clone, Copy, Debug, PartialEq, Eq)]
pub struct OutOfBounds {
    /// Module-relative offset at which the region starts.
    pub offset: u32,
    /// Length of the region in bytes.
    pub length: usize,
    /// Number of bytes that the module's memory holds.
    pub extent: usize,
}

/// Whether `length` bytes at `offset` lie within a memory of `extent` bytes.
pub open spec fn in_bounds(extent: nat, offset: u32, length: u32) -> bool {
    offset as nat + length as nat <= extent
}

/// The bytes of `memory` that a region names.
pub open spec fn region(memory: Seq<u8>, offset: u32, length: u32) -> Seq<u8>
    recommends
        in_bounds(memory.len(), offset, length),
{
    memory.subrange(offset as int, offset as int + length as int)
}

/// `memory` with the region of `length` bytes at `offset` replaced by
/// `data`, and every byte before and after the region kept.
pub open spec fn replaced(memory: Seq<u8>, offset: u32, length: u32, data: Seq<u8>) -> Seq<u8>
    recommends
        in_bounds(memory.len(), offset, length),
{
    memory.subrange(0, offset as int) + data + memory.subrange(
        offset as int + length as int,
        memory.len() as int,
    )
}

/// The host address of the byte at `offset` in a memory that starts at
/// `base`.
pub fn resolve(base: usize, offset: u32) -> (address: usize)
    requires
        base + offset <= usize::MAX,
    ensures
        address == base + offset,
{
    base + offset as usize
}

/// Tests whether a region lies within `memory`.
pub fn contains(memory: &[u8], offset: u32, length: u32) -> (inside: bool)
    ensures
        inside == in_bounds(memory@.len(), offset, length),
{
    let extent: usize = memory.len();
    offset as usize <= extent && length as usize <= extent - offset as usize
}

/// The region of `length` bytes at `offset`, borrowed from `memory`.
pub fn view(memory: &[u8], offset: u32, length: u32) -> (bytes: &[u8])
    requires
        in_bounds(memory@.len(), offset, length),
    ensures
        bytes@ == region(memory@, offset, length),
{
    let extent: usize = memory.len();
    let start: usize = offset as usize;
    let end: usize = start + length as usize;
    vstd::slice::slice_subrange(memory, start, end)
}

/// The region of `length` bytes at `offset`, borrowed mutably from `memory`:
/// what is written through the result lands in `memory`, and the bytes
/// around the region stay as they were.
pub fn view_mut(memory: &mut [u8], offset: u32, length: u32) -> (bytes: &mut [u8])
    requires
        in_bounds(old(memory)@.len(), offset, length),
    ensures
        bytes@ == region(old(memory)@, offset, length),
        final(memory)@ == replaced(old(memory)@, offset, length, final(bytes)@),
{
    let (_, tail) = memory.split_at_mut(offset as usize);
    let (bytes, _) = tail.split_at_mut(length as usize);
    bytes
}

/// Copies `data` into `memory` from `offset` on. Nothing is written unless
/// all of `data` fits.
pub fn write_at(memory: &mut [u8], offset: u32, data: &[u8]) -> (outcome: Result<(), OutOfBounds>)
    ensures
        outcome is Ok <==> offset + data@.len() <= old(memory)@.len(),
        outcome is Ok ==> final(memory)@ == old(memory)@.subrange(0, offset as int) + data@
            + old(memory)@.subrange(offset + data@.len(), old(memory)@.len() as int),
        outcome matches Err(e) ==> final(memory)@ == old(memory)@ && e == (OutOfBounds {
            offset,
            length: data@.len() as usize,
            extent: old(memory)@.len() as usize,
        }),
{
    let extent: usize = memory.len();
    let count: usize = data.len();
    if offset as usize > extent || count > extent - offset as usize {
        return Err(OutOfBounds { offset, length: count, extent });
    }
    let start: usize = offset as usize;
    let mut done: usize = 0;
    while done < count
        invariant
            done <= count,
            count == data@.len(),
            start == offset,
            start + count <= extent,
            extent == old(memory)@.len(),
            memory@.len() == extent,
            memory@ == old(memory)@.subrange(0, start as int) + data@.subrange(0, done as int)
                + old(memory)@.subrange(start + done, extent as int),
        decreases count - done,
    {
        memory[start + done] = data[done];
        done = done + 1;
    }
    assert(data@.subrange(0, count as int) == data@);
    Ok(())
}

/// The region that a packed value names, borrowed from `memory`.
pub fn polka_wasm_result_to_slice(memory: &[u8], result: u64) -> (outcome: Result<
    &[u8],
    OutOfBounds,
>)
    ensures
        outcome is Ok <==> in_bounds(memory@.len(), unpack_spec(result).0, unpack_spec(result).1),
        outcome matches Ok(bytes) ==> bytes@ == region(
            memory@,
            unpack_spec(result).0,
            unpack_spec(result).1,
        ),
        outcome matches Err(e) ==> e == (OutOfBounds {
            offset: unpack_spec(result).0,
            length: unpack_spec(result).1 as usize,
            extent: memory@.len() as usize,
        }),
{
    let (offset, length) = unpack(result);
    if contains(memory, offset, length) {
        Ok(view(memory, offset, length))
    } else {
        Err(OutOfBounds { offset, length: length as usize, extent: memory.len() })
    }
}

/// The region that a packed value names, borrowed mutably from `memory`.
/// Where the region does not lie within `memory`, `memory` is left as it
/// was.
pub fn polka_wasm_result_to_slice_mut(memory: &mut [u8], result: u64) -> (outcome: Result<
    &mut [u8],
    OutOfBounds,
>)
    ensures
        outcome is Ok <==> in_bounds(
            old(memory)@.len(),
            unpack_spec(result).0,
            unpack_spec(result).1,
        ),
        outcome matches Ok(bytes) ==> bytes@ == region(
            old(memory)@,
            unpack_spec(result).0,
            unpack_spec(result).1,
        ) && final(memory)@ == replaced(
            old(memory)@,
            unpack_spec(result).0,
            unpack_spec(result).1,
            final(bytes)@,
        ),
        outcome matches Err(e) ==> final(memory)@ == old(memory)@ && e == (OutOfBounds {
            offset: unpack_spec(result).0,
            length: unpack_spec(result).1 as usize,
            extent: old(memory)@.len() as usize,
        }),
{
    let (offset, length) = unpack(result);
    if contains(memory, offset, length) {
        Ok(view_mut(memory, offset, length))
    } else {
        Err(OutOfBounds { offset, length: length as usize, extent: memory.len() })
    }
}

} // verus!
