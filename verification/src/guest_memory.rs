//! Copying bytes into and out of the linear memory of a guest.
use crate::error::{Error, ErrorView};
use vstd::prelude::*;

verus! {

/// Whether `size` bytes from `address` on lie within a memory of `memory_size` bytes.
pub open spec fn in_bounds(address: u32, size: nat, memory_size: nat) -> bool {
    address + size <= memory_size
}

/// The contents of `memory` after `data` was written to it at `address`.
pub open spec fn overwritten(memory: Seq<u8>, address: u32, data: Seq<u8>) -> Seq<u8> {
    memory.take(address as int) + data + memory.skip(address + data.len())
}

/// What reading `size` bytes from `memory` at `address` gives.
pub open spec fn memory_read<H>(memory: Seq<u8>, address: u32, size: u32) -> Result<
    Seq<u8>,
    ErrorView<H>,
> {
    if in_bounds(address, size as nat, memory.len()) {
        Ok(memory.subrange(address as int, address + size))
    } else {
        Err(ErrorView::Other("memory read is out of bounds"@))
    }
}

/// What writing `data` to `memory` at `address` reports.
pub open spec fn memory_write<H>(memory: Seq<u8>, address: u32, data: Seq<u8>) -> Result<
    (),
    ErrorView<H>,
> {
    if in_bounds(address, data.len(), memory.len()) {
        Ok(())
    } else {
        Err(ErrorView::Other("memory write is out of bounds"@))
    }
}

/// Fills `dest` from `memory` at `address`.
pub fn read_memory_into<H>(memory: &[u8], address: u32, dest: &mut [u8]) -> (read: Result<
    (),
    Error<H>,
>)
    ensures
        read is Ok <==> in_bounds(address, old(dest)@.len(), memory@.len()),
        read is Ok ==> final(dest)@ == memory@.subrange(
            address as int,
            address + old(dest)@.len(),
        ),
        read matches Err(error) ==> error@ == ErrorView::<H>::Other(
            "memory read is out of bounds"@,
        ) && final(dest)@ == old(dest)@,
{
    if address as usize > memory.len() || dest.len() > memory.len() - address as usize {
        return Err(Error::Other("memory read is out of bounds".to_owned()));
    }
    let start: usize = address as usize;
    let mut done: usize = 0;
    while done < dest.len()
        invariant
            start == address,
            done <= dest@.len(),
            dest@.len() == old(dest)@.len(),
            start + dest@.len() <= memory@.len() <= usize::MAX,
            dest@.take(done as int) == memory@.subrange(start as int, start + done),
        decreases dest@.len() - done,
    {
        let ghost before = dest@;
        dest[done] = memory[start + done];
        assert(dest@.take(done as int + 1) == before.take(done as int).push(
            memory@[start + done],
        ));
        done = done + 1;
    }
    assert(dest@.take(done as int) == dest@);
    Ok(())
}

/// Writes `data` to `memory` at `address`. Where it does not fit, nothing is written.
pub fn write_memory_from<H>(memory: &mut [u8], address: u32, data: &[u8]) -> (written: Result<
    (),
    Error<H>,
>)
    ensures
        written is Ok <==> in_bounds(address, data@.len(), old(memory)@.len()),
        written is Ok ==> final(memory)@ == overwritten(old(memory)@, address, data@),
        written matches Err(error) ==> error@ == ErrorView::<H>::Other(
            "memory write is out of bounds"@,
        ) && final(memory)@ == old(memory)@,
{
    if address as usize > memory.len() || data.len() > memory.len() - address as usize {
        return Err(Error::Other("memory write is out of bounds".to_owned()));
    }
    let start: usize = address as usize;
    let mut done: usize = 0;
    let ghost before = memory@;
    assert(memory@ == before.take(start as int) + data@.take(0) + before.skip(start as int));
    while done < data.len()
        invariant
            done <= data@.len(),
            start == address,
            before.len() == memory@.len(),
            start + data@.len() <= before.len() <= usize::MAX,
            memory@ == before.take(start as int) + data@.take(done as int) + before.skip(
                start + done,
            ),
        decreases data@.len() - done,
    {
        memory[start + done] = data[done];
        done = done + 1;
    }
    assert(data@.take(done as int) == data@);
    Ok(())
}

/// What was written is read back, as long as it fits in what a 32-bit length can say; and the rest
/// of the memory is left as it was.
pub proof fn written_is_read_back<H>(memory: Seq<u8>, address: u32, data: Seq<u8>)
    requires
        memory_write::<H>(memory, address, data) is Ok,
    ensures
        data.len() <= u32::MAX ==> memory_read::<H>(
            overwritten(memory, address, data),
            address,
            data.len() as u32,
        ) == Ok::<Seq<u8>, ErrorView<H>>(data),
        overwritten(memory, address, data).len() == memory.len(),
        forall|i: int|
            0 <= i < address || address + data.len() <= i < memory.len()
                ==> #[trigger] overwritten(memory, address, data)[i] == memory[i],
{
    assert(overwritten(memory, address, data).subrange(address as int, address + data.len())
        =~= data);
}

/// A read gives the bytes from the address on, as many as were asked for. It fails where the memory
/// does not have as many, and only there.
pub proof fn read_gives_what_is_there<H>(memory: Seq<u8>, address: u32, size: u32)
    ensures
        memory_read::<H>(memory, address, size) is Ok <==> address + size <= memory.len(),
        memory_read::<H>(memory, address, size) matches Ok(bytes) ==> {
            &&& bytes.len() == size
            &&& forall|i: int| 0 <= i < size ==> #[trigger] bytes[i] == memory[address + i]
        },
{
}

/// A write puts each byte of the data where it belongs. It fails where the memory has not enough
/// space from the address on, and only there.
pub proof fn write_puts_it_there<H>(memory: Seq<u8>, address: u32, data: Seq<u8>)
    ensures
        memory_write::<H>(memory, address, data) is Ok <==> address + data.len() <= memory.len(),
        address + data.len() <= memory.len() ==> {
            &&& overwritten(memory, address, data).len() == memory.len()
            &&& forall|i: int|
                0 <= i < data.len() ==> overwritten(memory, address, data)[address + i]
                    == #[trigger] data[i]
            &&& forall|i: int|
                0 <= i < address || address + data.len() <= i < memory.len()
                    ==> #[trigger] overwritten(memory, address, data)[i] == memory[i]
        },
{
}

/// Whether some bytes are within a memory is a matter of where they end.
pub proof fn bounds_are_those_of_memory(address: u32, size: nat, memory_size: nat)
    ensures
        in_bounds(address, size, memory_size) <==> address + size <= memory_size,
{
}

} // verus!
