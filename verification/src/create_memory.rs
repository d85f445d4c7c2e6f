use vstd::prelude::*;

verus! {

/// A zero-filled byte buffer of the given length, ready to hold a program
/// and its data.
pub fn create_memory(size_in_bytes: u16) -> (r: Vec<u8>)
    ensures
        r@.len() == size_in_bytes,
        forall|i: int| 0 <= i < r@.len() ==> r@[i] == 0,
{
    let mut buffer: Vec<u8> = Vec::new();
    while buffer.len() < size_in_bytes as usize
        invariant
            buffer@.len() <= size_in_bytes,
            forall|i: int| 0 <= i < buffer@.len() ==> buffer@[i] == 0,
        decreases size_in_bytes - buffer@.len(),
    {
        buffer.push(0);
    }
    buffer
}

} // verus!
