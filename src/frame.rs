use vstd::prelude::*;

use crate::error::HwError;

verus! {

/// Copies an encoded frame into the front of a caller's buffer and returns
/// how many bytes were written. A buffer shorter than the frame is rejected
/// and left untouched.
pub fn copy_frame(buffer: &mut [u8], data: &[u8]) -> (r: Result<usize, HwError>)
    ensures
        data@.len() <= old(buffer)@.len() ==> r == Ok::<usize, HwError>(data@.len() as usize)
            && final(buffer)@ == data@ + old(buffer)@.subrange(
            data@.len() as int,
            old(buffer)@.len() as int,
        ),
        data@.len() > old(buffer)@.len() ==> r == Err::<usize, HwError>(HwError::BufferTooSmall)
            && final(buffer)@ == old(buffer)@,
{
    let data_len = data.len();
    if buffer.len() < data_len {
        return Err(HwError::BufferTooSmall);
    }
    let mut i: usize = 0;
    while i < data_len
        invariant
            i <= data_len,
            data_len == data@.len(),
            data_len <= buffer@.len(),
            buffer@.len() == old(buffer)@.len(),
            forall|k: int| 0 <= k < i ==> #[trigger] buffer@[k] == data@[k],
            forall|k: int| i <= k < buffer@.len() ==> #[trigger] buffer@[k] == old(buffer)@[k],
        decreases data_len - i,
    {
        buffer[i] = data[i];
        i = i + 1;
    }
    assert(buffer@ =~= data@ + old(buffer)@.subrange(data_len as int, old(buffer)@.len() as int));
    Ok(data_len)
}

} // verus!
