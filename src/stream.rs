//! Arithmetic of the endpoint operations that go through 32-bit system
//! interfaces.
use vstd::prelude::*;

verus! {

/// The number of bytes to ask `PeekNamedPipe` for when peeking into a
/// buffer of `buf_len` bytes: the whole buffer, or as much of it as a
/// 32-bit count can name.
pub fn peek_request_len(buf_len: usize) -> (r: u32)
    ensures
        r as int == if buf_len <= u32::MAX { buf_len as int } else { u32::MAX as int },
{
    if buf_len <= u32::MAX as usize {
        buf_len as u32
    } else {
        u32::MAX
    }
}

} // verus!
