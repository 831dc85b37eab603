//! What a read from a terminal amounts to, once the terminal has answered.

use vstd::prelude::*;

verus! {

/// The line that a blocking read of one line produced, given the buffer it
/// filled and the number of bytes it put there.
///
/// A read that put nothing into the buffer met the end of the stream before
/// any data: there is no line, and the line source has to report a failure.
/// Otherwise the buffer is the line, terminator included.
pub fn line_read(bytes: usize, buf: String) -> (line: Option<String>)
    ensures
        line == (if bytes == 0 {
            None
        } else {
            Some(buf)
        }),
{
    if bytes == 0 {
        None
    } else {
        Some(buf)
    }
}

} // verus!
