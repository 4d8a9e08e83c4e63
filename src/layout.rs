//! The size of the shared data set and of the graphics buffer that holds it.

use vstd::prelude::*;

verus! {

/// Elements in the data set the kernel runs over.
pub const DATA_SET_SIZE: usize = 256;

/// Results shown to the user, counted from the start of the data set.
pub const RESULTS_TO_PRINT: usize = 20;

/// Bytes in one element of the data set (a single-precision float).
pub const ELEMENT_BYTES: usize = 4;

/// The size in bytes of a graphics buffer of `count` elements of
/// `elem_bytes` bytes each, as the signed size the graphics API takes;
/// none when it does not fit.
pub fn buffer_byte_len(count: usize, elem_bytes: usize) -> (r: Option<isize>)
    ensures
        count * elem_bytes <= isize::MAX ==> r == Some((count * elem_bytes) as isize),
        count * elem_bytes > isize::MAX ==> r is None,
{
    match count.checked_mul(elem_bytes) {
        Some(n) => {
            if n <= isize::MAX as usize {
                Some(n as isize)
            } else {
                None
            }
        },
        None => None,
    }
}

/// The size in bytes of the graphics buffer that holds the whole data set.
pub fn data_set_byte_len() -> (r: isize)
    ensures
        r == DATA_SET_SIZE * ELEMENT_BYTES,
        r == 1024,
{
    (DATA_SET_SIZE * ELEMENT_BYTES) as isize
}

/// Whether the result at position `idx` is among those shown.
pub fn should_print(idx: usize) -> (r: bool)
    ensures
        r == (idx < RESULTS_TO_PRINT),
{
    idx < RESULTS_TO_PRINT
}

} // verus!
