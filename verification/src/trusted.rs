//! The calls into other crates. Their contracts are believed, not proved.

use vstd::prelude::*;

verus! {

/// The initialiser of an array that holds `value` at every index.
fn uniform<T: Copy>(value: T, _index: usize) -> (element: T)
    ensures
        element == value,
{
    value
}

/// Calls `array_init::array_init` with [`uniform`] as the initialiser. The
/// outside function calls its initialiser once for each index, from the
/// lowest up, and stores what it returns at that index; so every element of
/// the array that comes back is `value`. This is taken on trust.
#[verifier::external_body]
pub(crate) fn filled<T: Copy, const N: usize>(value: T) -> (array: [T; N])
    ensures
        forall|k: int| 0 <= k < N ==> array[k] == value,
{
    array_init::array_init(|index| uniform(value, index))
}

/// Calls `rand::random::<u8>()`, which draws a byte from the generator of
/// the thread. Nothing is claimed of the byte.
#[verifier::external_body]
pub(crate) fn random_byte() -> u8 {
    rand::random::<u8>()
}

} // verus!
