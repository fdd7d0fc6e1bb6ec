//! Bit-field utility: set/clear/flip/test operations on the raw value of an
//! eight-bit hardware register, together with the lemmas that the rest of
//! the crate uses to reason about them.

use vstd::prelude::*;

verus! {

/// The mask with only bit `i` set.
pub open spec fn bit(i: u8) -> u8 {
    1u8 << i
}

/// Whether bit `i` of `b` is set.
pub open spec fn bit_is_set(b: u8, i: u8) -> bool {
    b & bit(i) != 0
}

/// `b` with bit `i` set.
pub open spec fn with_bit_set(b: u8, i: u8) -> u8 {
    b | bit(i)
}

/// `b` with bit `i` cleared.
pub open spec fn with_bit_clear(b: u8, i: u8) -> u8 {
    b & !bit(i)
}

/// `b` with bit `i` flipped.
pub open spec fn with_bit_flipped(b: u8, i: u8) -> u8 {
    b ^ bit(i)
}

/// Set bit `i` of `b`.
pub fn set_bit(b: u8, i: u8) -> (r: u8)
    requires
        i < 8,
    ensures
        r == with_bit_set(b, i),
{
    b | (1u8 << i)
}

/// Clear bit `i` of `b`.
pub fn clear_bit(b: u8, i: u8) -> (r: u8)
    requires
        i < 8,
    ensures
        r == with_bit_clear(b, i),
{
    b & !(1u8 << i)
}

/// Flip bit `i` of `b`.
pub fn flip_bit(b: u8, i: u8) -> (r: u8)
    requires
        i < 8,
    ensures
        r == with_bit_flipped(b, i),
{
    b ^ (1u8 << i)
}

/// Test bit `i` of `b`.
pub fn test_bit(b: u8, i: u8) -> (r: bool)
    requires
        i < 8,
    ensures
        r == bit_is_set(b, i),
{
    b & (1u8 << i) != 0
}

/// How each single-bit update reads back, bit by bit: setting, clearing or
/// flipping bit `i` changes exactly bit `i` and leaves every other bit as it
/// was.
pub proof fn lemma_bit_updates()
    by (bit_vector)
    ensures
        forall|b: u8, i: u8, j: u8|
            i < 8 && j < 8 ==> #[trigger] bit_is_set(with_bit_set(b, i), j) == (i == j
                || bit_is_set(b, j)),
        forall|b: u8, i: u8, j: u8|
            i < 8 && j < 8 ==> #[trigger] bit_is_set(with_bit_clear(b, i), j) == (i != j
                && bit_is_set(b, j)),
        forall|b: u8, i: u8, j: u8|
            i < 8 && j < 8 ==> #[trigger] bit_is_set(with_bit_flipped(b, i), j) == (if i == j {
                !bit_is_set(b, j)
            } else {
                bit_is_set(b, j)
            }),
{
}

/// Setting a bit that was clear and then clearing it again restores the
/// original byte; clearing a bit that was already clear changes nothing.
pub proof fn lemma_set_then_clear_roundtrip()
    by (bit_vector)
    ensures
        forall|b: u8, i: u8|
            i < 8 && !bit_is_set(b, i) ==> #[trigger] with_bit_clear(with_bit_set(b, i), i) == b,
        forall|b: u8, i: u8| i < 8 && !bit_is_set(b, i) ==> #[trigger] with_bit_clear(b, i) == b,
{
}

} // verus!
