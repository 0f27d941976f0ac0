use vstd::prelude::*;

verus! {

/// Whether bit `pos` of `byte` is set.
pub open spec fn bit_of(byte: u8, pos: u8) -> bool {
    byte & (1u8 << pos) != 0
}

/// `byte` with bit `pos` forced to `value`; every other bit unchanged.
pub open spec fn with_bit(byte: u8, pos: u8, value: bool) -> u8 {
    if value {
        byte | (1u8 << pos)
    } else {
        byte & !(1u8 << pos)
    }
}

/// Reads bit `pos` of `byte`.
pub fn get_bit_flag(byte: u8, pos: u8) -> (r: bool)
    requires
        pos < 8,
    ensures
        r == bit_of(byte, pos),
{
    byte & (1u8 << pos) != 0
}

/// Writes bit `pos` of `byte`.
pub fn set_bit(byte: &mut u8, pos: u8, value: bool)
    requires
        pos < 8,
    ensures
        *final(byte) == with_bit(*old(byte), pos, value),
{
    if value {
        *byte = *byte | (1u8 << pos);
    } else {
        *byte = *byte & !(1u8 << pos);
    }
}

/// Writing a bit and reading it back gives the written value, and leaves
/// every other bit of the byte as it was.
pub proof fn lemma_set_bit_then_get(byte: u8, pos: u8, value: bool, other: u8)
    requires
        pos < 8,
        other < 8,
    ensures
        bit_of(with_bit(byte, pos, value), pos) == value,
        other != pos ==> bit_of(with_bit(byte, pos, value), other) == bit_of(byte, other),
{
    assert(bit_of(with_bit(byte, pos, value), pos) == value) by (bit_vector)
        requires
            pos < 8,
    ;
    assert(other != pos ==> bit_of(with_bit(byte, pos, value), other) == bit_of(byte, other))
        by (bit_vector)
        requires
            pos < 8,
            other < 8,
    ;
}

/// Facts about bytes, words and masks that the proofs of this crate use.
pub proof fn lemma_byte_facts()
    by (bit_vector)
    ensures
        forall|x: u8| #[trigger] (((x as u16) & 0xFF) as u8) == x,
        forall|x: u8| #[trigger] ((x as u16) as u8) == x,
        forall|x: u16| #[trigger] (((x >> 8u16) & 0xFF) as u8) == ((x >> 8u16) as u8),
        forall|x: u16| #[trigger] ((x & 0xFF) as u8) == (x as u8),
        forall|x: u8| #[trigger] (x & 0xF) <= 0xF,
        forall|x: u16| #[trigger] (x & 0xF) <= 0xF,
        forall|x: u16| #[trigger] (x & 0xFF) <= 0xFF,
        forall|x: u16| #[trigger] (x & 0x0FFF) <= 0x0FFF,
{
}

} // verus!
