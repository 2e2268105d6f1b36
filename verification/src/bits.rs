use vstd::prelude::*;

verus! {

pub broadcast proof fn lemma_u8_bit_is_01(v: u8, n: u8)
    ensures
        (#[trigger] ((v >> n) & 1)) == 0 || ((v >> n) & 1) == 1,
{
    assert(((v >> n) & 1) == 0 || ((v >> n) & 1) == 1) by (bit_vector);
}

pub broadcast proof fn lemma_u8_and_le(v: u8, m: u8)
    ensures
        (#[trigger] (v & m)) <= m,
{
    assert(v & m <= m) by (bit_vector);
}

pub broadcast proof fn lemma_u8_and_ff(v: u8)
    ensures
        #[trigger] (v & 0xFF) == v,
{
    assert(v & 0xFF == v) by (bit_vector);
}

pub broadcast proof fn lemma_u16_and_le(v: u16, m: u16)
    ensures
        (#[trigger] (v & m)) <= m,
{
    assert(v & m <= m) by (bit_vector);
}

pub broadcast group group_bits {
    lemma_u16_and_le,
    lemma_u8_and_ff,
    lemma_u8_bit_is_01,
    lemma_u8_and_le,
}

} // verus!
