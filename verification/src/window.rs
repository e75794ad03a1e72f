//! What the window tells the renderer.

use vstd::prelude::*;

verus! {

/// The low 16 bits of a message parameter.
pub open spec fn low_word(parameter: isize) -> u16 {
    (parameter as int % 0x1_0000) as u16
}

/// Bits 16 to 31 of a message parameter.
pub open spec fn high_word(parameter: isize) -> u16 {
    ((parameter as int / 0x1_0000) % 0x1_0000) as u16
}

/// The low-order word of a message parameter: for a resize message, the new width of
/// the client area.
pub fn loword(l_param: isize) -> (word: u16)
    ensures
        word == low_word(l_param),
{
    let wide = l_param as i64;
    let bits = wide as u64;
    let word = (bits & 0xffff) as u16;
    assert(word == (wide as int % 0x1_0000)) by (bit_vector)
        requires
            bits == wide as u64,
            word == (bits & 0xffff) as u16,
    ;
    word
}

/// The high-order word of a message parameter: for a resize message, the new height of
/// the client area.
pub fn hiword(l_param: isize) -> (word: u16)
    ensures
        word == high_word(l_param),
{
    let wide = l_param as i64;
    let bits = wide as u64;
    let word = ((bits >> 16) & 0xffff) as u16;
    assert(word == ((wide as int / 0x1_0000) % 0x1_0000)) by (bit_vector)
        requires
            bits == wide as u64,
            word == ((bits >> 16) & 0xffff) as u16,
    ;
    word
}

} // verus!
