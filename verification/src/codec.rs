//! Big-endian encoding of the inverter's 32-bit state value as two adjacent
//! 16-bit registers: the first register carries the high 16 bits, the second
//! the low 16 bits. The split and the join are exact inverses of each other.

use vstd::prelude::*;

use crate::errors::ProtocolError;

verus! {

/// High 16 bits of a 32-bit state value: the first register on the wire.
pub open spec fn high_word(value: u32) -> u16 {
    (value / 0x10000) as u16
}

/// Low 16 bits of a 32-bit state value: the second register on the wire.
pub open spec fn low_word(value: u32) -> u16 {
    (value % 0x10000) as u16
}

/// The 32-bit value carried big-endian by a high and a low 16-bit word.
pub open spec fn join_words(high: u16, low: u16) -> u32 {
    (high * 0x10000 + low) as u32
}

/// Splitting a 32-bit value into its big-endian words and rejoining them
/// reproduces the value exactly.
pub proof fn lemma_word_round_trip(value: u32)
    ensures
        join_words(high_word(value), low_word(value)) == value,
{
}

/// Splits a 32-bit state value into the two big-endian register words that a
/// multi-register write sends, first word high, second word low.
pub fn split_state(value: u32) -> (words: (u16, u16))
    ensures
        words.0 == high_word(value),
        words.1 == low_word(value),
        join_words(words.0, words.1) == value,
{
    let high: u16 = (value / 0x10000) as u16;
    let low: u16 = (value % 0x10000) as u16;
    (high, low)
}

/// Joins a high and a low big-endian register word back into the 32-bit state
/// value they carry.
pub fn join_state(high: u16, low: u16) -> (value: u32)
    ensures
        value == join_words(high, low),
        high_word(value) == high,
        low_word(value) == low,
{
    (high as u32) * 0x10000 + (low as u32)
}

/// Encodes a 32-bit state value as the register vector of a multi-register
/// write: exactly two words, big-endian.
pub fn state_to_registers(value: u32) -> (words: Vec<u16>)
    ensures
        words@.len() == 2,
        words@[0] == high_word(value),
        words@[1] == low_word(value),
        join_words(words@[0], words@[1]) == value,
{
    let (high, low) = split_state(value);
    let mut words: Vec<u16> = Vec::new();
    words.push(high);
    words.push(low);
    words
}

/// Decodes the register vector of a state read. A response is well-formed
/// exactly when it holds two words; those are joined big-endian, any other
/// length is a protocol error carrying the observed count.
pub fn registers_to_state(words: &Vec<u16>) -> (result: Result<u32, ProtocolError>)
    ensures
        words@.len() == 2 ==> result == Ok::<u32, ProtocolError>(join_words(words@[0], words@[1])),
        words@.len() != 2 ==> result == Err::<u32, ProtocolError>(
            ProtocolError::WrongRegisterCount { got: words@.len() as usize },
        ),
{
    if words.len() == 2 {
        Ok(join_state(words[0], words[1]))
    } else {
        Err(ProtocolError::WrongRegisterCount { got: words.len() })
    }
}

} // verus!
