//! Single-bit arithmetic on 32-bit register words.
//!
//! Every register of the GPIO block is a word of 32 one-bit fields, one per
//! pin of a port. The drivers only ever touch one field at a time, so all of
//! their bit reasoning reduces to the handful of facts proved here.

use vstd::prelude::*;

verus! {

/// Number of bits in a register word.
pub const WORD_BITS: u8 = 32;

/// The word whose only set bit is bit `n`.
pub open spec fn mask(n: u8) -> u32 {
    1u32 << n
}

/// Whether bit `n` of `word` is set.
pub open spec fn is_set(word: u32, n: u8) -> bool {
    word & mask(n) != 0
}

/// `word` with bit `n` set.
pub open spec fn with_bit(word: u32, n: u8) -> u32 {
    word | mask(n)
}

/// `word` with bit `n` cleared.
pub open spec fn without_bit(word: u32, n: u8) -> u32 {
    word & !mask(n)
}

/// `word` with bit `n` made equal to `on`.
pub open spec fn assigned(word: u32, n: u8, on: bool) -> u32 {
    if on {
        with_bit(word, n)
    } else {
        without_bit(word, n)
    }
}

/// Bit `m` of a single-bit mask is set exactly when `m` is the masked bit.
pub proof fn lemma_mask(n: u8, m: u8)
    requires
        n < WORD_BITS,
        m < WORD_BITS,
    ensures
        mask(n) != 0,
        is_set(mask(n), m) == (m == n),
        !is_set(0, m),
{
    assert({
        &&& (1u32 << n) != 0
        &&& ((1u32 << n) & (1u32 << m) != 0) == (m == n)
        &&& 0u32 & (1u32 << m) == 0
    }) by (bit_vector)
        requires
            n < 32,
            m < 32,
    ;
}

/// Setting bit `n` makes it read as set and leaves every other bit as it was.
pub proof fn lemma_with_bit(word: u32, n: u8, m: u8)
    requires
        n < WORD_BITS,
        m < WORD_BITS,
    ensures
        is_set(with_bit(word, n), m) == (m == n || is_set(word, m)),
{
    assert(((word | (1u32 << n)) & (1u32 << m) != 0) == (m == n || (word & (1u32 << m) != 0)))
        by (bit_vector)
        requires
            n < 32,
            m < 32,
    ;
}

/// Clearing bit `n` makes it read as clear and leaves every other bit as it
/// was.
pub proof fn lemma_without_bit(word: u32, n: u8, m: u8)
    requires
        n < WORD_BITS,
        m < WORD_BITS,
    ensures
        is_set(without_bit(word, n), m) == (m != n && is_set(word, m)),
{
    assert(((word & !(1u32 << n)) & (1u32 << m) != 0) == (m != n && (word & (1u32 << m) != 0)))
        by (bit_vector)
        requires
            n < 32,
            m < 32,
    ;
}

/// Assigning bit `n` makes it read as assigned and leaves every other bit as
/// it was.
pub proof fn lemma_assigned(word: u32, n: u8, on: bool, m: u8)
    requires
        n < WORD_BITS,
        m < WORD_BITS,
    ensures
        is_set(assigned(word, n, on), m) == (if m == n {
            on
        } else {
            is_set(word, m)
        }),
{
    lemma_with_bit(word, n, m);
    lemma_without_bit(word, n, m);
}

/// Writing a bit that already has the written value changes nothing, and the
/// later of two writes to one bit wins.
pub proof fn lemma_rewrite(word: u32, n: u8)
    requires
        n < WORD_BITS,
    ensures
        is_set(word, n) ==> with_bit(word, n) == word,
        !is_set(word, n) ==> without_bit(word, n) == word,
        with_bit(with_bit(word, n), n) == with_bit(word, n),
        without_bit(without_bit(word, n), n) == without_bit(word, n),
        with_bit(without_bit(word, n), n) == with_bit(word, n),
        without_bit(with_bit(word, n), n) == without_bit(word, n),
{
    let bit = mask(n);
    assert(word & (1u32 << n) != 0 ==> word | (1u32 << n) == word) by (bit_vector)
        requires
            n < 32,
    ;
    assert({
        &&& word & bit == 0 ==> word & !bit == word
        &&& (word | bit) | bit == word | bit
        &&& (word & !bit) & !bit == word & !bit
        &&& (word & !bit) | bit == word | bit
        &&& (word | bit) & !bit == word & !bit
    }) by (bit_vector);
}

/// A write-one-to-set strobe that carries the bits already set sets nothing
/// but the new bits, and a write-one-to-clear strobe of a single bit is the
/// clearing of that bit.
pub proof fn lemma_strobe(word: u32, n: u8)
    ensures
        word | with_bit(word, n) == with_bit(word, n),
        word & !with_bit(0, n) == without_bit(word, n),
        with_bit(0, n) == mask(n),
{
    let bit = mask(n);
    assert({
        &&& word | (word | bit) == word | bit
        &&& word & !(0u32 | bit) == word & !bit
        &&& 0u32 | bit == bit
    }) by (bit_vector);
}

} // verus!
