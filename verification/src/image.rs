//! The program image: a sequence of 16-bit little-endian words with no
//! header, no length and no checksum.

use vstd::prelude::*;
use crate::fault::LoadError;

verus! {

/// The largest number of words that memory can take.
pub const MAX_WORDS: usize = 32768;

/// The word made of a low and a high byte.
pub open spec fn word_of(low: u8, high: u8) -> u16 {
    (low + 256 * high) as u16
}

/// The words of an image with an even number of bytes: word `i` is made of
/// bytes `2 i` and `2 i + 1`, the low byte first.
pub open spec fn words_of(bytes: Seq<u8>) -> Seq<u16> {
    Seq::new(bytes.len() / 2, |i: int| word_of(bytes[2 * i], bytes[2 * i + 1]))
}

/// What reading an image gives: an image with an odd number of bytes is
/// truncated, one with more than 32768 words is too large, and any other
/// is its words.
pub open spec fn parse(bytes: Seq<u8>) -> Result<Seq<u16>, LoadError> {
    if bytes.len() % 2 != 0 {
        Err(LoadError::Truncated { length: bytes.len() as usize })
    } else if bytes.len() / 2 > MAX_WORDS {
        Err(LoadError::TooLarge { words: (bytes.len() / 2) as usize })
    } else {
        Ok(words_of(bytes))
    }
}

/// Joins a low and a high byte into a word.
pub fn join_bytes(low: u8, high: u8) -> (word: u16)
    ensures
        word == word_of(low, high),
{
    low as u16 + 256 * (high as u16)
}

/// Reads the words of a program image.
pub fn read_words(image: &[u8]) -> (words: Result<Vec<u16>, LoadError>)
    ensures
        match parse(image@) {
            Ok(expected) => words matches Ok(read) && read@ == expected,
            Err(error) => words == Err::<Vec<u16>, LoadError>(error),
        },
        words matches Ok(read) ==> read@.len() <= MAX_WORDS && 2 * read@.len() == image@.len(),
        image@.len() % 2 == 1 ==> words is Err,
{
    let length: usize = image.len();
    if length % 2 != 0 {
        return Err(LoadError::Truncated { length });
    }
    let count: usize = length / 2;
    if count > MAX_WORDS {
        return Err(LoadError::TooLarge { words: count });
    }
    let mut words: Vec<u16> = Vec::new();
    let mut index: usize = 0;
    while index < count
        invariant
            index <= count,
            count <= MAX_WORDS,
            2 * count == image@.len(),
            words@.len() == index,
            forall|i: int|
                0 <= i < index ==> #[trigger] words@[i] == word_of(
                    image@[2 * i],
                    image@[2 * i + 1],
                ),
        decreases count - index,
    {
        words.push(join_bytes(image[2 * index], image[2 * index + 1]));
        index = index + 1;
    }
    Ok(words)
}

} // verus!
