//! The byte order of the descriptor records: every field is a 32-bit word stored
//! least significant byte first.

use vstd::prelude::*;

verus! {

/// The word whose little-endian bytes are `b0, b1, b2, b3`.
pub open spec fn word_of(b0: u8, b1: u8, b2: u8, b3: u8) -> u32 {
    (b0 + 0x100 * b1 + 0x1_0000 * b2 + 0x100_0000 * b3) as u32
}

/// Byte `k` of the little-endian encoding of `word`, for `k` in `0..4`.
pub open spec fn byte_of(word: u32, k: int) -> u8 {
    if k == 0 {
        (word % 0x100) as u8
    } else if k == 1 {
        (word / 0x100 % 0x100) as u8
    } else if k == 2 {
        (word / 0x1_0000 % 0x100) as u8
    } else {
        (word / 0x100_0000 % 0x100) as u8
    }
}

/// The word stored in `bytes[offset..offset + 4]`.
pub open spec fn word_at(bytes: Seq<u8>, offset: int) -> u32 {
    word_of(bytes[offset], bytes[offset + 1], bytes[offset + 2], bytes[offset + 3])
}

/// The encoding of a sequence of words: four bytes per word, in order.
pub open spec fn words_to_bytes(words: Seq<u32>) -> Seq<u8> {
    Seq::new(4 * words.len(), |i: int| byte_of(words[i / 4], i % 4))
}

/// The first `count` words stored in `bytes`.
pub open spec fn bytes_to_words(bytes: Seq<u8>, count: nat) -> Seq<u32> {
    Seq::new(count, |i: int| word_at(bytes, 4 * i))
}

/// Encoding a word and reading it back gives the word.
pub proof fn lemma_word_of_bytes(word: u32)
    ensures
        word_of(byte_of(word, 0), byte_of(word, 1), byte_of(word, 2), byte_of(word, 3)) == word,
{
}

/// Reading a word and encoding it gives back the four bytes.
pub proof fn lemma_bytes_of_word(b0: u8, b1: u8, b2: u8, b3: u8)
    ensures
        byte_of(word_of(b0, b1, b2, b3), 0) == b0,
        byte_of(word_of(b0, b1, b2, b3), 1) == b1,
        byte_of(word_of(b0, b1, b2, b3), 2) == b2,
        byte_of(word_of(b0, b1, b2, b3), 3) == b3,
{
}

/// The word read at position `4 * i` of the encoding of `words` is `words[i]`.
pub proof fn lemma_word_at_encoded(words: Seq<u32>, i: int)
    requires
        0 <= i < words.len(),
    ensures
        word_at(words_to_bytes(words), 4 * i) == words[i],
{
    let bytes = words_to_bytes(words);
    lemma_word_of_bytes(words[i]);
    assert(bytes[4 * i] == byte_of(words[(4 * i) / 4], (4 * i) % 4));
    assert(bytes[4 * i + 1] == byte_of(words[(4 * i + 1) / 4], (4 * i + 1) % 4));
    assert(bytes[4 * i + 2] == byte_of(words[(4 * i + 2) / 4], (4 * i + 2) % 4));
    assert(bytes[4 * i + 3] == byte_of(words[(4 * i + 3) / 4], (4 * i + 3) % 4));
}

/// Encoding the first `count` words of `bytes` gives back the bytes they were read from.
pub proof fn lemma_encode_decoded(bytes: Seq<u8>, count: nat)
    requires
        4 * count <= bytes.len(),
    ensures
        words_to_bytes(bytes_to_words(bytes, count)) == bytes.subrange(0, 4 * count as int),
{
    let words = bytes_to_words(bytes, count);
    assert forall|i: int| 0 <= i < 4 * count implies words_to_bytes(words)[i] == bytes[i] by {
        let w = i / 4;
        lemma_bytes_of_word(bytes[4 * w], bytes[4 * w + 1], bytes[4 * w + 2], bytes[4 * w + 3]);
        assert(words[w] == word_at(bytes, 4 * w));
    }
    assert(words_to_bytes(words) =~= bytes.subrange(0, 4 * count as int));
}

/// Reads the word stored at `offset` in `bytes`.
pub fn read_word(bytes: &[u8], offset: usize) -> (word: u32)
    requires
        offset + 4 <= bytes@.len(),
    ensures
        word == word_at(bytes@, offset as int),
{
    let b0: u32 = bytes[offset] as u32;
    let b1: u32 = bytes[offset + 1] as u32;
    let b2: u32 = bytes[offset + 2] as u32;
    let b3: u32 = bytes[offset + 3] as u32;
    b0 + 0x100 * b1 + 0x1_0000 * b2 + 0x100_0000 * b3
}

/// Encodes `words` as `N` bytes, four per word.
pub fn encode_words<const N: usize>(words: &[u32]) -> (bytes: [u8; N])
    requires
        N == 4 * words@.len(),
    ensures
        bytes@ == words_to_bytes(words@),
{
    let mut bytes = [0u8; N];
    let mut i: usize = 0;
    while i < words.len()
        invariant
            N == 4 * words@.len(),
            i <= words@.len(),
            forall|j: int| 0 <= j < 4 * i ==> bytes@[j] == byte_of(words@[j / 4], j % 4),
        decreases words@.len() - i,
    {
        let word: u32 = words[i];
        bytes[4 * i] = (word % 0x100) as u8;
        bytes[4 * i + 1] = (word / 0x100 % 0x100) as u8;
        bytes[4 * i + 2] = (word / 0x1_0000 % 0x100) as u8;
        bytes[4 * i + 3] = (word / 0x100_0000 % 0x100) as u8;
        i += 1;
    }
    assert(bytes@ =~= words_to_bytes(words@));
    bytes
}

} // verus!
