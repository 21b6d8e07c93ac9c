//! Byte-level encoding of the host data that crosses the device boundary.
//!
//! The compute workflow uploads a row-major grid of 32-bit unsigned words as
//! raw bytes and decodes the staging buffer's bytes back into words after
//! readback.  Words travel least-significant byte first; the two directions
//! are proved inverse of each other, so a full copy of an uploaded buffer
//! decodes to exactly the words that were uploaded.

use vstd::arithmetic::div_mod::{
    lemma_fundamental_div_mod, lemma_fundamental_div_mod_converse, lemma_div_denominator,
};
use vstd::prelude::*;

verus! {

/// The four bytes of a 32-bit word, least significant first.
pub open spec fn word_bytes(w: u32) -> Seq<u8> {
    seq![
        (w as int % 256) as u8,
        (w as int / 256 % 256) as u8,
        (w as int / 65536 % 256) as u8,
        (w as int / 16777216 % 256) as u8,
    ]
}

/// The word held by four bytes, least significant first.
pub open spec fn word_of_bytes(b0: u8, b1: u8, b2: u8, b3: u8) -> u32 {
    (b0 + b1 * 256 + b2 * 65536 + b3 * 16777216) as u32
}

/// Byte image of a word sequence, each word contributing four bytes.
pub open spec fn words_to_bytes(ws: Seq<u32>) -> Seq<u8> {
    Seq::new(ws.len() * 4, |i: int| word_bytes(ws[i / 4])[i % 4])
}

/// The words a byte sequence holds, read four bytes at a time; bytes past
/// the last full word carry nothing.
pub open spec fn bytes_to_words(bs: Seq<u8>) -> Seq<u32> {
    Seq::new(
        bs.len() / 4,
        |i: int| word_of_bytes(bs[4 * i], bs[4 * i + 1], bs[4 * i + 2], bs[4 * i + 3]),
    )
}

/// Reading back the four bytes of a word yields the word.
proof fn lemma_word_round_trip(w: u32)
    ensures
        word_of_bytes(word_bytes(w)[0], word_bytes(w)[1], word_bytes(w)[2], word_bytes(w)[3]) == w,
{
    let x = w as int;
    lemma_fundamental_div_mod(x, 256);
    lemma_fundamental_div_mod(x / 256, 256);
    lemma_div_denominator(x, 256, 256);
    lemma_fundamental_div_mod(x / 65536, 256);
    lemma_div_denominator(x, 65536, 256);
    lemma_fundamental_div_mod(x / 16777216, 256);
    lemma_div_denominator(x, 16777216, 256);
    assert(x / 4294967296 == 0) by {
        lemma_fundamental_div_mod_converse(x, 4294967296, 0, x);
    }
}

/// Writing out the word held by four bytes yields the same four bytes.
proof fn lemma_bytes_round_trip(b0: u8, b1: u8, b2: u8, b3: u8)
    ensures
        word_bytes(word_of_bytes(b0, b1, b2, b3)) == seq![b0, b1, b2, b3],
{
    let x = b0 + b1 * 256 + b2 * 65536 + b3 * 16777216;
    assert(word_of_bytes(b0, b1, b2, b3) as int == x);
    lemma_fundamental_div_mod_converse(x, 256, b1 + b2 * 256 + b3 * 65536, b0 as int);
    lemma_fundamental_div_mod_converse(b1 + b2 * 256 + b3 * 65536, 256, b2 + b3 * 256, b1 as int);
    lemma_div_denominator(x, 256, 256);
    lemma_fundamental_div_mod_converse(b2 + b3 * 256, 256, b3 as int, b2 as int);
    lemma_div_denominator(x, 65536, 256);
    assert(word_bytes(word_of_bytes(b0, b1, b2, b3)) =~= seq![b0, b1, b2, b3]);
}

/// The byte image of a word sequence, at offset `j` within word `i`, is byte
/// `j` of that word.
proof fn lemma_word_image_at(ws: Seq<u32>, i: int, j: int)
    requires
        0 <= i < ws.len(),
        0 <= j < 4,
    ensures
        words_to_bytes(ws)[4 * i + j] == word_bytes(ws[i])[j],
{
    lemma_fundamental_div_mod_converse(4 * i + j, 4, i, j);
}

/// Decoding the byte image of any word sequence yields that sequence again.
pub proof fn lemma_decode_inverts_encode(ws: Seq<u32>)
    ensures
        bytes_to_words(words_to_bytes(ws)) == ws,
{
    let bs = words_to_bytes(ws);
    assert(bs.len() / 4 == ws.len()) by {
        lemma_fundamental_div_mod_converse(ws.len() as int * 4, 4, ws.len() as int, 0);
    }
    assert forall|i: int| 0 <= i < ws.len() implies bytes_to_words(bs)[i] == ws[i] by {
        lemma_word_image_at(ws, i, 0);
        lemma_word_image_at(ws, i, 1);
        lemma_word_image_at(ws, i, 2);
        lemma_word_image_at(ws, i, 3);
        lemma_word_round_trip(ws[i]);
    }
    assert(bytes_to_words(bs) =~= ws);
}

/// Encoding the words a byte sequence holds yields the same bytes, for any
/// sequence whose length is a multiple of four.
pub proof fn lemma_encode_inverts_decode(bs: Seq<u8>)
    requires
        bs.len() % 4 == 0,
    ensures
        words_to_bytes(bytes_to_words(bs)) == bs,
{
    let ws = bytes_to_words(bs);
    lemma_fundamental_div_mod(bs.len() as int, 4);
    assert(ws.len() * 4 == bs.len());
    assert forall|k: int| 0 <= k < bs.len() implies words_to_bytes(ws)[k] == bs[k] by {
        let i = k / 4;
        let j = k % 4;
        lemma_fundamental_div_mod(k, 4);
        lemma_bytes_round_trip(bs[4 * i], bs[4 * i + 1], bs[4 * i + 2], bs[4 * i + 3]);
    }
    assert(words_to_bytes(ws) =~= bs);
}

/// Flattens a grid of words, row-major: the byte form uploaded to the device
/// is the image of this sequence.
pub fn flatten_grid(grid: &Vec<Vec<u32>>) -> (flat: Vec<u32>)
    ensures
        flat@ == grid@.map_values(|row: Vec<u32>| row@).flatten(),
{
    let mut flat: Vec<u32> = Vec::new();
    let mut i: usize = 0;
    proof {
        assert(grid@.map_values(|row: Vec<u32>| row@).take(0).flatten()
            =~= Seq::<u32>::empty());
    }
    while i < grid.len()
        invariant
            i <= grid@.len(),
            flat@ == grid@.map_values(|row: Vec<u32>| row@).take(i as int).flatten(),
        decreases grid@.len() - i,
    {
        let row = &grid[i];
        let mut j: usize = 0;
        proof {
            assert(flat@ =~= grid@.map_values(|row: Vec<u32>| row@).take(i as int).flatten()
                + grid@[i as int]@.take(0));
        }
        while j < row.len()
            invariant
                i < grid@.len(),
                j <= row@.len(),
                row@ == grid@[i as int]@,
                flat@ == grid@.map_values(|row: Vec<u32>| row@).take(i as int).flatten()
                    + row@.take(j as int),
            decreases row@.len() - j,
        {
            flat.push(row[j]);
            assert(row@.take(j + 1 as int) =~= row@.take(j as int).push(row@[j as int]));
            assert(flat@ =~= grid@.map_values(|row: Vec<u32>| row@).take(i as int).flatten()
                + row@.take(j + 1 as int));
            j = j + 1;
        }
        proof {
            let mapped = grid@.map_values(|row: Vec<u32>| row@);
            assert(row@.take(j as int) =~= mapped[i as int]);
            assert(mapped.take(i + 1 as int) =~= mapped.take(i as int).push(mapped[i as int]));
            mapped.take(i as int).lemma_flatten_push(mapped[i as int]);
            assert(flat@ =~= mapped.take(i + 1 as int).flatten());
        }
        i = i + 1;
    }
    proof {
        let mapped = grid@.map_values(|row: Vec<u32>| row@);
        assert(mapped.take(i as int) =~= mapped);
    }
    flat
}

/// Encodes a word sequence into the byte form the device consumes.
pub fn encode_words(words: &Vec<u32>) -> (bytes: Vec<u8>)
    ensures
        bytes@ == words_to_bytes(words@),
{
    let mut bytes: Vec<u8> = Vec::new();
    let mut i: usize = 0;
    while i < words.len()
        invariant
            i <= words@.len(),
            bytes@.len() == 4 * i,
            forall|k: int| 0 <= k < bytes@.len() ==> bytes@[k] == words_to_bytes(words@)[k],
        decreases words@.len() - i,
    {
        let w = words[i];
        bytes.push((w % 256) as u8);
        bytes.push((w / 256 % 256) as u8);
        bytes.push((w / 65536 % 256) as u8);
        bytes.push((w / 16777216 % 256) as u8);
        proof {
            lemma_word_image_at(words@, i as int, 0);
            lemma_word_image_at(words@, i as int, 1);
            lemma_word_image_at(words@, i as int, 2);
            lemma_word_image_at(words@, i as int, 3);
        }
        i = i + 1;
    }
    assert(bytes@ =~= words_to_bytes(words@));
    bytes
}

/// Decodes readback bytes into 32-bit unsigned words, four bytes per word,
/// least significant first.
pub fn decode_words(bytes: &Vec<u8>) -> (words: Vec<u32>)
    requires
        bytes@.len() % 4 == 0,
    ensures
        words@ == bytes_to_words(bytes@),
{
    let count = bytes.len() / 4;
    proof {
        lemma_fundamental_div_mod(bytes@.len() as int, 4);
    }
    let mut words: Vec<u32> = Vec::new();
    let mut i: usize = 0;
    while i < count
        invariant
            i <= count,
            count == bytes@.len() / 4,
            4 * count == bytes@.len(),
            bytes@.len() <= usize::MAX,
            words@.len() == i,
            forall|k: int| 0 <= k < i ==> words@[k] == bytes_to_words(bytes@)[k],
        decreases count - i,
    {
        let b0 = bytes[4 * i];
        let b1 = bytes[4 * i + 1];
        let b2 = bytes[4 * i + 2];
        let b3 = bytes[4 * i + 3];
        let w: u32 = b0 as u32 + b1 as u32 * 256 + b2 as u32 * 65536 + b3 as u32 * 16777216;
        assert(w == word_of_bytes(b0, b1, b2, b3));
        words.push(w);
        i = i + 1;
    }
    assert(words@ =~= bytes_to_words(bytes@));
    words
}

} // verus!
