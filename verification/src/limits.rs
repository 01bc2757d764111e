//! The size of an encoded argument list, counted in 32-byte words, and the
//! bound that keeps every offset of the encoding within 32 bits.

use crate::abi::{lemma_member_models, value_models, AbiValue, SpecValue};
use vstd::prelude::*;
use vstd::utf8::encode_utf8;

verus! {

/// The largest number of words an argument list may take: with it the
/// encoding is shorter than 4 GiB, so each of its offsets fits in 32 bits.
pub const MAX_ENCODED_WORDS: u64 = 134_217_727;

/// The number of 32-byte words that hold `len` bytes.
pub open spec fn words_for(len: nat) -> nat {
    (len + 31) / 32
}

/// An upper bound on the number of words that the encoding of a value takes.
///
/// A scalar takes one word and a bounded byte string its padded bytes. A
/// dynamic byte string or string takes an offset, a length and its padded
/// bytes. An array takes an offset, a length and its members. A fixed array
/// or tuple is counted with an offset and its members, though the encoding
/// has the offset only where a member is dynamic.
pub open spec fn encoded_words(value: SpecValue) -> nat
    decreases value, 0int,
{
    match value {
        SpecValue::Address(_) => 1,
        SpecValue::Int(_) => 1,
        SpecValue::Uint(_) => 1,
        SpecValue::Bool(_) => 1,
        SpecValue::FixedBytes(bytes) => words_for(bytes.len()),
        SpecValue::Bytes(bytes) => 2 + words_for(bytes.len()),
        SpecValue::String(chars) => 2 + words_for(encode_utf8(chars).len()),
        SpecValue::Array(items) => 2 + words_upto(items, items.len() as int),
        SpecValue::FixedArray(items) => 1 + words_upto(items, items.len() as int),
        SpecValue::Tuple(items) => 1 + words_upto(items, items.len() as int),
    }
}

/// The words of the first `count` values of a list, added up.
pub open spec fn words_upto(values: Seq<SpecValue>, count: int) -> nat
    decreases values, count,
{
    if 0 < count <= values.len() {
        words_upto(values, count - 1) + encoded_words(values[count - 1])
    } else {
        0
    }
}

/// The words of a whole argument list.
pub open spec fn total_words(values: Seq<SpecValue>) -> nat {
    words_upto(values, values.len() as int)
}

/// Whether an argument list is small enough to be encoded.
pub open spec fn fits_encoding(values: Seq<SpecValue>) -> bool {
    total_words(values) <= MAX_ENCODED_WORDS
}

/// A longer prefix of a list never takes fewer words than a shorter one.
pub proof fn lemma_words_upto_monotonic(values: Seq<SpecValue>, shorter: int, longer: int)
    requires
        0 <= shorter <= longer <= values.len(),
    ensures
        words_upto(values, shorter) <= words_upto(values, longer),
    decreases longer - shorter,
{
    if shorter < longer {
        lemma_words_upto_monotonic(values, shorter, longer - 1);
    }
}

/// The number of 32-byte words that hold `len` bytes.
fn words_for_len(len: usize) -> (words: u64)
    ensures
        words == words_for(len as nat),
        words <= len,
{
    let whole: usize = len / 32;
    if len % 32 == 0 {
        whole as u64
    } else {
        whole as u64 + 1
    }
}

/// Adds `extra` words to a count that may already be over the bound.
fn add_words(count: Option<u64>, extra: u64) -> (sum: Option<u64>)
    requires
        extra <= 2,
        count matches Some(c) ==> c <= MAX_ENCODED_WORDS,
    ensures
        match sum {
            Some(s) => count matches Some(c) && s == c + extra && s <= MAX_ENCODED_WORDS,
            None => count matches Some(c) ==> c + extra > MAX_ENCODED_WORDS,
        },
{
    match count {
        Some(c) => if c + extra <= MAX_ENCODED_WORDS {
            Some(c + extra)
        } else {
            None
        },
        None => None,
    }
}

/// Counts the words of a byte string of `len` bytes behind `extra` words.
fn byte_string_words(len: usize, extra: u64) -> (words: Option<u64>)
    requires
        extra <= 2,
    ensures
        match words {
            Some(w) => w == extra + words_for(len as nat) && w <= MAX_ENCODED_WORDS,
            None => extra + words_for(len as nat) > MAX_ENCODED_WORDS,
        },
{
    let padded = words_for_len(len);
    if padded <= MAX_ENCODED_WORDS {
        add_words(Some(padded), extra)
    } else {
        None
    }
}

impl AbiValue {
    /// Counts the words that bound the encoding of this value, and gives
    /// `None` when they are more than [`MAX_ENCODED_WORDS`].
    pub fn encoded_words(&self) -> (words: Option<u64>)
        ensures
            match words {
                Some(w) => w == encoded_words(self@) && w <= MAX_ENCODED_WORDS,
                None => encoded_words(self@) > MAX_ENCODED_WORDS,
            },
        decreases self,
    {
        proof {
            lemma_member_models(*self);
        }
        match self {
            AbiValue::Address(_) => Some(1),
            AbiValue::Int(_) => Some(1),
            AbiValue::Uint(_) => Some(1),
            AbiValue::Bool(_) => Some(1),
            AbiValue::FixedBytes(bytes) => byte_string_words(bytes.len(), 0),
            AbiValue::Bytes(bytes) => byte_string_words(bytes.len(), 2),
            AbiValue::String(s) => byte_string_words(s.as_str().as_bytes().len(), 2),
            AbiValue::Array(items) => add_words(count_words(items), 2),
            AbiValue::FixedArray(items) => add_words(count_words(items), 1),
            AbiValue::Tuple(items) => add_words(count_words(items), 1),
        }
    }
}

/// Counts the words that bound the encoding of an argument list, and gives
/// `None` when they are more than [`MAX_ENCODED_WORDS`].
pub fn count_words(values: &Vec<AbiValue>) -> (words: Option<u64>)
    ensures
        match words {
            Some(w) => w == total_words(value_models(values@)) && w <= MAX_ENCODED_WORDS,
            None => total_words(value_models(values@)) > MAX_ENCODED_WORDS,
        },
    decreases values,
{
    let ghost models = value_models(values@);
    let mut sum: u64 = 0;
    let mut i: usize = 0;
    while i < values.len()
        invariant
            i <= values.len(),
            models == value_models(values@),
            sum == words_upto(models, i as int),
            sum <= MAX_ENCODED_WORDS,
        decreases values.len() - i,
    {
        proof {
            lemma_words_upto_monotonic(models, i + 1, models.len() as int);
        }
        match values[i].encoded_words() {
            Some(w) => {
                if sum + w > MAX_ENCODED_WORDS {
                    return None;
                }
                sum = sum + w;
            },
            None => {
                return None;
            },
        }
        i += 1;
    }
    Some(sum)
}

} // verus!
