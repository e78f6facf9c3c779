//! Word-level primitives of the binary stream.
//!
//! An instruction stream is a flat sequence of 32-bit words.  The first
//! word of an instruction packs its opcode (low 16 bits) and its word
//! count (high 16 bits); string operands are nul-terminated byte strings
//! packed little-endian into whole words.

use vstd::prelude::*;
use vstd::utf8::decode_utf8;
use vstd::utf8::valid_utf8;

use crate::Error;

verus! {

/// The opcode packed into the first word of an instruction.
pub open spec fn word_opcode(w: u32) -> u32 {
    w & 0xFFFF
}

/// The word count packed into the first word of an instruction.
pub open spec fn word_count(w: u32) -> u32 {
    (w >> 16) & 0xFFFF
}

/// The four bytes of a word, in little-endian order.
pub open spec fn word_bytes(w: u32) -> Seq<u8> {
    seq![
        (w & 0xff) as u8,
        ((w >> 8) & 0xff) as u8,
        ((w >> 16) & 0xff) as u8,
        ((w >> 24) & 0xff) as u8,
    ]
}

/// True when at least one byte of the word is zero.
pub open spec fn has_zero_byte(w: u32) -> bool {
    ||| w & 0xff == 0
    ||| (w >> 8) & 0xff == 0
    ||| (w >> 16) & 0xff == 0
    ||| (w >> 24) & 0xff == 0
}

/// The bytes of a word sequence, in stream order.
pub open spec fn words_bytes(s: Seq<u32>) -> Seq<u8>
    decreases s.len(),
{
    if s.len() == 0 {
        Seq::empty()
    } else {
        word_bytes(s[0]) + words_bytes(s.drop_first())
    }
}

/// The prefix of a byte sequence up to (not including) its first zero
/// byte; the whole sequence when no byte is zero.
pub open spec fn bytes_to_terminator(b: Seq<u8>) -> Seq<u8>
    decreases b.len(),
{
    if b.len() == 0 {
        Seq::empty()
    } else if b[0] == 0 {
        Seq::empty()
    } else {
        seq![b[0]] + bytes_to_terminator(b.drop_first())
    }
}

/// How many words a string operand occupies: the count of words up to and
/// including the first word that holds a zero byte, or `None` when no word
/// of the operand slice does.
pub open spec fn str_word_count(s: Seq<u32>) -> Option<int>
    decreases s.len(),
{
    if s.len() == 0 {
        None
    } else if has_zero_byte(s[0]) {
        Some(1)
    } else {
        match str_word_count(s.drop_first()) {
            None => None,
            Some(n) => Some(n + 1),
        }
    }
}

/// What decoding a string operand from the operand slice `s` yields: the
/// decoded characters and the number of words consumed, or the error.
///
/// The byte string runs to the first zero byte; a missing terminator is a
/// framing error, and bytes that are not valid UTF-8 are a string-format
/// error.
pub open spec fn spec_decode_string(s: Seq<u32>) -> Result<(Seq<char>, int), Error> {
    match str_word_count(s) {
        None => Err(Error::InvalidOp),
        Some(n) => {
            let bytes = bytes_to_terminator(words_bytes(s.take(n)));
            if valid_utf8(bytes) {
                Ok((decode_utf8(bytes), n))
            } else {
                Err(Error::StringFormat)
            }
        },
    }
}

proof fn lemma_word_byte_bounds(w: u32)
    by (bit_vector)
    ensures
        w & 0xff < 256,
        (w >> 8) & 0xff < 256,
        (w >> 16) & 0xff < 256,
        (w >> 24) & 0xff < 256,
{
}

/// A word has a zero byte exactly when one of its four bytes is zero.
proof fn lemma_zero_byte_index(w: u32)
    ensures
        has_zero_byte(w) <==> exists|k: int| 0 <= k < 4 && word_bytes(w)[k] == 0,
{
    lemma_word_byte_bounds(w);
    if has_zero_byte(w) {
        if w & 0xff == 0 {
            assert(word_bytes(w)[0] == 0);
        } else if (w >> 8) & 0xff == 0 {
            assert(word_bytes(w)[1] == 0);
        } else if (w >> 16) & 0xff == 0 {
            assert(word_bytes(w)[2] == 0);
        } else {
            assert(word_bytes(w)[3] == 0);
        }
    }
}

/// Bytes of a word sequence extended by one word.
proof fn lemma_words_bytes_snoc(s: Seq<u32>, w: u32)
    ensures
        words_bytes(s.push(w)) == words_bytes(s) + word_bytes(w),
    decreases s.len(),
{
    if s.len() == 0 {
        assert(s.push(w)[0] == w);
        assert(s.push(w).drop_first() =~= Seq::<u32>::empty());
        assert(words_bytes(Seq::<u32>::empty()) =~= Seq::<u8>::empty());
        assert(words_bytes(s) =~= Seq::<u8>::empty());
        assert(words_bytes(s.push(w)) =~= words_bytes(s) + word_bytes(w));
    } else {
        lemma_words_bytes_snoc(s.drop_first(), w);
        assert(s.push(w).drop_first() =~= s.drop_first().push(w));
        assert(s.push(w)[0] == s[0]);
        assert(words_bytes(s.push(w)) =~= words_bytes(s) + word_bytes(w));
    }
}

/// The byte count of a word sequence.
proof fn lemma_words_bytes_len(s: Seq<u32>)
    ensures
        words_bytes(s).len() == 4 * s.len(),
    decreases s.len(),
{
    if s.len() > 0 {
        lemma_words_bytes_len(s.drop_first());
    }
}

/// Bytes of a word at index `i` appear at byte offset `4 * i`.
proof fn lemma_words_bytes_at(s: Seq<u32>, i: int, k: int)
    requires
        0 <= i < s.len(),
        0 <= k < 4,
    ensures
        words_bytes(s).len() == 4 * s.len(),
        words_bytes(s)[4 * i + k] == word_bytes(s[i])[k],
    decreases i,
{
    lemma_words_bytes_len(s);
    lemma_words_bytes_len(s.drop_first());
    if i == 0 {
    } else {
        lemma_words_bytes_at(s.drop_first(), i - 1, k);
        assert(s.drop_first()[i - 1] == s[i]);
    }
}

/// When no word of the slice has a zero byte, there is no terminator.
pub(crate) proof fn lemma_str_word_count_none(s: Seq<u32>)
    requires
        forall|j: int| 0 <= j < s.len() ==> !has_zero_byte(#[trigger] s[j]),
    ensures
        str_word_count(s) == None::<int>,
    decreases s.len(),
{
    if s.len() > 0 {
        assert(forall|j: int|
            0 <= j < s.drop_first().len() ==> #[trigger] s.drop_first()[j] == s[j + 1]);
        lemma_str_word_count_none(s.drop_first());
    }
}

/// The terminator is found in the first word that has a zero byte.
proof fn lemma_str_word_count_found(s: Seq<u32>, m: int)
    requires
        0 <= m < s.len(),
        forall|j: int| 0 <= j < m ==> !has_zero_byte(#[trigger] s[j]),
        has_zero_byte(s[m]),
    ensures
        str_word_count(s) == Some(m + 1),
    decreases m,
{
    if m == 0 {
    } else {
        assert(forall|j: int|
            0 <= j < s.drop_first().len() ==> #[trigger] s.drop_first()[j] == s[j + 1]);
        lemma_str_word_count_found(s.drop_first(), m - 1);
    }
}

/// When the first zero byte of `b` stands at index `t`, the string bytes
/// are exactly the prefix of length `t`.
proof fn lemma_bytes_to_terminator_at(b: Seq<u8>, t: int)
    requires
        0 <= t < b.len(),
        forall|j: int| 0 <= j < t ==> b[j] != 0,
        b[t] == 0,
    ensures
        bytes_to_terminator(b) == b.subrange(0, t),
    decreases t,
{
    if t == 0 {
        assert(bytes_to_terminator(b) =~= b.subrange(0, 0));
    } else {
        assert(forall|j: int|
            0 <= j < b.drop_first().len() ==> #[trigger] b.drop_first()[j] == b[j + 1]);
        lemma_bytes_to_terminator_at(b.drop_first(), t - 1);
        assert(bytes_to_terminator(b) =~= b.subrange(0, t));
    }
}

/// Relies on `String::from_utf8`: it succeeds exactly on valid UTF-8 and
/// decodes the bytes to the characters they encode.
#[verifier::external_body]
fn string_from_utf8(bytes: Vec<u8>) -> (r: Option<String>)
    ensures
        r is Some <==> valid_utf8(bytes@),
        r matches Some(s) ==> s@ == decode_utf8(bytes@),
{
    String::from_utf8(bytes).ok()
}

/// Appends the four little-endian bytes of `w`.
fn push_word_bytes(out: &mut Vec<u8>, w: u32)
    ensures
        final(out)@ == old(out)@ + word_bytes(w),
{
    proof {
        lemma_word_byte_bounds(w);
    }
    out.push((w & 0xff) as u8);
    out.push(((w >> 8) & 0xff) as u8);
    out.push(((w >> 16) & 0xff) as u8);
    out.push(((w >> 24) & 0xff) as u8);
    assert(out@ =~= old(out)@ + word_bytes(w));
}

/// Decodes a string operand from `words[lo..hi]`, returning the string and
/// the number of words consumed.
pub fn decode_string(words: &[u32], lo: usize, hi: usize) -> (r: Result<(String, usize), Error>)
    requires
        lo <= hi <= words@.len(),
    ensures
        match r {
            Ok(p) => {
                &&& spec_decode_string(words@.subrange(lo as int, hi as int)) == Ok::<_, Error>(
                    (p.0@, p.1 as int),
                )
                &&& lo + p.1 <= hi
            },
            Err(e) => spec_decode_string(words@.subrange(lo as int, hi as int)) == Err::<
                (Seq<char>, int),
                _,
            >(e),
        },
{
    let ghost ops = words@.subrange(lo as int, hi as int);

    // Find the first word that holds a zero byte.
    let mut z: usize = lo;
    loop
        invariant
            lo <= z <= hi <= words@.len(),
            forall|j: int| lo <= j < z ==> !has_zero_byte(#[trigger] words@[j]),
            ops == words@.subrange(lo as int, hi as int),
        ensures
            lo <= z < hi <= words@.len(),
            forall|j: int| lo <= j < z ==> !has_zero_byte(#[trigger] words@[j]),
            has_zero_byte(words@[z as int]),
            ops == words@.subrange(lo as int, hi as int),
        decreases hi - z,
    {
        if z == hi {
            proof {
                assert(forall|j: int| 0 <= j < ops.len() ==> ops[j] == words@[lo + j]);
                lemma_str_word_count_none(ops);
            }
            return Err(Error::InvalidOp);
        }
        let w = words[z];
        if w & 0xff == 0 || (w >> 8) & 0xff == 0 || (w >> 16) & 0xff == 0 || (w >> 24) & 0xff == 0 {
            break;
        }
        z = z + 1;
    }
    let n: usize = z - lo + 1;
    proof {
        assert(forall|j: int| 0 <= j < ops.len() ==> ops[j] == words@[lo + j]);
        lemma_str_word_count_found(ops, z - lo);
        assert(str_word_count(ops) == Some(n as int));
    }

    // Collect the bytes of those words.
    let mut all: Vec<u8> = Vec::new();
    let mut i: usize = 0;
    while i < n
        invariant
            n == z - lo + 1,
            lo <= z < hi <= words@.len(),
            i <= n,
            all@ == words_bytes(words@.subrange(lo as int, lo + i)),
        decreases n - i,
    {
        proof {
            lemma_words_bytes_snoc(words@.subrange(lo as int, lo + i), words@[lo + i]);
            assert(words@.subrange(lo as int, lo + i + 1) =~= words@.subrange(
                lo as int,
                lo + i,
            ).push(words@[lo + i]));
        }
        push_word_bytes(&mut all, words[lo + i]);
        i = i + 1;
    }
    proof {
        assert(words@.subrange(lo as int, lo + n) =~= ops.take(n as int));
        lemma_words_bytes_len(ops.take(n as int));
    }

    // Find the first zero byte; the word at `z` guarantees one exists.
    proof {
        lemma_zero_byte_index(words@[z as int]);
        let k = choose|k: int| 0 <= k < 4 && word_bytes(words@[z as int])[k] == 0;
        lemma_words_bytes_at(ops.take(n as int), n - 1, k);
        assert(ops.take(n as int)[n - 1] == words@[z as int]);
        assert(all@[4 * (n - 1) + k] == 0);
        assert(exists|j: int| 0 <= j < all@.len() && all@[j] == 0);
    }
    let all_len: usize = all.len();
    let mut t: usize = 0;
    while all[t] != 0
        invariant
            all_len == all@.len(),
            t < all_len,
            exists|j: int| t <= j < all@.len() && all@[j] == 0,
            forall|j: int| 0 <= j < t ==> all@[j] != 0,
        decreases all@.len() - t,
    {
        t = t + 1;
        proof {
            let j = choose|j: int| t - 1 <= j < all@.len() && all@[j] == 0;
            assert(t <= j < all@.len());
        }
    }
    proof {
        lemma_bytes_to_terminator_at(all@, t as int);
    }

    // The string bytes are the prefix before the terminator.
    let mut bytes: Vec<u8> = Vec::new();
    let mut j: usize = 0;
    while j < t
        invariant
            j <= t < all@.len(),
            bytes@ == all@.subrange(0, j as int),
        decreases t - j,
    {
        bytes.push(all[j]);
        proof {
            assert(all@.subrange(0, j + 1) =~= all@.subrange(0, j as int).push(all@[j as int]));
        }
        j = j + 1;
    }
    assert(bytes@ == bytes_to_terminator(words_bytes(ops.take(n as int))));

    match string_from_utf8(bytes) {
        Some(s) => Ok((s, n)),
        None => Err(Error::StringFormat),
    }
}

} // verus!
