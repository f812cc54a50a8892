//! Lower-case hexadecimal encoding of byte strings.

use vstd::prelude::*;
use crate::text::{chars_of, push_char};

verus! {

/// The lower-case hex digit for a value below 16.
pub open spec fn hex_digit(n: nat) -> char
    recommends
        n < 16,
{
    if n < 10 {
        (n + 48) as char
    } else {
        (n + 87) as char
    }
}

/// The two lower-case hex digits of one byte, high nibble first.
pub open spec fn byte_hex(b: u8) -> Seq<char> {
    seq![hex_digit((b / 16) as nat), hex_digit((b % 16) as nat)]
}

/// The lower-case hex text of a byte string: two digits per byte, in order.
pub open spec fn spec_encode_hex(bytes: Seq<u8>) -> Seq<char>
    decreases bytes.len(),
{
    if bytes.len() == 0 {
        Seq::empty()
    } else {
        spec_encode_hex(bytes.drop_last()) + byte_hex(bytes.last())
    }
}

fn hex_char(n: u8) -> (c: char)
    requires
        n < 16,
    ensures
        c == hex_digit(n as nat),
{
    if n < 10 {
        (n + 48) as char
    } else {
        (n + 87) as char
    }
}

fn push_byte_hex(out: &mut String, b: u8)
    ensures
        final(out)@ == old(out)@ + byte_hex(b),
{
    push_char(out, hex_char(b / 16));
    push_char(out, hex_char(b % 16));
    assert(out@ =~= old(out)@ + byte_hex(b));
}

/// Encodes `bytes` as lower-case hexadecimal text, two digits per byte.
pub fn encode_hex(bytes: &[u8]) -> (hex: String)
    ensures
        hex@ == spec_encode_hex(bytes@),
{
    let mut hex = String::new();
    let mut i: usize = 0;
    while i < bytes.len()
        invariant
            i <= bytes.len(),
            hex@ == spec_encode_hex(bytes@.take(i as int)),
        decreases bytes.len() - i,
    {
        push_byte_hex(&mut hex, bytes[i]);
        assert(bytes@.take(i + 1).drop_last() == bytes@.take(i as int));
        i = i + 1;
    }
    assert(bytes@.take(i as int) == bytes@);
    hex
}


/// The value of one hexadecimal digit, either case; `None` for any other char.
pub open spec fn hex_value(c: char) -> Option<u8> {
    if '0' <= c <= '9' {
        Some((c as u32 - 48) as u8)
    } else if 'a' <= c <= 'f' {
        Some((c as u32 - 87) as u8)
    } else if 'A' <= c <= 'F' {
        Some((c as u32 - 55) as u8)
    } else {
        None
    }
}

/// The byte that a chunk of one or two characters denotes when read as a
/// base-16 number: one or two hex digits, or a `+` sign followed by one digit.
pub open spec fn chunk_value(chunk: Seq<char>) -> Option<u8> {
    if chunk.len() == 1 {
        hex_value(chunk[0])
    } else if chunk.len() == 2 {
        if chunk[0] == '+' {
            hex_value(chunk[1])
        } else {
            match (hex_value(chunk[0]), hex_value(chunk[1])) {
                (Some(hi), Some(lo)) => Some((hi * 16 + lo) as u8),
                _ => None,
            }
        }
    } else {
        None
    }
}

/// How many chunks of two characters `s` splits into (the last may hold one).
pub open spec fn chunk_count(s: Seq<char>) -> nat {
    ((s.len() + 1) / 2) as nat
}

/// The `i`-th chunk of two characters of `s`; the last one is shorter when
/// `s` has odd length.
pub open spec fn chunk_at(s: Seq<char>, i: int) -> Seq<char> {
    if 2 * i + 2 <= s.len() {
        s.subrange(2 * i, 2 * i + 2)
    } else {
        s.subrange(2 * i, s.len() as int)
    }
}

/// Every chunk of two characters of `s` denotes a byte.
pub open spec fn is_hash_text(s: Seq<char>) -> bool {
    forall|i: int| 0 <= i < chunk_count(s) ==> (#[trigger] chunk_value(chunk_at(s, i))) is Some
}

/// The bytes that the chunks of `s` denote, in order.
pub open spec fn hash_text_bytes(s: Seq<char>) -> Seq<u8> {
    Seq::new(chunk_count(s), |i: int| chunk_value(chunk_at(s, i))->0)
}

/// The hex text of the bytes of `s` in reverse order.
pub open spec fn spec_reverse_hash(s: Seq<char>) -> Seq<char> {
    spec_encode_hex(hash_text_bytes(s).reverse())
}

fn char_hex_value(c: char) -> (v: Option<u8>)
    ensures
        v == hex_value(c),
{
    if '0' <= c && c <= '9' {
        Some((c as u32 - 48) as u8)
    } else if 'a' <= c && c <= 'f' {
        Some((c as u32 - 87) as u8)
    } else if 'A' <= c && c <= 'F' {
        Some((c as u32 - 55) as u8)
    } else {
        None
    }
}

/// Reads the chunk of `chars` that starts at `start` and holds `len` characters.
fn read_chunk(chars: &Vec<char>, start: usize, len: usize) -> (v: Option<u8>)
    requires
        1 <= len <= 2,
        start + len <= chars.len(),
    ensures
        v == chunk_value(chars@.subrange(start as int, start + len)),
{
    let first = char_hex_value(chars[start]);
    if len == 1 {
        first
    } else {
        let second = char_hex_value(chars[start + 1]);
        if chars[start] == '+' {
            second
        } else {
            match (first, second) {
                (Some(hi), Some(lo)) => Some(hi * 16 + lo),
                _ => None,
            }
        }
    }
}

/// Where `chunk_at` starts and how many characters it holds.
fn chunk_bounds(n: usize, k: usize) -> (r: (usize, usize))
    requires
        k < (n as int + 1) / 2,
    ensures
        r.0 == 2 * k,
        1 <= r.1 <= 2,
        r.0 + r.1 <= n,
        r.1 == (if 2 * k + 2 <= n { 2int } else { n - 2 * k }),
{
    let start = 2 * k;
    if n - start >= 2 {
        (start, 2)
    } else {
        (start, n - start)
    }
}

/// Whether every chunk of two characters of `hash` denotes a byte, that is,
/// whether `reverse_hash` accepts it.
pub fn is_reversible_hash(hash: &str) -> (ok: bool)
    ensures
        ok == is_hash_text(hash@),
{
    let chars = chars_of(hash);
    let n = chars.len();
    let count = n / 2 + n % 2;
    let mut k: usize = 0;
    while k < count
        invariant
            chars@ == hash@,
            n == chars.len(),
            count == chunk_count(hash@),
            k <= count,
            forall|i: int| 0 <= i < k ==> (#[trigger] chunk_value(chunk_at(hash@, i))) is Some,
        decreases count - k,
    {
        let (start, len) = chunk_bounds(n, k);
        assert(chunk_at(hash@, k as int) == chars@.subrange(start as int, start + len));
        if read_chunk(&chars, start, len).is_none() {
            return false;
        }
        k = k + 1;
    }
    true
}

/// Reads `hash` as a sequence of bytes, two hex digits each, and writes them
/// back as lower-case hex in reverse byte order (the display order of block
/// hashes versus their wire order).
pub fn reverse_hash(hash: &str) -> (reversed: String)
    requires
        is_hash_text(hash@),
    ensures
        reversed@ == spec_reverse_hash(hash@),
{
    let chars = chars_of(hash);
    let n = chars.len();
    let count = n / 2 + n % 2;
    let ghost bytes = hash_text_bytes(hash@);
    let ghost rev = bytes.reverse();
    let mut out = String::new();
    let mut k: usize = count;
    while k > 0
        invariant
            chars@ == hash@,
            n == chars.len(),
            count == chunk_count(hash@),
            is_hash_text(hash@),
            bytes == hash_text_bytes(hash@),
            rev == bytes.reverse(),
            k <= count,
            out@ == spec_encode_hex(rev.take(count - k)),
        decreases k,
    {
        k = k - 1;
        let (start, len) = chunk_bounds(n, k);
        assert(chunk_at(hash@, k as int) == chars@.subrange(start as int, start + len));
        let v = read_chunk(&chars, start, len);
        assert(v is Some);
        let b = v.unwrap();
        push_byte_hex(&mut out, b);
        assert(rev.take(count - k).drop_last() == rev.take(count - k - 1));
        assert(rev.take(count - k).last() == b);
    }
    assert(rev.take(count as int) == rev);
    out
}

/// `encode_hex` writes every byte as exactly two digits, high nibble first:
/// the text is twice as long as the bytes, and byte `i` stands at `2 * i`.
pub proof fn lemma_encode_hex_shape(bytes: Seq<u8>)
    ensures
        spec_encode_hex(bytes).len() == 2 * bytes.len(),
        forall|i: int|
            0 <= i < bytes.len() ==> {
                &&& #[trigger] spec_encode_hex(bytes)[2 * i] == hex_digit((bytes[i] / 16) as nat)
                &&& spec_encode_hex(bytes)[2 * i + 1] == hex_digit((bytes[i] % 16) as nat)
            },
    decreases bytes.len(),
{
    if bytes.len() > 0 {
        let init = bytes.drop_last();
        lemma_encode_hex_shape(init);
        assert forall|i: int| 0 <= i < bytes.len() implies {
            &&& #[trigger] spec_encode_hex(bytes)[2 * i] == hex_digit((bytes[i] / 16) as nat)
            &&& spec_encode_hex(bytes)[2 * i + 1] == hex_digit((bytes[i] % 16) as nat)
        } by {
            if i < init.len() {
                assert(init[i] == bytes[i]);
                assert(spec_encode_hex(init)[2 * i] == hex_digit((init[i] / 16) as nat));
            }
        }
    }
}

/// Hex text is written in lower case: every character of it is a decimal
/// digit or one of `a` to `f`, and it reads back as the bytes it was made
/// from.
pub proof fn lemma_encode_hex_lower_case(bytes: Seq<u8>)
    ensures
        forall|i: int|
            0 <= i < spec_encode_hex(bytes).len() ==> ('0' <= #[trigger] spec_encode_hex(bytes)[i]
                <= '9' || 'a' <= spec_encode_hex(bytes)[i] <= 'f'),
        hash_text_bytes(spec_encode_hex(bytes)) == bytes,
{
    lemma_encode_hex_shape(bytes);
    lemma_reverse_hash_of_encoded(bytes);
    let text = spec_encode_hex(bytes);
    assert forall|i: int| 0 <= i < text.len() implies ('0' <= #[trigger] text[i] <= '9' || 'a'
        <= text[i] <= 'f') by {
        let b = i / 2;
        if i % 2 == 0 {
            assert(i == 2 * b);
            assert(text[2 * b] == hex_digit((bytes[b] / 16) as nat));
        } else {
            assert(i == 2 * b + 1);
            assert(text[2 * b] == hex_digit((bytes[b] / 16) as nat));
            assert(text[2 * b + 1] == hex_digit((bytes[b] % 16) as nat));
        }
    }
}

proof fn lemma_hex_digit_value(n: nat)
    requires
        n < 16,
    ensures
        hex_value(hex_digit(n)) == Some(n as u8),
{
}

proof fn lemma_byte_chunk(b: u8, chunk: Seq<char>)
    requires
        chunk =~= byte_hex(b),
    ensures
        chunk_value(chunk) == Some(b),
{
    lemma_hex_digit_value((b / 16) as nat);
    lemma_hex_digit_value((b % 16) as nat);
    assert(hex_digit((b / 16) as nat) != '+');
}

/// Hex text made by `encode_hex` is always accepted by `reverse_hash`, and
/// reversing it gives the hex text of the bytes in reverse order.
pub proof fn lemma_reverse_hash_of_encoded(bytes: Seq<u8>)
    ensures
        is_hash_text(spec_encode_hex(bytes)),
        hash_text_bytes(spec_encode_hex(bytes)) == bytes,
        spec_reverse_hash(spec_encode_hex(bytes)) == spec_encode_hex(bytes.reverse()),
{
    let text = spec_encode_hex(bytes);
    lemma_encode_hex_shape(bytes);
    assert(chunk_count(text) == bytes.len());
    assert forall|i: int| 0 <= i < chunk_count(text) implies (#[trigger] chunk_value(chunk_at(text, i))) == Some(bytes[i]) by {
        assert(text[2 * i] == hex_digit((bytes[i] / 16) as nat));
        lemma_byte_chunk(bytes[i], chunk_at(text, i));
    }
    assert(hash_text_bytes(text) =~= bytes);
}

/// Reversing twice gives back the bytes of the input, written as lower-case
/// hex two digits per byte.
pub proof fn lemma_reverse_hash_twice(hash: Seq<char>)
    requires
        is_hash_text(hash),
    ensures
        is_hash_text(spec_reverse_hash(hash)),
        spec_reverse_hash(spec_reverse_hash(hash)) == spec_encode_hex(hash_text_bytes(hash)),
{
    let bytes = hash_text_bytes(hash);
    lemma_reverse_hash_of_encoded(bytes.reverse());
    assert(bytes.reverse().reverse() =~= bytes);
}

} // verus!
