//! Content hashing: the blake3 digest of a byte slice, raw or hex-printed.

use vstd::prelude::*;

verus! {

/// The 32-byte digest blake3 assigns to a byte sequence; a function of the
/// input alone.
pub uninterp spec fn blake3_of(data: Seq<u8>) -> Seq<u8>;

/// The lowercase hex digit for a value below 16.
pub open spec fn hex_digit(v: u8) -> char {
    if v < 10 {
        (((v + 48) as u8) as char)
    } else {
        (((v + 87) as u8) as char)
    }
}

/// The two lowercase hex digits of one byte, high nibble first.
pub open spec fn hex_byte(b: u8) -> Seq<char> {
    seq![hex_digit(b / 16), hex_digit(b % 16)]
}

/// The lowercase hex rendering of a byte sequence, two digits per byte.
pub open spec fn hex_of(bytes: Seq<u8>) -> Seq<char>
    decreases bytes.len(),
{
    if bytes.len() == 0 {
        Seq::empty()
    } else {
        hex_of(bytes.drop_last()) + hex_byte(bytes.last())
    }
}

/// Relies on blake3::hash: the digest of the input, 32 bytes long.
#[verifier::external_body]
pub fn hash(data: &[u8]) -> (r: [u8; 32])
    ensures
        r@ == blake3_of(data@),
        r@.len() == 32,
{
    *blake3::hash(data).as_bytes()
}

/// Relies on String::push: appends the given char to the end of the string.
#[verifier::external_body]
fn push_char(s: &mut String, c: char)
    ensures
        final(s)@ == old(s)@.push(c),
{
    s.push(c);
}

/// The exec twin of [`hex_digit`].
fn hex_digit_char(v: u8) -> (c: char)
    requires
        v < 16,
    ensures
        c == hex_digit(v),
{
    if v < 10 {
        (48 + v) as char
    } else {
        (87 + v) as char
    }
}

/// Renders bytes as lowercase hex, two digits per byte.
pub fn bytes_to_hex(data: &[u8]) -> (s: String)
    ensures
        s@ == hex_of(data@),
{
    let mut s = String::new();
    let mut i: usize = 0;
    while i < data.len()
        invariant
            i <= data@.len(),
            s@ == hex_of(data@.take(i as int)),
        decreases data@.len() - i,
    {
        let b = data[i];
        push_char(&mut s, hex_digit_char(b / 16));
        push_char(&mut s, hex_digit_char(b % 16));
        proof {
            let pre = data@.take(i as int);
            let post = data@.take(i + 1);
            assert(post.drop_last() =~= pre);
            assert(post.last() == data@[i as int]);
        }
        i = i + 1;
    }
    proof {
        assert(data@.take(data@.len() as int) =~= data@);
    }
    s
}

/// The blake3 digest of `data`, rendered as 64 lowercase hex digits.
pub fn hash_hex(data: &[u8]) -> (s: String)
    ensures
        s@ == hex_of(blake3_of(data@)),
        s@.len() == 64,
{
    let digest = hash(data);
    let s = bytes_to_hex(digest.as_slice());
    proof {
        lemma_hex_of_len(digest@);
    }
    s
}

/// Hex output is exactly twice as long as its input.
pub proof fn lemma_hex_of_len(bytes: Seq<u8>)
    ensures
        hex_of(bytes).len() == 2 * bytes.len(),
    decreases bytes.len(),
{
    if bytes.len() > 0 {
        lemma_hex_of_len(bytes.drop_last());
    }
}

} // verus!
