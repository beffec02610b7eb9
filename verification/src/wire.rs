//! Byte-level encodings used on the wire: fixed-width integers, lower-case
//! hexadecimal text, and length-prefixed fields.

use vstd::prelude::*;

verus! {

/// The four bytes of `v`, least significant first.
pub open spec fn u32_le_bytes(v: u32) -> Seq<u8> {
    seq![
        (v % 0x100) as u8,
        (v / 0x100 % 0x100) as u8,
        (v / 0x1_0000 % 0x100) as u8,
        (v / 0x100_0000 % 0x100) as u8,
    ]
}

/// The eight bytes of `v`, least significant first.
pub open spec fn u64_le_bytes(v: u64) -> Seq<u8> {
    seq![
        (v % 0x100) as u8,
        (v / 0x100 % 0x100) as u8,
        (v / 0x1_0000 % 0x100) as u8,
        (v / 0x100_0000 % 0x100) as u8,
        (v / 0x1_0000_0000 % 0x100) as u8,
        (v / 0x100_0000_0000 % 0x100) as u8,
        (v / 0x1_0000_0000_0000 % 0x100) as u8,
        (v / 0x100_0000_0000_0000 % 0x100) as u8,
    ]
}

/// The eight bytes of `v`, most significant first.
pub open spec fn u64_be_bytes(v: u64) -> Seq<u8> {
    seq![
        (v / 0x100_0000_0000_0000 % 0x100) as u8,
        (v / 0x1_0000_0000_0000 % 0x100) as u8,
        (v / 0x100_0000_0000 % 0x100) as u8,
        (v / 0x1_0000_0000 % 0x100) as u8,
        (v / 0x100_0000 % 0x100) as u8,
        (v / 0x1_0000 % 0x100) as u8,
        (v / 0x100 % 0x100) as u8,
        (v % 0x100) as u8,
    ]
}

/// The number that `bytes` spell when read most significant byte first.
pub open spec fn be_value(bytes: Seq<u8>) -> nat
    decreases bytes.len(),
{
    if bytes.len() == 0 {
        0
    } else {
        be_value(bytes.drop_last()) * 0x100 + bytes.last() as nat
    }
}

/// One more byte at the end shifts the number read so far by a byte and adds
/// the new one.
pub proof fn lemma_be_value_push(bytes: Seq<u8>, last: u8)
    ensures
        be_value(bytes.push(last)) == be_value(bytes) * 0x100 + last as nat,
{
    assert(bytes.push(last).drop_last() =~= bytes);
}

/// A byte string of zeros spells zero.
pub proof fn lemma_be_value_zeros(n: nat)
    ensures
        be_value(Seq::new(n, |i: int| 0u8)) == 0,
    decreases n,
{
    if n > 0 {
        lemma_be_value_zeros((n - 1) as nat);
        assert(Seq::new(n, |i: int| 0u8).drop_last() =~= Seq::new((n - 1) as nat, |i: int| 0u8));
    }
}

/// Zeros in front of a byte string do not change the number that it spells.
pub proof fn lemma_be_value_zero_prefix(n: nat, bytes: Seq<u8>)
    ensures
        be_value(Seq::new(n, |i: int| 0u8) + bytes) == be_value(bytes),
    decreases bytes.len(),
{
    let zeros = Seq::new(n, |i: int| 0u8);
    if bytes.len() == 0 {
        assert(zeros + bytes =~= zeros);
        lemma_be_value_zeros(n);
    } else {
        lemma_be_value_zero_prefix(n, bytes.drop_last());
        assert((zeros + bytes).drop_last() =~= zeros + bytes.drop_last());
    }
}

/// The eight big-endian bytes of a value spell that value.
pub proof fn lemma_be_value_of_u64(v: u64)
    ensures
        be_value(u64_be_bytes(v)) == v,
{
    let b = u64_be_bytes(v);
    let s0 = Seq::<u8>::empty();
    let s1 = s0.push(b[0]);
    let s2 = s1.push(b[1]);
    let s3 = s2.push(b[2]);
    let s4 = s3.push(b[3]);
    let s5 = s4.push(b[4]);
    let s6 = s5.push(b[5]);
    let s7 = s6.push(b[6]);
    let s8 = s7.push(b[7]);
    assert(s8 =~= b);
    lemma_be_value_push(s0, b[0]);
    lemma_be_value_push(s1, b[1]);
    lemma_be_value_push(s2, b[2]);
    lemma_be_value_push(s3, b[3]);
    lemma_be_value_push(s4, b[4]);
    lemma_be_value_push(s5, b[5]);
    lemma_be_value_push(s6, b[6]);
    lemma_be_value_push(s7, b[7]);
    assert(v == (v / 0x100_0000_0000_0000 % 0x100) * 0x100_0000_0000_0000 + (v / 0x1_0000_0000_0000
        % 0x100) * 0x1_0000_0000_0000 + (v / 0x100_0000_0000 % 0x100) * 0x100_0000_0000 + (v
        / 0x1_0000_0000 % 0x100) * 0x1_0000_0000 + (v / 0x100_0000 % 0x100) * 0x100_0000 + (v / 0x1_0000
        % 0x100) * 0x1_0000 + (v / 0x100 % 0x100) * 0x100 + v % 0x100) by (bit_vector);
}

/// Splits `v` into its eight bytes, most significant first.
pub fn u64_to_be_bytes(v: u64) -> (r: [u8; 8])
    ensures
        r@ == u64_be_bytes(v),
{
    let r: [u8; 8] = [
        (v >> 56) as u8,
        ((v >> 48) & 0xff) as u8,
        ((v >> 40) & 0xff) as u8,
        ((v >> 32) & 0xff) as u8,
        ((v >> 24) & 0xff) as u8,
        ((v >> 16) & 0xff) as u8,
        ((v >> 8) & 0xff) as u8,
        (v & 0xff) as u8,
    ];
    assert(v >> 56 == v / 0x100_0000_0000_0000 % 0x100) by (bit_vector);
    assert((v >> 48) & 0xff == v / 0x1_0000_0000_0000 % 0x100) by (bit_vector);
    assert((v >> 40) & 0xff == v / 0x100_0000_0000 % 0x100) by (bit_vector);
    assert((v >> 32) & 0xff == v / 0x1_0000_0000 % 0x100) by (bit_vector);
    assert((v >> 24) & 0xff == v / 0x100_0000 % 0x100) by (bit_vector);
    assert((v >> 16) & 0xff == v / 0x1_0000 % 0x100) by (bit_vector);
    assert((v >> 8) & 0xff == v / 0x100 % 0x100) by (bit_vector);
    assert(v & 0xff == v % 0x100) by (bit_vector);
    assert(r@ =~= u64_be_bytes(v));
    r
}

/// The lower-case hexadecimal digit for a value below sixteen.
pub open spec fn hex_digit(n: int) -> char {
    if n < 10 {
        ('0' as u8 + n) as char
    } else {
        ('a' as u8 + n - 10) as char
    }
}

/// The lower-case hexadecimal text of `data`: two digits for each byte, the
/// high half first.
pub open spec fn hex_chars(data: Seq<u8>) -> Seq<char> {
    Seq::new(
        2 * data.len(),
        |i: int|
            if i % 2 == 0 {
                hex_digit(data[i / 2] as int / 16)
            } else {
                hex_digit(data[i / 2] as int % 16)
            },
    )
}

/// Calls `hex::encode` of the hex crate. It maps each byte to two characters
/// taken from the table `0123456789abcdef`, the high four bits first, and
/// collects them into a string; the contract states exactly that text. The
/// input is kept short enough for the text to fit in one allocation, beyond
/// which a string cannot grow.
#[verifier::external_body]
pub(crate) fn hex_encode(data: &Vec<u8>) -> (text: String)
    requires
        2 * data@.len() <= isize::MAX,
    ensures
        text@ == hex_chars(data@),
{
    hex::encode(data)
}

/// `std::io::Error`, with which borsh reports a failure. Nothing is said of
/// what it holds.
#[verifier::external_type_specification]
#[verifier::external_body]
pub struct ExIoError(std::io::Error);

/// Calls `AnchorSerialize::serialize` of anchor-lang, which is borsh's
/// `BorshSerialize::serialize`, on a `u32` with the buffer as the writer. It
/// hands the value's four little-endian bytes to the writer, and a vector as
/// the writer appends what it is handed and does not fail.
#[verifier::external_body]
pub(crate) fn borsh_u32(value: u32, out: &mut Vec<u8>) -> (r: Result<(), std::io::Error>)
    ensures
        r is Ok,
        final(out)@ == old(out)@ + u32_le_bytes(value),
{
    anchor_lang::AnchorSerialize::serialize(&value, out)
}

/// Calls `AnchorSerialize::serialize` of anchor-lang, which is borsh's
/// `BorshSerialize::serialize`, on a `u64` with the buffer as the writer. It
/// hands the value's eight little-endian bytes to the writer, and a vector as
/// the writer appends what it is handed and does not fail.
#[verifier::external_body]
pub(crate) fn borsh_u64(value: u64, out: &mut Vec<u8>) -> (r: Result<(), std::io::Error>)
    ensures
        r is Ok,
        final(out)@ == old(out)@ + u64_le_bytes(value),
{
    anchor_lang::AnchorSerialize::serialize(&value, out)
}

/// A field as it stands on the wire: its length in four little-endian bytes,
/// then its bytes.
pub open spec fn length_prefixed(bytes: Seq<u8>) -> Seq<u8> {
    u32_le_bytes(bytes.len() as u32) + bytes
}

/// The bytes of a text whose characters are all ASCII.
pub open spec fn ascii_bytes(text: Seq<char>) -> Seq<u8> {
    Seq::new(text.len(), |i: int| text[i] as u8)
}

/// Calls `AnchorSerialize::serialize` of anchor-lang, which is borsh's
/// `BorshSerialize::serialize`, on a `String` with the buffer as the writer.
/// It writes the length of the text's UTF-8 bytes as a little-endian `u32`
/// and then those bytes, and fails before it writes anything when the length
/// does not fit in 32 bits.
#[verifier::external_body]
pub(crate) fn borsh_string(value: &String, out: &mut Vec<u8>) -> (r: Result<(), std::io::Error>)
    ensures
        r is Ok <==> vstd::utf8::encode_utf8(value@).len() <= u32::MAX,
        r is Ok ==> final(out)@ == old(out)@ + length_prefixed(vstd::utf8::encode_utf8(value@)),
        r is Err ==> final(out)@ == old(out)@,
{
    anchor_lang::AnchorSerialize::serialize(value, out)
}

/// Calls `AnchorSerialize::serialize` of anchor-lang, which is borsh's
/// `BorshSerialize::serialize`, on a `Vec<u8>` with the buffer as the writer.
/// It writes the number of bytes as a little-endian `u32` and then the
/// bytes, and fails before it writes anything when the number does not fit
/// in 32 bits.
#[verifier::external_body]
pub(crate) fn borsh_bytes(value: &Vec<u8>, out: &mut Vec<u8>) -> (r: Result<(), std::io::Error>)
    ensures
        r is Ok <==> value@.len() <= u32::MAX,
        r is Ok ==> final(out)@ == old(out)@ + length_prefixed(value@),
        r is Err ==> final(out)@ == old(out)@,
{
    anchor_lang::AnchorSerialize::serialize(value, out)
}

} // verus!
