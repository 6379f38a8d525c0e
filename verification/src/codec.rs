//! The compact little-endian encoding that contracts and the engine agree on.
//!
//! The spec functions here say what the encoding is; the executable functions
//! hand the work to `parity_scale_codec` and are trusted to match them.

use vstd::prelude::*;

verus! {

/// The `width` low bytes of `value`, least significant first.
pub open spec fn le_bytes(value: nat, width: nat) -> Seq<u8>
    decreases width,
{
    if width == 0 {
        Seq::<u8>::empty()
    } else {
        seq![(value % 256) as u8] + le_bytes(value / 256, (width - 1) as nat)
    }
}

/// The number that `bytes` spell, least significant byte first.
pub open spec fn le_value(bytes: Seq<u8>) -> nat
    decreases bytes.len(),
{
    if bytes.len() == 0 {
        0
    } else {
        bytes[0] as nat + 256 * le_value(bytes.drop_first())
    }
}

/// 256 to the power `width`.
pub open spec fn radix_pow(width: nat) -> nat
    decreases width,
{
    if width == 0 {
        1
    } else {
        256 * radix_pow((width - 1) as nat)
    }
}

/// The compact encoding of a length or count below 2^32.
pub open spec fn compact_u32(value: nat) -> Seq<u8> {
    if value < 64 {
        le_bytes(value * 4, 1)
    } else if value < 16384 {
        le_bytes(value * 4 + 1, 2)
    } else if value < 1073741824 {
        le_bytes(value * 4 + 2, 4)
    } else {
        seq![3u8] + le_bytes(value, 4)
    }
}

/// A byte string as it is encoded: its compact length, then its bytes.
pub open spec fn encoded_bytes(bytes: Seq<u8>) -> Seq<u8> {
    compact_u32(bytes.len()) + bytes
}

/// The amount that an encoded balance stands for: the first sixteen bytes,
/// read least significant first. Shorter input has no meaning.
pub open spec fn decoded_balance(input: Seq<u8>) -> Option<u128> {
    if input.len() >= 16 {
        Some(le_value(input.subrange(0, 16)) as u128)
    } else {
        None
    }
}

/// `le_bytes` has the width asked for.
pub proof fn lemma_le_bytes_len(value: nat, width: nat)
    ensures
        le_bytes(value, width).len() == width,
    decreases width,
{
    if width > 0 {
        lemma_le_bytes_len(value / 256, (width - 1) as nat);
    }
}

/// Reading back what `le_bytes` wrote gives the value, if the width holds it.
pub proof fn lemma_le_round_trip(value: nat, width: nat)
    requires
        value < radix_pow(width),
    ensures
        le_value(le_bytes(value, width)) == value,
    decreases width,
{
    if width > 0 {
        let rest = le_bytes(value / 256, (width - 1) as nat);
        let all = le_bytes(value, width);
        assert(value / 256 < radix_pow((width - 1) as nat)) by (nonlinear_arith)
            requires
                value < 256 * radix_pow((width - 1) as nat),
        ;
        lemma_le_round_trip(value / 256, (width - 1) as nat);
        assert(all.drop_first() =~= rest);
        assert(all[0] == (value % 256) as u8);
        assert(value == value % 256 + 256 * (value / 256)) by (nonlinear_arith);
    } else {
        assert(le_bytes(value, width).len() == 0);
    }
}

/// Sixteen bytes hold every `u128`.
pub proof fn lemma_radix_pow_16()
    ensures
        radix_pow(16) == 0x1_0000_0000_0000_0000_0000_0000_0000_0000,
{
    reveal_with_fuel(radix_pow, 17);
}

/// An encoded balance decodes to itself, whatever follows it.
pub proof fn lemma_balance_round_trip(value: u128, tail: Seq<u8>)
    ensures
        decoded_balance(le_bytes(value as nat, 16) + tail) == Some(value),
{
    let head = le_bytes(value as nat, 16);
    lemma_le_bytes_len(value as nat, 16);
    lemma_radix_pow_16();
    lemma_le_round_trip(value as nat, 16);
    assert((head + tail).subrange(0, 16) =~= head);
}

/// `<u128 as parity_scale_codec::Decode>::decode` on a byte slice. It reads
/// sixteen bytes as a little-endian number and fails only when fewer are
/// there; bytes that follow are ignored. The codec's error carries no more
/// than that and is dropped.
#[verifier::external_body]
pub(crate) fn decode_u128(input: &[u8]) -> (decoded: Option<u128>)
    ensures
        decoded == decoded_balance(input@),
{
    let mut rest = input;
    <u128 as parity_scale_codec::Decode>::decode(&mut rest).ok()
}

/// `<Compact<u32> as parity_scale_codec::Decode>::decode` on a slice of one
/// byte. A byte whose two low bits are clear holds the count in its upper six
/// bits; any other byte asks for bytes that are not there and fails.
#[verifier::external_body]
pub(crate) fn decode_compact_byte(input: &[u8]) -> (decoded: Option<u32>)
    requires
        input@.len() == 1,
    ensures
        decoded is Some <==> input@[0] % 4 == 0,
        decoded matches Some(count) ==> count == input@[0] / 4,
{
    let mut rest = input;
    match <parity_scale_codec::Compact<u32> as parity_scale_codec::Decode>::decode(&mut rest) {
        Ok(count) => Some(count.0),
        Err(_) => None,
    }
}

/// `parity_scale_codec::Encode::encode` on a `u128`: its sixteen bytes,
/// least significant first.
#[verifier::external_body]
pub(crate) fn encode_u128(value: u128) -> (encoded: Vec<u8>)
    ensures
        encoded@ == le_bytes(value as nat, 16),
{
    parity_scale_codec::Encode::encode(&value)
}

/// `parity_scale_codec::Encode::encode` on a `u64`: its eight bytes, least
/// significant first.
#[verifier::external_body]
pub(crate) fn encode_u64(value: u64) -> (encoded: Vec<u8>)
    ensures
        encoded@ == le_bytes(value as nat, 8),
{
    parity_scale_codec::Encode::encode(&value)
}

/// `parity_scale_codec::Encode::encode` on a `u32`: its four bytes, least
/// significant first.
#[verifier::external_body]
pub(crate) fn encode_u32(value: u32) -> (encoded: Vec<u8>)
    ensures
        encoded@ == le_bytes(value as nat, 4),
{
    parity_scale_codec::Encode::encode(&value)
}

/// `parity_scale_codec::Encode::encode` on a byte slice: the compact length,
/// then the bytes. The codec refuses a length above `u32::MAX`.
#[verifier::external_body]
pub(crate) fn encode_bytes(input: &[u8]) -> (encoded: Vec<u8>)
    requires
        input@.len() <= u32::MAX,
    ensures
        encoded@ == encoded_bytes(input@),
{
    parity_scale_codec::Encode::encode(input)
}

/// `parity_scale_codec::Encode::encode` on a pair of a `u32` and a byte
/// vector: the encoding of the first, then that of the second.
#[verifier::external_body]
pub(crate) fn encode_status_and_bytes(status: u32, payload: Vec<u8>) -> (encoded: Vec<u8>)
    requires
        payload@.len() <= u32::MAX,
    ensures
        encoded@ == le_bytes(status as nat, 4) + encoded_bytes(payload@),
{
    parity_scale_codec::Encode::encode(&(status, payload))
}

/// `parity_scale_codec::Encode::encode` on a pair of a `u128` and a byte
/// vector: the encoding of the first, then that of the second.
#[verifier::external_body]
pub(crate) fn encode_balance_and_bytes(amount: u128, account: Vec<u8>) -> (encoded: Vec<u8>)
    requires
        account@.len() <= u32::MAX,
    ensures
        encoded@ == le_bytes(amount as nat, 16) + encoded_bytes(account@),
{
    parity_scale_codec::Encode::encode(&(amount, account))
}

} // verus!
