//! Recovery of the public key that signed a message.

use vstd::prelude::*;
use crate::error::Error;

verus! {

/// The compressed public key that `secp256k1` recovers from the 64 bytes of
/// a compact signature, a recovery id from 0 to 3 and a message hash of 32
/// bytes, or nothing where it recovers none.
pub uninterp spec fn recovered_key(signature: Seq<u8>, recovery_id: int, message_hash: Seq<u8>)
    -> Option<Seq<u8>>;

/// Whether `key` has the form of a compressed public key: 33 bytes, of which
/// the first is 2 or 3.
pub open spec fn is_compressed_key(key: Seq<u8>) -> bool {
    key.len() == 33 && (key[0] == 2 || key[0] == 3)
}

/// The recovery id that the last byte of a signature stands for. Some
/// signers count from 27; both conventions give the same id.
pub open spec fn folded_recovery_byte(byte: u8) -> int {
    if byte > 26 {
        byte - 27
    } else {
        byte as int
    }
}

/// What recovery from a signature of 65 bytes yields: nothing where the last
/// byte stands for no recovery id, and else what `secp256k1` recovers.
pub open spec fn recovery_of(signature: Seq<u8>, message_hash: Seq<u8>) -> Option<Seq<u8>>
    recommends
        signature.len() == 65,
{
    if folded_recovery_byte(signature[64]) > 3 {
        None
    } else {
        recovered_key(
            signature.subrange(0, 64),
            folded_recovery_byte(signature[64]),
            message_hash,
        )
    }
}

/// `RecoveryId::from_i32`, `Message::from_slice`,
/// `RecoverableSignature::from_compact`, `Secp256k1::recover_ecdsa` and
/// `PublicKey::serialize` of `secp256k1`, one after the other: the key that
/// the signature's first 64 bytes and the recovery id recover for the message
/// hash, in its compressed form of 33 bytes, or nothing where the signature
/// does not parse or recovers no key. The outcome depends on these three
/// alone. With an id from 0 to 3 and a hash of 32 bytes the first two steps
/// cannot fail. A key in compressed form starts with the byte 2 or 3, which
/// says whether its second coordinate is even or odd.
#[verifier::external_body]
pub(crate) fn recover_compressed(
    signature: &[u8; 65],
    recovery_id: u8,
    message_hash: &[u8; 32],
) -> (key: Option<[u8; 33]>)
    requires
        recovery_id <= 3,
    ensures
        key is Some <==> recovered_key(
            signature@.subrange(0, 64),
            recovery_id as int,
            message_hash@,
        ) is Some,
        key matches Some(bytes) ==> recovered_key(
            signature@.subrange(0, 64),
            recovery_id as int,
            message_hash@,
        ) == Some(bytes@),
        key matches Some(bytes) ==> is_compressed_key(bytes@),
{
    let id = secp256k1::ecdsa::RecoveryId::from_i32(recovery_id as i32).ok()?;
    let message = secp256k1::Message::from_slice(message_hash).ok()?;
    let parsed = secp256k1::ecdsa::RecoverableSignature::from_compact(&signature[0..64], id).ok()?;
    let key = secp256k1::SECP256K1.recover_ecdsa(&message, &parsed).ok()?;
    Some(key.serialize())
}

/// Hands a recovered key to the caller: it is written to `output`; where
/// there is none, recovery has failed and `output` stays as it was.
pub fn deliver_recovered_key(key: Option<[u8; 33]>, output: &mut [u8; 33]) -> (outcome: Result<
    (),
    Error,
>)
    ensures
        match key {
            Some(bytes) => outcome == Ok::<(), Error>(()) && *final(output) == bytes,
            None => outcome == Err::<(), Error>(Error::EcdsaRecoveryFailed) && *final(output)
                == *old(output),
        },
{
    match key {
        Some(bytes) => {
            *output = bytes;
            Ok(())
        },
        None => Err(Error::EcdsaRecoveryFailed),
    }
}

} // verus!
