//! The battle behind its wire format: a count of attacking catapults comes
//! in as one ABI word, the outcome code goes out as one.
//!
//! A word is 32 bytes that hold a 256-bit number with its most significant
//! byte first. Words are read and written by `alloy_sol_types`; what this
//! module believes of the two calls is stated on the private functions below.

use crate::battle::{phase_one, BattleConfig};
use crate::model::{battle_outcome, Config};
use crate::uint::Uint256;
use alloy_sol_types::SolValue;
use vstd::prelude::*;

verus! {

/// The number that big-endian bytes stand for.
pub open spec fn be_value(bytes: Seq<u8>) -> nat
    decreases bytes.len(),
{
    if bytes.len() == 0 {
        0
    } else {
        256 * be_value(bytes.drop_last()) + bytes.last() as nat
    }
}

/// Whether `bytes` is the ABI word of the number `value`.
pub open spec fn is_word_of(bytes: Seq<u8>, value: nat) -> bool {
    bytes.len() == 32 && be_value(bytes) == value
}

/// Why an input is not the ABI word of a count.
#[derive(Clone, Copy, Debug, PartialEq, Eq)]
pub enum InputError {
    /// The input has fewer than 32 bytes.
    TooShort,
    /// The input has more than 32 bytes.
    TooLong,
}

/// The error of `alloy_sol_types`, of which nothing is known here but that
/// it is one.
#[verifier::external_type_specification]
#[verifier::external_body]
pub struct ExAbiError(alloy_sol_types::Error);

/// `SolValue::abi_decode` of `alloy_sol_types`, for a `U256` and with
/// validation on. It reads the first 32 bytes as a big-endian number, and
/// with validation it accepts the input only where encoding that number
/// gives the input back: so it succeeds on inputs of exactly 32 bytes and on
/// no others.
#[verifier::external_body]
fn abi_decode_word(data: &[u8]) -> (decoded: Result<Uint256, alloy_sol_types::Error>)
    ensures
        decoded is Ok <==> data@.len() == 32,
        decoded matches Ok(value) ==> value@ == be_value(data@),
{
    match alloy_primitives::U256::abi_decode(data, true) {
        Ok(value) => Ok(Uint256 { limbs: value.into_limbs() }),
        Err(error) => Err(error),
    }
}

/// `SolValue::abi_encode` of `alloy_sol_types`, for a `U256`: the 32 bytes
/// that hold the number with its most significant byte first.
#[verifier::external_body]
fn abi_encode_word(value: Uint256) -> (bytes: Vec<u8>)
    ensures
        is_word_of(bytes@, value@),
{
    alloy_primitives::U256::from_limbs(value.limbs).abi_encode()
}

/// Reads the ABI word of a count of attacking catapults from `input`, plays
/// the standard battle with that many attackers, and returns the ABI word of
/// its outcome code. An input that is not one word is refused.
pub fn simulate(input: &[u8]) -> (journal: Result<Vec<u8>, InputError>)
    ensures
        input@.len() == 32 ==> (journal matches Ok(bytes) && is_word_of(
            bytes@,
            battle_outcome(be_value(input@), Config::standard()).code(),
        )),
        input@.len() < 32 ==> journal == Err::<Vec<u8>, InputError>(InputError::TooShort),
        input@.len() > 32 ==> journal == Err::<Vec<u8>, InputError>(InputError::TooLong),
{
    let config = BattleConfig::new();
    match abi_decode_word(input) {
        Ok(attacking_catapults) => {
            let code = phase_one(attacking_catapults, &config);
            Ok(abi_encode_word(code))
        },
        Err(_) => {
            if input.len() < 32 {
                Err(InputError::TooShort)
            } else {
                Err(InputError::TooLong)
            }
        },
    }
}

/// A word of a number below 256 is 31 zero bytes and the number.
pub proof fn lemma_small_word(bytes: Seq<u8>, value: nat)
    requires
        is_word_of(bytes, value),
        value < 256,
    ensures
        forall|i: int| 0 <= i < 31 ==> bytes[i] == 0,
        bytes[31] == value,
{
    lemma_zero_bytes(bytes.drop_last());
    assert forall|i: int| 0 <= i < 31 implies bytes[i] == 0 by {
        assert(bytes.drop_last()[i] == bytes[i]);
    }
}

/// Only zero bytes stand for nothing.
proof fn lemma_zero_bytes(bytes: Seq<u8>)
    requires
        be_value(bytes) == 0,
    ensures
        forall|i: int| 0 <= i < bytes.len() ==> bytes[i] == 0,
    decreases bytes.len(),
{
    if bytes.len() > 0 {
        lemma_zero_bytes(bytes.drop_last());
        assert forall|i: int| 0 <= i < bytes.len() implies bytes[i] == 0 by {
            if i < bytes.len() - 1 {
                assert(bytes.drop_last()[i] == bytes[i]);
            }
        }
    }
}

} // verus!
