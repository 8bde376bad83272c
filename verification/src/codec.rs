//! The host-facing encodings: the persisted state as a single tag byte, a
//! smash rejection as a fixed, order-stable tag byte, and the view result
//! as a fixed-order pair of the balance (eight little-endian bytes) and the
//! state tag. Each encoding is deterministic and decodes back exactly.

use vstd::prelude::*;
use vstd::bytes::lemma_auto_spec_u64_to_from_le_bytes;
use vstd::bytes::spec_u64_from_le_bytes;
use vstd::bytes::spec_u64_to_le_bytes;
use vstd::bytes::u64_from_le_bytes;
use vstd::bytes::u64_to_le_bytes;
use vstd::slice::slice_index_get;
use vstd::slice::slice_subrange;
use crate::amount::Amount;
use crate::state::PiggyBankState;
use crate::state::SmashError;

verus! {

/// The single-byte encoding of the persisted state, one tag per variant.
pub open spec fn spec_state_to_bytes(state: PiggyBankState) -> Seq<u8> {
    match state {
        PiggyBankState::Intact => seq![0u8],
        PiggyBankState::Smashed => seq![1u8],
    }
}

/// What decoding a persisted state yields: a state for exactly the two
/// one-byte encodings, nothing for any other input.
pub open spec fn spec_state_from_bytes(bytes: Seq<u8>) -> Option<PiggyBankState> {
    if bytes.len() == 1 && bytes[0] == 0 {
        Some(PiggyBankState::Intact)
    } else if bytes.len() == 1 && bytes[0] == 1 {
        Some(PiggyBankState::Smashed)
    } else {
        None
    }
}

/// Encode the persisted state.
pub fn state_to_bytes(state: &PiggyBankState) -> (r: Vec<u8>)
    ensures
        r@ == spec_state_to_bytes(*state),
{
    let tag: u8 = match state {
        PiggyBankState::Intact => 0,
        PiggyBankState::Smashed => 1,
    };
    let mut bytes: Vec<u8> = Vec::new();
    bytes.push(tag);
    proof {
        assert(bytes@ =~= spec_state_to_bytes(*state));
    }
    bytes
}

/// Decode a persisted state.
pub fn state_from_bytes(bytes: &[u8]) -> (r: Option<PiggyBankState>)
    ensures
        r == spec_state_from_bytes(bytes@),
{
    if bytes.len() != 1 {
        return None;
    }
    let tag = *slice_index_get(bytes, 0);
    if tag == 0 {
        Some(PiggyBankState::Intact)
    } else if tag == 1 {
        Some(PiggyBankState::Smashed)
    } else {
        None
    }
}

/// Decoding an encoded state gives the state back.
pub proof fn lemma_state_round_trip(state: PiggyBankState)
    ensures
        spec_state_from_bytes(spec_state_to_bytes(state)) == Some(state),
{
}

/// The single-byte encoding of a smash rejection, tags in declaration
/// order.
pub open spec fn spec_error_to_bytes(error: SmashError) -> Seq<u8> {
    match error {
        SmashError::NotOwner => seq![0u8],
        SmashError::AlreadySmashed => seq![1u8],
        SmashError::TransferError => seq![2u8],
    }
}

/// What decoding a smash rejection yields: an error for exactly the three
/// one-byte encodings, nothing for any other input.
pub open spec fn spec_error_from_bytes(bytes: Seq<u8>) -> Option<SmashError> {
    if bytes.len() == 1 && bytes[0] == 0 {
        Some(SmashError::NotOwner)
    } else if bytes.len() == 1 && bytes[0] == 1 {
        Some(SmashError::AlreadySmashed)
    } else if bytes.len() == 1 && bytes[0] == 2 {
        Some(SmashError::TransferError)
    } else {
        None
    }
}

/// Encode a smash rejection.
pub fn error_to_bytes(error: &SmashError) -> (r: Vec<u8>)
    ensures
        r@ == spec_error_to_bytes(*error),
{
    let tag: u8 = match error {
        SmashError::NotOwner => 0,
        SmashError::AlreadySmashed => 1,
        SmashError::TransferError => 2,
    };
    let mut bytes: Vec<u8> = Vec::new();
    bytes.push(tag);
    proof {
        assert(bytes@ =~= spec_error_to_bytes(*error));
    }
    bytes
}

/// Decode a smash rejection.
pub fn error_from_bytes(bytes: &[u8]) -> (r: Option<SmashError>)
    ensures
        r == spec_error_from_bytes(bytes@),
{
    if bytes.len() != 1 {
        return None;
    }
    let tag = *slice_index_get(bytes, 0);
    if tag == 0 {
        Some(SmashError::NotOwner)
    } else if tag == 1 {
        Some(SmashError::AlreadySmashed)
    } else if tag == 2 {
        Some(SmashError::TransferError)
    } else {
        None
    }
}

/// Decoding an encoded smash rejection gives the rejection back.
pub proof fn lemma_error_round_trip(error: SmashError)
    ensures
        spec_error_from_bytes(spec_error_to_bytes(error)) == Some(error),
{
}

/// The nine-byte encoding of a view result: the balance as eight
/// little-endian bytes, then the state tag.
pub open spec fn spec_view_to_bytes(balance: Amount, state: PiggyBankState) -> Seq<u8> {
    spec_u64_to_le_bytes(balance.micro_ccd) + spec_state_to_bytes(state)
}

/// What decoding a view result yields: a balance and a state for exactly
/// the nine-byte encodings whose last byte is a valid state tag, nothing
/// for any other input.
pub open spec fn spec_view_from_bytes(bytes: Seq<u8>) -> Option<(Amount, PiggyBankState)> {
    if bytes.len() != 9 {
        None
    } else {
        match spec_state_from_bytes(bytes.subrange(8, 9)) {
            Some(state) => Some(
                (Amount { micro_ccd: spec_u64_from_le_bytes(bytes.subrange(0, 8)) }, state),
            ),
            None => None,
        }
    }
}

/// Encode a view result.
pub fn view_to_bytes(balance: Amount, state: &PiggyBankState) -> (r: Vec<u8>)
    ensures
        r@ == spec_view_to_bytes(balance, *state),
        r@.len() == 9,
{
    let mut bytes = u64_to_le_bytes(balance.micro_ccd);
    let mut tail = state_to_bytes(state);
    bytes.append(&mut tail);
    proof {
        assert(bytes@ =~= spec_view_to_bytes(balance, *state));
    }
    bytes
}

/// Decode a view result.
pub fn view_from_bytes(bytes: &[u8]) -> (r: Option<(Amount, PiggyBankState)>)
    ensures
        r == spec_view_from_bytes(bytes@),
{
    if bytes.len() != 9 {
        return None;
    }
    let micro_ccd = u64_from_le_bytes(slice_subrange(bytes, 0, 8));
    match state_from_bytes(slice_subrange(bytes, 8, 9)) {
        Some(state) => Some((Amount { micro_ccd }, state)),
        None => None,
    }
}

/// Decoding an encoded view result gives the balance and state back.
pub proof fn lemma_view_round_trip(balance: Amount, state: PiggyBankState)
    ensures
        spec_view_from_bytes(spec_view_to_bytes(balance, state)) == Some((balance, state)),
{
    lemma_auto_spec_u64_to_from_le_bytes();
    let bytes = spec_view_to_bytes(balance, state);
    assert(bytes.subrange(0, 8) =~= spec_u64_to_le_bytes(balance.micro_ccd));
    assert(bytes.subrange(8, 9) =~= spec_state_to_bytes(state));
    lemma_state_round_trip(state);
}

} // verus!
