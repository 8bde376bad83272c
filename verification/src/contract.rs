//! The contract core: each operation is a pure function of the facts the
//! host supplies at call time (caller identity, owner identity, persisted
//! state, current balance) to its result and intended effects. The host
//! commits the effects of a call atomically: either all of them apply, or,
//! on any failure, none do.

use vstd::prelude::*;
use crate::account::AccountAddress;
use crate::account::Address;
use crate::amount::Amount;
use crate::state::InsertError;
use crate::state::PiggyBankState;
use crate::state::SmashError;

verus! {

/// The outbound transfer instruction a successful smash hands to the host:
/// pay `amount` to the account `to`.
#[derive(Clone, Copy, PartialEq, Eq, Debug)]
pub struct TransferRequest {
    pub to: AccountAddress,
    pub amount: Amount,
}

/// Initialization: always succeeds and yields an intact piggy bank. The
/// host guarantees the fresh instance's balance is zero.
pub fn init() -> (s: PiggyBankState)
    ensures
        s is Intact,
{
    PiggyBankState::Intact
}

/// The deposit decision. Any caller and any amount (including zero) is
/// accepted while the bank is intact; a deposit into a smashed bank is
/// rejected with the undifferentiated failure, which makes the host revert
/// the deposit. The amount itself plays no part in the decision.
pub fn piggy_insert(state: &PiggyBankState, _amount: Amount) -> (r: Result<(), InsertError>)
    ensures
        r is Ok <==> *state is Intact,
{
    match state {
        PiggyBankState::Intact => Ok(()),
        PiggyBankState::Smashed => Err(InsertError),
    }
}

/// What the smash decision yields for given host-supplied facts: the checks
/// in their fixed order (owner first, then state), and on success the
/// intended new state together with the transfer of the whole balance to
/// the owner.
pub open spec fn spec_smash_step(
    sender: Address,
    owner: AccountAddress,
    state: PiggyBankState,
    balance: Amount,
) -> Result<(PiggyBankState, TransferRequest), SmashError> {
    if !sender.spec_matches_account(owner) {
        Err(SmashError::NotOwner)
    } else if state is Smashed {
        Err(SmashError::AlreadySmashed)
    } else {
        Ok((PiggyBankState::Smashed, TransferRequest { to: owner, amount: balance }))
    }
}

/// The smash decision. Only the owner may smash, and only an intact bank;
/// the checks are ordered so that an authorization failure is reported
/// before a state failure. On success the intended effects are returned as
/// plain values: the terminal state and the transfer of the entire current
/// balance to the owner. The host applies them, together with the outcome
/// of the requested transfer, as one atomic unit.
pub fn piggy_smash(
    sender: &Address,
    owner: &AccountAddress,
    state: &PiggyBankState,
    balance: Amount,
) -> (r: Result<(PiggyBankState, TransferRequest), SmashError>)
    ensures
        r == spec_smash_step(*sender, *owner, *state, balance),
        r is Ok <==> (sender.spec_matches_account(*owner) && *state is Intact),
        (r == Err::<(PiggyBankState, TransferRequest), SmashError>(SmashError::NotOwner)
            <==> !sender.spec_matches_account(*owner)),
        (r == Err::<(PiggyBankState, TransferRequest), SmashError>(SmashError::AlreadySmashed)
            <==> (sender.spec_matches_account(*owner) && *state is Smashed)),
        r matches Ok(effects) ==> (effects
            == (PiggyBankState::Smashed, TransferRequest { to: *owner, amount: balance })),
{
    if !sender.matches_account(owner) {
        return Err(SmashError::NotOwner);
    }
    match state {
        PiggyBankState::Smashed => Err(SmashError::AlreadySmashed),
        PiggyBankState::Intact => Ok((
            PiggyBankState::Smashed,
            TransferRequest { to: *owner, amount: balance },
        )),
    }
}

/// The read-only view: callable by anyone, never fails, never mutates, and
/// reports exactly the balance and state the host observes at the start of
/// the call, as a fixed-order pair.
pub fn piggy_view(state: &PiggyBankState, balance: Amount) -> (r: (Amount, PiggyBankState))
    ensures
        r.0 == balance,
        r.1 == *state,
{
    (balance, *state)
}

} // verus!
