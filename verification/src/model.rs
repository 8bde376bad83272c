//! A mathematical model of a deployed piggy bank under any sequence of
//! calls: how each call moves the persisted state and the host-tracked
//! balance, and the laws that hold of every such sequence.

use vstd::prelude::*;
use crate::account::AccountAddress;
use crate::account::Address;
use crate::state::PiggyBankState;
use crate::state::SmashError;

verus! {

/// One call made against a deployed piggy bank: a deposit of some amount,
/// or a smash attempt by some sender whose requested transfer the host
/// either accepted or reported as failed.
#[derive(Clone, Copy, PartialEq, Eq, Debug)]
pub enum PiggyOp {
    Insert { micro_ccd: u64 },
    Smash { sender: Address, transfer_accepted: bool },
}

/// Whether a smash attempt commits: the sender is the owner, the bank is
/// intact, and the host accepted the requested transfer.
pub open spec fn smash_commits(
    owner: AccountAddress,
    state: PiggyBankState,
    sender: Address,
    transfer_accepted: bool,
) -> bool {
    sender.spec_matches_account(owner) && state is Intact && transfer_accepted
}

/// The outcome a smash attempt reports, with the checks in their fixed
/// order: authorization first, then state, then the host's transfer report.
pub open spec fn spec_smash_result(
    owner: AccountAddress,
    state: PiggyBankState,
    sender: Address,
    transfer_accepted: bool,
) -> Result<(), SmashError> {
    if !sender.spec_matches_account(owner) {
        Err(SmashError::NotOwner)
    } else if state is Smashed {
        Err(SmashError::AlreadySmashed)
    } else if !transfer_accepted {
        Err(SmashError::TransferError)
    } else {
        Ok(())
    }
}

/// The persisted state after one call. Only a committing smash moves it;
/// in particular `Smashed` is terminal.
pub open spec fn op_state(
    owner: AccountAddress,
    state: PiggyBankState,
    op: PiggyOp,
) -> PiggyBankState {
    match op {
        PiggyOp::Insert { .. } => state,
        PiggyOp::Smash { sender, transfer_accepted } => if smash_commits(
            owner,
            state,
            sender,
            transfer_accepted,
        ) {
            PiggyBankState::Smashed
        } else {
            state
        },
    }
}

/// The balance after one call: a deposit into an intact bank adds exactly
/// its amount, a committing smash empties the bank, and every rejected call
/// leaves the balance untouched.
pub open spec fn op_balance(
    owner: AccountAddress,
    state: PiggyBankState,
    balance: nat,
    op: PiggyOp,
) -> nat {
    match op {
        PiggyOp::Insert { micro_ccd } => if state is Intact {
            balance + micro_ccd as nat
        } else {
            balance
        },
        PiggyOp::Smash { sender, transfer_accepted } => if smash_commits(
            owner,
            state,
            sender,
            transfer_accepted,
        ) {
            0
        } else {
            balance
        },
    }
}

/// The state of a freshly initialized bank after the given calls, in order.
pub open spec fn run_state(owner: AccountAddress, ops: Seq<PiggyOp>) -> PiggyBankState
    decreases ops.len(),
{
    if ops.len() == 0 {
        PiggyBankState::Intact
    } else {
        op_state(owner, run_state(owner, ops.drop_last()), ops.last())
    }
}

/// The balance of a freshly initialized bank after the given calls, in
/// order. The fresh bank starts at zero.
pub open spec fn run_balance(owner: AccountAddress, ops: Seq<PiggyOp>) -> nat
    decreases ops.len(),
{
    if ops.len() == 0 {
        0
    } else {
        op_balance(
            owner,
            run_state(owner, ops.drop_last()),
            run_balance(owner, ops.drop_last()),
            ops.last(),
        )
    }
}

/// The sum of the amounts of all deposit calls in the sequence, whether or
/// not each was accepted.
pub open spec fn insert_sum(ops: Seq<PiggyOp>) -> nat
    decreases ops.len(),
{
    if ops.len() == 0 {
        0
    } else {
        insert_sum(ops.drop_last()) + match ops.last() {
            PiggyOp::Insert { micro_ccd } => micro_ccd as nat,
            PiggyOp::Smash { .. } => 0,
        }
    }
}

/// View consistency: after any sequence of calls against a freshly
/// initialized bank, the balance is exactly the sum of all successful
/// deposits minus any smash zeroing. While the bank is intact no deposit
/// has ever been rejected, so the balance is the sum of all deposited
/// amounts; once the bank is smashed it has been emptied and every later
/// call leaves it empty.
pub proof fn lemma_view_consistency(owner: AccountAddress, ops: Seq<PiggyOp>)
    ensures
        run_state(owner, ops) is Intact ==> run_balance(owner, ops) == insert_sum(ops),
        run_state(owner, ops) is Smashed ==> run_balance(owner, ops) == 0,
    decreases ops.len(),
{
    if ops.len() > 0 {
        lemma_view_consistency(owner, ops.drop_last());
    }
}

/// Idempotent terminality: smashing twice as the owner, starting from an
/// intact bank whose transfer the host accepts. The first call succeeds,
/// moves the bank to `Smashed` and empties it; the second call, whatever
/// the host would report of its transfer, fails with `AlreadySmashed` and
/// changes neither state nor balance.
pub proof fn lemma_smash_idempotent_terminality(
    owner: AccountAddress,
    sender: Address,
    balance: nat,
    second_transfer_accepted: bool,
)
    requires
        sender.spec_matches_account(owner),
    ensures
        spec_smash_result(owner, PiggyBankState::Intact, sender, true) == Ok::<(), SmashError>(()),
        op_state(
            owner,
            PiggyBankState::Intact,
            (PiggyOp::Smash { sender, transfer_accepted: true }),
        ) is Smashed,
        op_balance(
            owner,
            PiggyBankState::Intact,
            balance,
            (PiggyOp::Smash { sender, transfer_accepted: true }),
        ) == 0,
        spec_smash_result(owner, PiggyBankState::Smashed, sender, second_transfer_accepted)
            == Err::<(), SmashError>(SmashError::AlreadySmashed),
        op_state(
            owner,
            PiggyBankState::Smashed,
            (PiggyOp::Smash { sender, transfer_accepted: second_transfer_accepted }),
        ) is Smashed,
        op_balance(
            owner,
            PiggyBankState::Smashed,
            0,
            (PiggyOp::Smash { sender, transfer_accepted: second_transfer_accepted }),
        ) == 0,
{
}

} // verus!
