//! A model of one deployed piggy bank together with the host-tracked facts
//! its operations read: the owner recorded at initialization, the persisted
//! state, the contract's current balance, and the outbound transfers the
//! host has committed. Each method applies one call as the host does:
//! atomically, so that either all of a call's effects apply or none do.

use vstd::prelude::*;
use crate::account::AccountAddress;
use crate::account::Address;
use crate::amount::Amount;
use crate::contract;
use crate::model;
use crate::model::PiggyOp;
use crate::state::InsertError;
use crate::state::PiggyBankState;
use crate::state::SmashError;
use crate::contract::TransferRequest;

verus! {

/// One deployed piggy bank and the host-owned facts around it.
pub struct PiggyBank {
    /// The account that initialized the contract; immutable thereafter.
    pub owner: AccountAddress,
    /// The persisted lifecycle state.
    pub state: PiggyBankState,
    /// The contract's current holdings, tracked by the host ledger.
    pub balance: Amount,
    /// Every outbound transfer the host has committed, in order.
    pub transfers: Vec<TransferRequest>,
}

impl PiggyBank {
    /// Deploy a fresh piggy bank: intact, empty, with no transfers made.
    pub fn init(owner: AccountAddress) -> (bank: PiggyBank)
        ensures
            bank.owner == owner,
            bank.state is Intact,
            bank.balance.micro_ccd == 0,
            bank.transfers@ =~= Seq::<TransferRequest>::empty(),
    {
        PiggyBank { owner, state: contract::init(), balance: Amount::zero(), transfers: Vec::new() }
    }

    /// One deposit call. While the bank is intact the call succeeds and the
    /// balance grows by exactly the transferred amount; against a smashed
    /// bank the call fails and the host reverts the deposit, so nothing
    /// changes. The caller is never checked: anyone may deposit.
    pub fn insert(&mut self, amount: Amount) -> (r: Result<(), InsertError>)
        requires
            old(self).balance.micro_ccd + amount.micro_ccd <= u64::MAX,
        ensures
            r is Ok <==> old(self).state is Intact,
            final(self).owner == old(self).owner,
            final(self).state == old(self).state,
            final(self).transfers == old(self).transfers,
            final(self).balance.micro_ccd == model::op_balance(
                old(self).owner,
                old(self).state,
                old(self).balance.micro_ccd as nat,
                (PiggyOp::Insert { micro_ccd: amount.micro_ccd }),
            ),
            r is Ok ==> final(self).balance.micro_ccd
                == old(self).balance.micro_ccd + amount.micro_ccd,
            r is Err ==> *final(self) == *old(self),
    {
        match contract::piggy_insert(&self.state, amount) {
            Ok(()) => {
                self.balance = Amount { micro_ccd: self.balance.micro_ccd + amount.micro_ccd };
                Ok(())
            },
            Err(e) => Err(e),
        }
    }

    /// One smash call. The result is exactly what the ordered checks and
    /// the host's transfer report dictate; the call commits its effects
    /// (terminal state, emptied balance, the transfer of the whole old
    /// balance to the owner) only when it succeeds, and on any failure,
    /// the host's rollback included, leaves the bank exactly as it was.
    pub fn smash(&mut self, sender: &Address, transfer_accepted: bool) -> (r: Result<
        (),
        SmashError,
    >)
        ensures
            r == model::spec_smash_result(
                old(self).owner,
                old(self).state,
                *sender,
                transfer_accepted,
            ),
            final(self).owner == old(self).owner,
            final(self).state == model::op_state(
                old(self).owner,
                old(self).state,
                (PiggyOp::Smash { sender: *sender, transfer_accepted }),
            ),
            final(self).balance.micro_ccd == model::op_balance(
                old(self).owner,
                old(self).state,
                old(self).balance.micro_ccd as nat,
                (PiggyOp::Smash { sender: *sender, transfer_accepted }),
            ),
            r is Ok ==> final(self).transfers@ =~= old(self).transfers@.push(
                (TransferRequest { to: old(self).owner, amount: old(self).balance }),
            ),
            r is Err ==> *final(self) == *old(self),
    {
        match contract::piggy_smash(sender, &self.owner, &self.state, self.balance) {
            Err(e) => Err(e),
            Ok((new_state, request)) => {
                if transfer_accepted {
                    self.state = new_state;
                    self.balance = Amount::zero();
                    self.transfers.push(request);
                    Ok(())
                } else {
                    // The host reported the requested transfer as failed:
                    // the whole call fails and nothing is committed.
                    Err(SmashError::TransferError)
                }
            },
        }
    }

    /// One view call: never fails, changes nothing, and reports exactly the
    /// balance and state at the start of the call.
    pub fn view(&self) -> (r: (Amount, PiggyBankState))
        ensures
            r.0 == self.balance,
            r.1 == self.state,
    {
        contract::piggy_view(&self.state, self.balance)
    }
}

} // verus!
