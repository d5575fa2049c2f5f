//! The value that the exchange's actions move, and a model of the balances they move it
//! between.
//!
//! The host keeps the balances; the handlers only ask for transfers.  [`Balances`] states
//! what such a request means: native currency and tokens each have one balance per address,
//! a transfer takes from one and adds to another, and it is refused where the source holds
//! too little.  Whether the signatures are there, and whether the authority may move the
//! tokens, is for the host and the token program to check and has no part in the model.
//! The laws of the exchange are stated over this model.

use crate::action::{Action, ActionView};
use crate::address::{system_program_id, token_program_id, Address};
use vstd::bytes::spec_u64_from_le_bytes;
use vstd::prelude::*;

verus! {

/// A movement of value from one account to another.
#[derive(Clone, Copy, Debug, PartialEq, Eq)]
pub enum Transfer {
    /// `lamports` of native currency.
    Native { from: Address, to: Address, lamports: u64 },
    /// `amount` tokens between two token accounts, on the word of `authority`.
    Token { source: Address, destination: Address, authority: Address, amount: u64 },
}

impl ActionView {
    /// The transfer that the action asks for, if it asks for one: a direct movement of
    /// lamports, the system program's transfer, or the token program's transfer by a single
    /// authority.
    pub open spec fn spec_transfer(self) -> Option<Transfer> {
        match self {
            ActionView::MoveLamports { from, to, lamports } => Some(
                Transfer::Native { from, to, lamports },
            ),
            ActionView::Invoke { instruction, accounts } => {
                if instruction.program_id == system_program_id() && instruction.accounts.len() == 2
                    && instruction.data.len() == 12 && instruction.data[0] == 2
                    && instruction.data[1] == 0 && instruction.data[2] == 0 && instruction.data[3]
                    == 0 {
                    Some(
                        Transfer::Native {
                            from: instruction.accounts[0].pubkey,
                            to: instruction.accounts[1].pubkey,
                            lamports: spec_u64_from_le_bytes(instruction.data.subrange(4, 12)),
                        },
                    )
                } else if instruction.program_id == token_program_id() && instruction.accounts.len()
                    == 3 && instruction.data.len() == 9 && instruction.data[0] == 3 {
                    Some(
                        Transfer::Token {
                            source: instruction.accounts[0].pubkey,
                            destination: instruction.accounts[1].pubkey,
                            authority: instruction.accounts[2].pubkey,
                            amount: spec_u64_from_le_bytes(instruction.data.subrange(1, 9)),
                        },
                    )
                } else {
                    None
                }
            },
            _ => None,
        }
    }
}

impl Action {
    /// The transfer that the action asks for, if it asks for one.
    pub fn transfer(&self) -> (r: Option<Transfer>)
        ensures
            r == self@.spec_transfer(),
    {
        match self {
            Action::MoveLamports { from, to, lamports } => Some(
                Transfer::Native { from: *from, to: *to, lamports: *lamports },
            ),
            Action::Invoke { instruction, accounts: _ } => {
                let data = instruction.data.as_slice();
                if instruction.program_id == system_program_id() && instruction.accounts.len() == 2
                    && data.len() == 12 && data[0] == 2 && data[1] == 0 && data[2] == 0 && data[3]
                    == 0 {
                    Some(
                        Transfer::Native {
                            from: instruction.accounts[0].pubkey,
                            to: instruction.accounts[1].pubkey,
                            lamports: vstd::bytes::u64_from_le_bytes(
                                vstd::slice::slice_subrange(data, 4, 12),
                            ),
                        },
                    )
                } else if instruction.program_id == token_program_id() && instruction.accounts.len()
                    == 3 && data.len() == 9 && data[0] == 3 {
                    Some(
                        Transfer::Token {
                            source: instruction.accounts[0].pubkey,
                            destination: instruction.accounts[1].pubkey,
                            authority: instruction.accounts[2].pubkey,
                            amount: vstd::bytes::u64_from_le_bytes(
                                vstd::slice::slice_subrange(data, 1, 9),
                            ),
                        },
                    )
                } else {
                    None
                }
            },
            _ => None,
        }
    }
}

/// The balance that `balances` records for `account`: zero where it records none.
pub open spec fn balance(balances: Map<Address, nat>, account: Address) -> nat {
    if balances.dom().contains(account) {
        balances[account]
    } else {
        0
    }
}

/// The balances after `amount` has gone from `from` to `to`.
pub open spec fn moved(balances: Map<Address, nat>, from: Address, to: Address, amount: nat) -> Map<
    Address,
    nat,
> {
    let taken = balances.insert(from, (balance(balances, from) - amount) as nat);
    taken.insert(to, balance(taken, to) + amount)
}

/// What every account holds: native currency, and tokens in the token accounts.
pub struct Balances {
    pub native: Map<Address, nat>,
    pub token: Map<Address, nat>,
}

impl Balances {
    /// The native currency that `account` holds.
    pub open spec fn native_of(self, account: Address) -> nat {
        balance(self.native, account)
    }

    /// The tokens that the token account `account` holds.
    pub open spec fn token_of(self, account: Address) -> nat {
        balance(self.token, account)
    }

    /// The balances after the transfer, or `None` where the source holds too little and the
    /// transfer is refused.
    pub open spec fn spec_apply(self, transfer: Transfer) -> Option<Balances> {
        match transfer {
            Transfer::Native { from, to, lamports } => if self.native_of(from) < lamports {
                None
            } else {
                Some(
                    Balances {
                        native: moved(self.native, from, to, lamports as nat),
                        token: self.token,
                    },
                )
            },
            Transfer::Token { source, destination, authority, amount } => if self.token_of(source)
                < amount {
                None
            } else {
                Some(
                    Balances {
                        native: self.native,
                        token: moved(self.token, source, destination, amount as nat),
                    },
                )
            },
        }
    }

    /// The balances after every action of a list of transfers has been carried out in order.
    /// There are none where a transfer is refused or the list holds a failure: then the
    /// whole list has no effect.  The model covers transfers only, and has no answer either
    /// for a list that asks for an allocation or for a record to be stored.
    pub open spec fn spec_settle(self, actions: Seq<ActionView>) -> Option<Balances>
        decreases actions.len(),
    {
        if actions.len() == 0 {
            Some(self)
        } else {
            match actions[0].spec_transfer() {
                None => None,
                Some(transfer) => match self.spec_apply(transfer) {
                    None => None,
                    Some(next) => next.spec_settle(actions.drop_first()),
                },
            }
        }
    }
}

} // verus!
