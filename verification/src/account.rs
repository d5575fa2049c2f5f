//! What a handler is shown of an account.

use crate::address::Address;
use vstd::prelude::*;

verus! {

/// One account of an invocation, as the host presents it: a snapshot taken before the
/// instruction runs.
#[derive(Clone, Debug, PartialEq, Eq)]
pub struct AccountInfo {
    /// The address of the account.
    pub key: Address,
    /// Whether the account signed the invocation.
    pub is_signer: bool,
    /// The native currency that the account holds.
    pub lamports: u64,
    /// The bytes stored in the account.
    pub data: Vec<u8>,
    /// The program that owns the account.
    pub owner: Address,
}

/// The mathematical value of an [`AccountInfo`].
pub struct AccountInfoView {
    pub key: Address,
    pub is_signer: bool,
    pub lamports: u64,
    pub data: Seq<u8>,
    pub owner: Address,
}

impl View for AccountInfo {
    type V = AccountInfoView;

    open spec fn view(&self) -> AccountInfoView {
        AccountInfoView {
            key: self.key,
            is_signer: self.is_signer,
            lamports: self.lamports,
            data: self.data@,
            owner: self.owner,
        }
    }
}

/// The values of a list of accounts, in order.
pub open spec fn account_views(accounts: Seq<AccountInfo>) -> Seq<AccountInfoView> {
    accounts.map_values(|a: AccountInfo| a@)
}

} // verus!
