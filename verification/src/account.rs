use vstd::prelude::*;
use vstd::slice::slice_to_vec;
use crate::pubkey::Pubkey;

verus! {

/// An account as the processor sees it while an instruction runs: a slot of
/// storage with a balance, and how the bundle refers to it.
#[derive(Debug, PartialEq, Eq)]
pub struct Account {
    /// The account's address.
    pub key: Pubkey,
    /// The program that may change the account.
    pub owner: Pubkey,
    /// Whether the account co-signed the bundle.
    pub is_signer: bool,
    /// Whether the bundle asked to write to the account.
    pub is_writable: bool,
    /// The account's balance.
    pub lamports: u64,
    /// What the account stores.
    pub data: Vec<u8>,
}

/// What an [`Account`] is, as a mathematical value.
pub struct AccountView {
    pub key: Seq<u8>,
    pub owner: Seq<u8>,
    pub is_signer: bool,
    pub is_writable: bool,
    pub lamports: u64,
    pub data: Seq<u8>,
}

impl View for Account {
    type V = AccountView;

    open spec fn view(&self) -> AccountView {
        AccountView {
            key: self.key@,
            owner: self.owner@,
            is_signer: self.is_signer,
            is_writable: self.is_writable,
            lamports: self.lamports,
            data: self.data@,
        }
    }
}

/// The accounts of a list, each as a mathematical value.
pub open spec fn views(accounts: Seq<Account>) -> Seq<AccountView> {
    accounts.map_values(|a: Account| a@)
}

/// Storage of `len` bytes, each of them zero.
pub open spec fn zeros(len: nat) -> Seq<u8> {
    Seq::new(len, |i: int| 0u8)
}

/// Whether nothing is left of the account: its balance is zero and so is
/// every byte it stores.
pub open spec fn drained(account: AccountView) -> bool {
    &&& account.lamports == 0
    &&& account.data == zeros(account.data.len())
}

/// What a reader finds under the account's address: the stored bytes while
/// the account holds a balance, and no bytes once it holds none, since the
/// ledger keeps storage allocated only for an account with a balance.
pub open spec fn readable(account: AccountView) -> Seq<u8> {
    if account.lamports == 0 {
        Seq::empty()
    } else {
        account.data
    }
}

/// The account with other bytes in its storage.
pub open spec fn with_data(account: AccountView, data: Seq<u8>) -> AccountView {
    AccountView { data, ..account }
}

/// The account with another balance.
pub open spec fn with_lamports(account: AccountView, lamports: u64) -> AccountView {
    AccountView { lamports, ..account }
}

impl Account {
    /// An account with the given address, owner, flags, balance and storage.
    pub fn new(
        key: Pubkey,
        owner: Pubkey,
        is_signer: bool,
        is_writable: bool,
        lamports: u64,
        data: Vec<u8>,
    ) -> (res: Account)
        ensures
            res@ == (AccountView {
                key: key@,
                owner: owner@,
                is_signer,
                is_writable,
                lamports,
                data: data@,
            }),
    {
        Account { key, owner, is_signer, is_writable, lamports, data }
    }

    /// What a reader finds under the account's address: the stored bytes,
    /// or no bytes once the account holds no balance.
    pub fn readable(&self) -> (res: Vec<u8>)
        ensures
            res@ == readable(self@),
    {
        if self.lamports == 0 {
            Vec::new()
        } else {
            slice_to_vec(self.data.as_slice())
        }
    }
}

} // verus!
