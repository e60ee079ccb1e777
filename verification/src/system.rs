use vstd::prelude::*;
use crate::bundle::writable;
use crate::bundle::AccountMeta;
use crate::bundle::Step;
use crate::bundle::StepView;
use crate::pubkey::Pubkey;

verus! {

/// The eight bytes of `n`, least significant first.
pub open spec fn u64_le(n: u64) -> Seq<u8> {
    seq![
        (n % 256) as u8,
        ((n / 256) % 256) as u8,
        ((n / 65536) % 256) as u8,
        ((n / 16777216) % 256) as u8,
        ((n / 4294967296) % 256) as u8,
        ((n / 1099511627776) % 256) as u8,
        ((n / 281474976710656) % 256) as u8,
        ((n / 72057594037927936) % 256) as u8,
    ]
}

/// The bytes by which the ledger's system program is told to allocate an
/// account: four zero bytes, which number the request among those that the
/// system program takes, then the balance and the size in bytes, each in
/// eight bytes with the least significant first, then the thirty-two bytes
/// of the owner's address.
pub open spec fn create_account_data(lamports: u64, space: u64, owner: Seq<u8>) -> Seq<u8> {
    seq![0u8, 0u8, 0u8, 0u8] + u64_le(lamports) + u64_le(space) + owner
}

/// The address of the ledger's system program: thirty-two zero bytes.
pub open spec fn system_program_id() -> Seq<u8> {
    Seq::new(32, |i: int| 0u8)
}

/// The step by which the system program allocates `space` bytes under the
/// address `to`, funded with `lamports` from `from` and owned by `owner`.
pub open spec fn allocate_step(
    from: Seq<u8>,
    to: Seq<u8>,
    lamports: u64,
    space: u64,
    owner: Seq<u8>,
) -> StepView {
    StepView {
        program_id: system_program_id(),
        accounts: seq![writable(from, true), writable(to, true)],
        data: create_account_data(lamports, space, owner),
    }
}

/// Calls `solana_sdk::system_instruction::create_account` and hands back the
/// step it returns, field by field. Nothing here is proved. The contract
/// says what that function's source shows: the step is addressed to the
/// system program; it names the paying account and then the new account,
/// both as writable signers; and its bytes are the fixed-width encoding of
/// the request to create an account, the first of the system program's
/// requests, with the balance, the size and the owner in this order.
#[verifier::external_body]
pub(crate) fn system_create_account(
    from: &Pubkey,
    to: &Pubkey,
    lamports: u64,
    space: u64,
    owner: &Pubkey,
) -> (res: Step)
    ensures
        res@.program_id == system_program_id(),
        res@.accounts == seq![writable(from@, true), writable(to@, true)],
        res@.data == create_account_data(lamports, space, owner@),
{
    let key = solana_sdk::pubkey::Pubkey::new_from_array;
    let (from, to, owner) = (key(from.bytes), key(to.bytes), key(owner.bytes));
    let step = solana_sdk::system_instruction::create_account(&from, &to, lamports, space, &owner);
    let accounts = step.accounts.iter().map(|meta| AccountMeta {
        pubkey: Pubkey { bytes: meta.pubkey.to_bytes() },
        is_signer: meta.is_signer,
        is_writable: meta.is_writable,
    }).collect();
    Step { program_id: Pubkey { bytes: step.program_id.to_bytes() }, accounts, data: step.data }
}

} // verus!
