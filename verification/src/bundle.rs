use vstd::prelude::*;
use vstd::slice::slice_to_vec;
use crate::error::Error;
use crate::instruction::encode;
use crate::instruction::encoding;
use crate::instruction::Instruction;
use crate::instruction::InstructionView;
use crate::pubkey::Pubkey;

verus! {

/// How a step refers to one account: its address, whether it has to sign
/// the bundle, and whether the step may write to it.
#[derive(Clone, Copy, Debug, PartialEq, Eq)]
pub struct AccountMeta {
    pub pubkey: Pubkey,
    pub is_signer: bool,
    pub is_writable: bool,
}

/// What an [`AccountMeta`] is, as a mathematical value.
pub struct AccountMetaView {
    pub pubkey: Seq<u8>,
    pub is_signer: bool,
    pub is_writable: bool,
}

impl View for AccountMeta {
    type V = AccountMetaView;

    open spec fn view(&self) -> AccountMetaView {
        AccountMetaView {
            pubkey: self.pubkey@,
            is_signer: self.is_signer,
            is_writable: self.is_writable,
        }
    }
}

/// A reference to an account that the step may write to.
pub open spec fn writable(pubkey: Seq<u8>, is_signer: bool) -> AccountMetaView {
    AccountMetaView { pubkey, is_signer, is_writable: true }
}

impl AccountMeta {
    /// A reference to an account that the step may write to.
    pub fn new(pubkey: Pubkey, is_signer: bool) -> (res: AccountMeta)
        ensures
            res@ == writable(pubkey@, is_signer),
    {
        AccountMeta { pubkey, is_signer, is_writable: true }
    }
}

/// One step of a bundle: the program to run, the accounts it is given, in
/// the order in which it looks them up, and the bytes it is to interpret.
#[derive(Debug, PartialEq, Eq)]
pub struct Step {
    pub program_id: Pubkey,
    pub accounts: Vec<AccountMeta>,
    pub data: Vec<u8>,
}

/// What a [`Step`] is, as a mathematical value.
pub struct StepView {
    pub program_id: Seq<u8>,
    pub accounts: Seq<AccountMetaView>,
    pub data: Seq<u8>,
}

impl View for Step {
    type V = StepView;

    open spec fn view(&self) -> StepView {
        StepView {
            program_id: self.program_id@,
            accounts: self.accounts@.map_values(|meta: AccountMeta| meta@),
            data: self.data@,
        }
    }
}

/// The step that has this program create a record: the new account, which
/// signs, and the encoded `Create`.
pub open spec fn create_step(program_id: Seq<u8>, account: Seq<u8>, payload: Seq<u8>) -> StepView {
    StepView {
        program_id,
        accounts: seq![writable(account, true)],
        data: encoding(InstructionView::Create(payload)),
    }
}

/// The step that has this program update a record: the account, which does
/// not sign, and the encoded `Update`.
pub open spec fn update_step(program_id: Seq<u8>, account: Seq<u8>, payload: Seq<u8>) -> StepView {
    StepView {
        program_id,
        accounts: seq![writable(account, false)],
        data: encoding(InstructionView::Update(payload)),
    }
}

/// The step that has this program delete a record: the account, which does
/// not sign, then the refund account, which does, and the encoded `Delete`.
pub open spec fn delete_step(program_id: Seq<u8>, account: Seq<u8>, refund: Seq<u8>) -> StepView {
    StepView {
        program_id,
        accounts: seq![writable(account, false), writable(refund, true)],
        data: encoding(InstructionView::Delete),
    }
}

/// Builds the step that creates a record with the given bytes in `account`.
/// Only a payload too long for the wire format is refused.
pub fn create_data(program_id: Pubkey, account: Pubkey, data: &[u8]) -> (res: Result<Step, Error>)
    ensures
        data@.len() <= u32::MAX ==> res is Ok && res.unwrap()@ == create_step(
            program_id@,
            account@,
            data@,
        ),
        data@.len() > u32::MAX ==> res == Err::<Step, Error>(Error::PayloadTooLarge),
{
    let instruction = Instruction::Create(slice_to_vec(data));
    match encode(&instruction) {
        Err(e) => Err(e),
        Ok(bytes) => {
            let mut accounts: Vec<AccountMeta> = Vec::new();
            accounts.push(AccountMeta::new(account, true));
            let step = Step { program_id, accounts, data: bytes };
            assert(step@.accounts =~= seq![writable(account@, true)]);
            Ok(step)
        },
    }
}

/// Builds the step that replaces what the record in `account` stores by the
/// given bytes. Only a payload too long for the wire format is refused.
pub fn update_data(program_id: Pubkey, account: Pubkey, data: &[u8]) -> (res: Result<Step, Error>)
    ensures
        data@.len() <= u32::MAX ==> res is Ok && res.unwrap()@ == update_step(
            program_id@,
            account@,
            data@,
        ),
        data@.len() > u32::MAX ==> res == Err::<Step, Error>(Error::PayloadTooLarge),
{
    let instruction = Instruction::Update(slice_to_vec(data));
    match encode(&instruction) {
        Err(e) => Err(e),
        Ok(bytes) => {
            let mut accounts: Vec<AccountMeta> = Vec::new();
            accounts.push(AccountMeta::new(account, false));
            let step = Step { program_id, accounts, data: bytes };
            assert(step@.accounts =~= seq![writable(account@, false)]);
            Ok(step)
        },
    }
}

/// Builds the step that deletes the record in `account` and hands its
/// balance to `refund`. It never fails.
pub fn delete_data(program_id: Pubkey, account: Pubkey, refund: Pubkey) -> (res: Result<
    Step,
    Error,
>)
    ensures
        res is Ok,
        res.unwrap()@ == delete_step(program_id@, account@, refund@),
{
    match encode(&Instruction::Delete) {
        Err(e) => Err(e),
        Ok(bytes) => {
            let mut accounts: Vec<AccountMeta> = Vec::new();
            accounts.push(AccountMeta::new(account, false));
            accounts.push(AccountMeta::new(refund, true));
            let step = Step { program_id, accounts, data: bytes };
            assert(step@.accounts =~= seq![writable(account@, false), writable(refund@, true)]);
            Ok(step)
        },
    }
}

/// The recency token of a bundle: the ledger refuses a bundle whose token
/// has grown old.
#[derive(Clone, Copy, Debug, PartialEq, Eq)]
pub struct Blockhash {
    pub bytes: [u8; 32],
}

impl View for Blockhash {
    type V = Seq<u8>;

    open spec fn view(&self) -> Seq<u8> {
        self.bytes@
    }
}

/// Steps that the ledger applies in order, all or none, with the account
/// that pays the fee, the accounts that sign, and the recency token.
#[derive(Debug, PartialEq, Eq)]
pub struct Bundle {
    pub steps: Vec<Step>,
    pub payer: Pubkey,
    pub signers: Vec<Pubkey>,
    pub recent_blockhash: Blockhash,
}

/// What a [`Bundle`] is, as a mathematical value.
pub struct BundleView {
    pub steps: Seq<StepView>,
    pub payer: Seq<u8>,
    pub signers: Seq<Seq<u8>>,
    pub recent_blockhash: Seq<u8>,
}

impl View for Bundle {
    type V = BundleView;

    open spec fn view(&self) -> BundleView {
        BundleView {
            steps: self.steps@.map_values(|step: Step| step@),
            payer: self.payer@,
            signers: self.signers@.map_values(|key: Pubkey| key@),
            recent_blockhash: self.recent_blockhash@,
        }
    }
}

/// Whether the step asks the account at `key` to sign.
pub open spec fn step_asks_signature(step: StepView, key: Seq<u8>) -> bool {
    exists|j: int|
        0 <= j < step.accounts.len() && (#[trigger] step.accounts[j]).is_signer
            && step.accounts[j].pubkey == key
}

/// Whether the bundle needs the signature of the account at `key`: it pays
/// the fee, or one of the steps asks it to sign.
pub open spec fn asks_signature(bundle: BundleView, key: Seq<u8>) -> bool {
    key == bundle.payer || exists|i: int|
        0 <= i < bundle.steps.len() && step_asks_signature(#[trigger] bundle.steps[i], key)
}

/// Whether the bundle can be signed as it stands: the payer signs first, and
/// the signers are the accounts whose signature the bundle needs, no more
/// and no fewer.
pub open spec fn well_formed(bundle: BundleView) -> bool {
    &&& bundle.signers.len() > 0
    &&& bundle.signers[0] == bundle.payer
    &&& forall|key: Seq<u8>| #[trigger] bundle.signers.contains(key) <==> asks_signature(bundle, key)
}

} // verus!
