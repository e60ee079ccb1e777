use vstd::prelude::*;
use crate::account::drained;
use crate::account::readable;
use crate::account::views;
use crate::account::with_data;
use crate::account::with_lamports;
use crate::account::zeros;
use crate::account::Account;
use crate::account::AccountView;
use crate::error::Error;
use crate::instruction::decode;
use crate::instruction::decoding;
use crate::instruction::Instruction;
use crate::instruction::InstructionView;
use crate::pubkey::Pubkey;

verus! {

/// Position of the record account among the accounts of an instruction.
pub const RECORD: usize = 0;

/// Position of the refund account among the accounts of a `Delete`.
pub const REFUND: usize = 1;

/// What `Create` answers: the record account has to be there, owned by the
/// program, a signer of the bundle, and sized to the payload. The first of
/// these that fails decides the error.
pub open spec fn create_check(
    program_id: Seq<u8>,
    accounts: Seq<AccountView>,
    payload: Seq<u8>,
) -> Result<(), Error> {
    if accounts.len() <= RECORD {
        Err(Error::NotEnoughAccountKeys)
    } else if accounts[RECORD as int].owner != program_id {
        Err(Error::IncorrectOwner)
    } else if !accounts[RECORD as int].is_signer {
        Err(Error::MissingSignature)
    } else if accounts[RECORD as int].data.len() != payload.len() {
        Err(Error::SizeMismatch)
    } else {
        Ok(())
    }
}

/// What `Update` answers: as `Create`, but the record account need not sign.
/// Whoever can name the account in a bundle can overwrite what it stores:
/// the program checks the owner and nothing about the caller, which is a
/// likely gap in authorization.
pub open spec fn update_check(
    program_id: Seq<u8>,
    accounts: Seq<AccountView>,
    payload: Seq<u8>,
) -> Result<(), Error> {
    if accounts.len() <= RECORD {
        Err(Error::NotEnoughAccountKeys)
    } else if accounts[RECORD as int].owner != program_id {
        Err(Error::IncorrectOwner)
    } else if accounts[RECORD as int].data.len() != payload.len() {
        Err(Error::SizeMismatch)
    } else {
        Ok(())
    }
}

/// What `Delete` answers: the record account has to be there and owned by
/// the program, and the refund account has to be there. The first of these
/// that fails decides the error, so an account of another owner is refused
/// as such whether or not a refund account is named. Nobody has to sign, so
/// whoever can name the account in a bundle can drain it into an account of
/// their choice: a likely gap in authorization.
pub open spec fn delete_check(program_id: Seq<u8>, accounts: Seq<AccountView>) -> Result<
    (),
    Error,
> {
    if accounts.len() <= RECORD {
        Err(Error::NotEnoughAccountKeys)
    } else if accounts[RECORD as int].owner != program_id {
        Err(Error::IncorrectOwner)
    } else if accounts.len() <= REFUND {
        Err(Error::NotEnoughAccountKeys)
    } else {
        Ok(())
    }
}

/// The accounts with the payload in the storage of the record account.
pub open spec fn write(accounts: Seq<AccountView>, payload: Seq<u8>) -> Seq<AccountView> {
    accounts.update(RECORD as int, with_data(accounts[RECORD as int], payload))
}

/// The sum of two balances, or the largest balance where the sum is larger.
pub open spec fn saturating_sum(a: u64, b: u64) -> u64 {
    if a + b <= u64::MAX {
        (a + b) as u64
    } else {
        u64::MAX
    }
}

/// The accounts with the record account drained into the refund account:
/// its storage keeps its length and holds zeros, its balance is zero, and
/// the refund account has what both had, as far as a balance can hold it.
pub open spec fn drain(accounts: Seq<AccountView>) -> Seq<AccountView> {
    let record = accounts[RECORD as int];
    let refund = accounts[REFUND as int];
    accounts.update(
        RECORD as int,
        with_lamports(with_data(record, zeros(record.data.len())), 0),
    ).update(
        REFUND as int,
        with_lamports(refund, saturating_sum(refund.lamports, record.lamports)),
    )
}

/// The accounts after `Create`: the payload is written where the checks
/// pass, and nothing has changed where one fails.
pub open spec fn created(
    program_id: Seq<u8>,
    accounts: Seq<AccountView>,
    payload: Seq<u8>,
) -> Seq<AccountView> {
    if create_check(program_id, accounts, payload) is Ok {
        write(accounts, payload)
    } else {
        accounts
    }
}

/// The accounts after `Update`: the payload is written where the checks
/// pass, and nothing has changed where one fails.
pub open spec fn updated(
    program_id: Seq<u8>,
    accounts: Seq<AccountView>,
    payload: Seq<u8>,
) -> Seq<AccountView> {
    if update_check(program_id, accounts, payload) is Ok {
        write(accounts, payload)
    } else {
        accounts
    }
}

/// The accounts after `Delete`: the record account is drained where the
/// checks pass, and nothing has changed where one fails.
pub open spec fn deleted(program_id: Seq<u8>, accounts: Seq<AccountView>) -> Seq<AccountView> {
    if delete_check(program_id, accounts) is Ok {
        drain(accounts)
    } else {
        accounts
    }
}

/// How many accounts the transition of an instruction reads, counted from
/// the front of the list: the record account, and for a `Delete` the refund
/// account too. Bytes that spell no instruction read none.
pub open spec fn accounts_read(instruction: Option<InstructionView>) -> nat {
    match instruction {
        None => 0,
        Some(InstructionView::Create(_)) => 1,
        Some(InstructionView::Update(_)) => 1,
        Some(InstructionView::Delete) => 2,
    }
}

/// What the processor answers to the bytes of an instruction: bytes that
/// spell none are refused, the others are answered as their transition says.
pub open spec fn process_check(
    program_id: Seq<u8>,
    accounts: Seq<AccountView>,
    input: Seq<u8>,
) -> Result<(), Error> {
    match decoding(input) {
        None => Err(Error::MalformedInstruction),
        Some(InstructionView::Create(payload)) => create_check(program_id, accounts, payload),
        Some(InstructionView::Update(payload)) => update_check(program_id, accounts, payload),
        Some(InstructionView::Delete) => delete_check(program_id, accounts),
    }
}

/// The accounts after the processor was given the bytes of an instruction.
pub open spec fn processed(
    program_id: Seq<u8>,
    accounts: Seq<AccountView>,
    input: Seq<u8>,
) -> Seq<AccountView> {
    match decoding(input) {
        None => accounts,
        Some(InstructionView::Create(payload)) => created(program_id, accounts, payload),
        Some(InstructionView::Update(payload)) => updated(program_id, accounts, payload),
        Some(InstructionView::Delete) => deleted(program_id, accounts),
    }
}

/// Replaces every byte of `data` by the byte of `bytes` at the same place.
fn overwrite(data: &mut Vec<u8>, bytes: &[u8])
    requires
        old(data)@.len() == bytes@.len(),
    ensures
        final(data)@ == bytes@,
{
    let len: usize = bytes.len();
    let mut i: usize = 0;
    while i < len
        invariant
            i <= len,
            len == bytes@.len(),
            data@.len() == len,
            forall|j: int| 0 <= j < i ==> data@[j] == bytes@[j],
        decreases len - i,
    {
        data[i] = bytes[i];
        i += 1;
    }
}

/// Replaces every byte of `data` by zero.
fn fill_zero(data: &mut Vec<u8>)
    ensures
        final(data)@ == zeros(old(data)@.len()),
{
    let len: usize = data.len();
    let mut i: usize = 0;
    while i < len
        invariant
            i <= len,
            data@.len() == len,
            forall|j: int| 0 <= j < i ==> data@[j] == 0u8,
        decreases len - i,
    {
        data[i] = 0;
        i += 1;
    }
}

/// Applies `Create`: writes the payload into the record account, the first
/// of `accounts`. On an error no account has changed.
pub fn process_create(program_id: &Pubkey, accounts: &mut [Account], bytes: &[u8]) -> (res:
    Result<(), Error>)
    ensures
        res == create_check(program_id@, views(old(accounts)@), bytes@),
        views(final(accounts)@) == created(program_id@, views(old(accounts)@), bytes@),
        final(accounts)@.len() == old(accounts)@.len(),
        res is Err ==> final(accounts)@ == old(accounts)@,
{
    if accounts.len() <= RECORD {
        return Err(Error::NotEnoughAccountKeys);
    }
    let state = &mut accounts[RECORD];
    if !state.owner.same(program_id) {
        return Err(Error::IncorrectOwner);
    }
    if !state.is_signer {
        return Err(Error::MissingSignature);
    }
    if state.data.len() != bytes.len() {
        return Err(Error::SizeMismatch);
    }
    overwrite(&mut state.data, bytes);
    Ok(())
}

/// Applies `Update`: replaces what the record account, the first of
/// `accounts`, stores. No signature is asked of it. On an error no account
/// has changed.
pub fn process_update(program_id: &Pubkey, accounts: &mut [Account], bytes: &[u8]) -> (res:
    Result<(), Error>)
    ensures
        res == update_check(program_id@, views(old(accounts)@), bytes@),
        views(final(accounts)@) == updated(program_id@, views(old(accounts)@), bytes@),
        final(accounts)@.len() == old(accounts)@.len(),
        res is Err ==> final(accounts)@ == old(accounts)@,
{
    if accounts.len() <= RECORD {
        return Err(Error::NotEnoughAccountKeys);
    }
    let state = &mut accounts[RECORD];
    if !state.owner.same(program_id) {
        return Err(Error::IncorrectOwner);
    }
    if state.data.len() != bytes.len() {
        return Err(Error::SizeMismatch);
    }
    overwrite(&mut state.data, bytes);
    Ok(())
}

/// Applies `Delete`: zeroes the record account, the first of `accounts`, and
/// moves its balance to the refund account, the second. No signature is
/// asked of either. The two are entries of their own, whatever their
/// addresses. A balance that the refund account cannot hold stops at the
/// largest balance. On an error no account has changed.
pub fn process_delete(program_id: &Pubkey, accounts: &mut [Account]) -> (res: Result<
    (),
    Error,
>)
    ensures
        res == delete_check(program_id@, views(old(accounts)@)),
        views(final(accounts)@) == deleted(program_id@, views(old(accounts)@)),
        final(accounts)@.len() == old(accounts)@.len(),
        res is Err ==> final(accounts)@ == old(accounts)@,
{
    let given: usize = accounts.len();
    if given <= RECORD {
        return Err(Error::NotEnoughAccountKeys);
    }
    let state = &mut accounts[RECORD];
    if !state.owner.same(program_id) {
        return Err(Error::IncorrectOwner);
    }
    if given <= REFUND {
        return Err(Error::NotEnoughAccountKeys);
    }
    fill_zero(&mut state.data);
    let source_amount: u64 = state.lamports;
    state.lamports = 0;
    let refund = &mut accounts[REFUND];
    refund.lamports = refund.lamports.saturating_add(source_amount);
    Ok(())
}

/// Says how many accounts, from the front of the list, the processor reads
/// for the bytes of an instruction. The accounts behind them are neither
/// looked at nor changed.
pub fn accounts_needed(input: &[u8]) -> (res: usize)
    ensures
        res == accounts_read(decoding(input@)),
{
    match decode(input) {
        Err(_) => 0,
        Ok(Instruction::Create(_)) => 1,
        Ok(Instruction::Update(_)) => 1,
        Ok(Instruction::Delete) => 2,
    }
}

/// Decodes the bytes of an instruction and applies it to the accounts named
/// beside it. The record account is the first of them, the refund account of
/// a `Delete` the second. On an error no account has changed.
pub fn process(program_id: &Pubkey, accounts: &mut [Account], input: &[u8]) -> (res: Result<
    (),
    Error,
>)
    ensures
        res == process_check(program_id@, views(old(accounts)@), input@),
        views(final(accounts)@) == processed(program_id@, views(old(accounts)@), input@),
        final(accounts)@.len() == old(accounts)@.len(),
        res is Err ==> final(accounts)@ == old(accounts)@,
{
    match decode(input) {
        Err(_) => Err(Error::MalformedInstruction),
        Ok(Instruction::Create(bytes)) => process_create(program_id, accounts, bytes.as_slice()),
        Ok(Instruction::Update(bytes)) => process_update(program_id, accounts, bytes.as_slice()),
        Ok(Instruction::Delete) => process_delete(program_id, accounts),
    }
}

/// The processor reads the front of the list and nothing else: given only
/// the accounts that the instruction reads, as far as they are there, it
/// answers the same and leaves them the same, and the accounts behind them
/// stay as they were.
pub proof fn lemma_process_reads_the_front(
    program_id: Seq<u8>,
    accounts: Seq<AccountView>,
    input: Seq<u8>,
    front: int,
)
    requires
        front == if accounts_read(decoding(input)) <= accounts.len() {
            accounts_read(decoding(input)) as int
        } else {
            accounts.len() as int
        },
    ensures
        process_check(program_id, accounts, input) == process_check(
            program_id,
            accounts.take(front),
            input,
        ),
        processed(program_id, accounts, input) == processed(
            program_id,
            accounts.take(front),
            input,
        ) + accounts.skip(front),
{
}

/// Whatever bytes the processor is given, no account is added or dropped and
/// none changes its address, its owner, its flags or the length of its
/// storage: storage is sized once, when the ledger allocates it.
pub proof fn lemma_storage_never_resized(
    program_id: Seq<u8>,
    accounts: Seq<AccountView>,
    input: Seq<u8>,
    i: int,
)
    requires
        0 <= i < accounts.len(),
    ensures
        processed(program_id, accounts, input).len() == accounts.len(),
        processed(program_id, accounts, input)[i].data.len() == accounts[i].data.len(),
        processed(program_id, accounts, input)[i].key == accounts[i].key,
        processed(program_id, accounts, input)[i].owner == accounts[i].owner,
        processed(program_id, accounts, input)[i].is_signer == accounts[i].is_signer,
        processed(program_id, accounts, input)[i].is_writable == accounts[i].is_writable,
{
}

/// An account that this program does not own is refused with
/// `IncorrectOwner` by `Create`, `Update` and `Delete` alike, whatever else
/// holds of it and whatever other accounts are named beside it, and what it
/// stores stays as it was.
pub proof fn lemma_foreign_account_refused(
    program_id: Seq<u8>,
    accounts: Seq<AccountView>,
    payload: Seq<u8>,
)
    requires
        accounts.len() > RECORD,
        accounts[RECORD as int].owner != program_id,
    ensures
        create_check(program_id, accounts, payload) == Err::<(), Error>(Error::IncorrectOwner),
        update_check(program_id, accounts, payload) == Err::<(), Error>(Error::IncorrectOwner),
        delete_check(program_id, accounts) == Err::<(), Error>(Error::IncorrectOwner),
        created(program_id, accounts, payload) == accounts,
        updated(program_id, accounts, payload) == accounts,
        deleted(program_id, accounts) == accounts,
{
}

/// `Create` on an account of this program succeeds exactly when the payload
/// is as long as the account's storage and the account co-signs. Otherwise
/// it fails with `MissingSignature` or `SizeMismatch` and the account is as
/// it was; where it succeeds the account stores the payload.
pub proof fn lemma_create_succeeds_iff(
    program_id: Seq<u8>,
    accounts: Seq<AccountView>,
    payload: Seq<u8>,
)
    requires
        accounts.len() > RECORD,
        accounts[RECORD as int].owner == program_id,
    ensures
        create_check(program_id, accounts, payload) is Ok <==> payload.len()
            == accounts[RECORD as int].data.len() && accounts[RECORD as int].is_signer,
        create_check(program_id, accounts, payload) is Err ==> {
            &&& created(program_id, accounts, payload) == accounts
            &&& (create_check(program_id, accounts, payload) == Err::<(), Error>(
                Error::MissingSignature,
            ) || create_check(program_id, accounts, payload) == Err::<(), Error>(
                Error::SizeMismatch,
            ))
        },
        create_check(program_id, accounts, payload) is Ok ==> created(
            program_id,
            accounts,
            payload,
        )[RECORD as int].data == payload,
{
}

/// `Update` on an account of this program succeeds exactly when the payload
/// is as long as what the account stores. A payload of another length is
/// refused with `SizeMismatch` and the account is as it was; where it
/// succeeds the account stores the payload, in as many bytes as before.
pub proof fn lemma_update_succeeds_iff(
    program_id: Seq<u8>,
    accounts: Seq<AccountView>,
    payload: Seq<u8>,
)
    requires
        accounts.len() > RECORD,
        accounts[RECORD as int].owner == program_id,
    ensures
        update_check(program_id, accounts, payload) is Ok <==> payload.len()
            == accounts[RECORD as int].data.len(),
        payload.len() != accounts[RECORD as int].data.len() ==> {
            &&& update_check(program_id, accounts, payload) == Err::<(), Error>(
                Error::SizeMismatch,
            )
            &&& updated(program_id, accounts, payload) == accounts
        },
        payload.len() == accounts[RECORD as int].data.len() ==> {
            &&& updated(program_id, accounts, payload)[RECORD as int].data == payload
            &&& updated(program_id, accounts, payload)[RECORD as int].data.len()
                == accounts[RECORD as int].data.len()
        },
{
}

/// `Delete` leaves the record account drained: every byte of its storage is
/// zero and its balance is zero. The refund account has gained exactly what
/// the record account held, where its balance can hold the sum.
pub proof fn lemma_delete_drains(program_id: Seq<u8>, accounts: Seq<AccountView>)
    requires
        delete_check(program_id, accounts) is Ok,
        accounts[REFUND as int].lamports + accounts[RECORD as int].lamports <= u64::MAX,
    ensures
        drained(deleted(program_id, accounts)[RECORD as int]),
        deleted(program_id, accounts)[RECORD as int].data.len()
            == accounts[RECORD as int].data.len(),
        deleted(program_id, accounts)[REFUND as int].lamports
            == accounts[REFUND as int].lamports + accounts[RECORD as int].lamports,
{
    assert(deleted(program_id, accounts)[RECORD as int].data =~= zeros(
        accounts[RECORD as int].data.len(),
    ));
}

/// After `Delete` a reader finds no bytes under the record's address.
pub proof fn lemma_deleted_reads_empty(program_id: Seq<u8>, accounts: Seq<AccountView>)
    requires
        delete_check(program_id, accounts) is Ok,
    ensures
        readable(deleted(program_id, accounts)[RECORD as int]) == Seq::<u8>::empty(),
{
}

/// `Delete` on a drained account succeeds and changes nothing: there is
/// nothing left to zero and nothing to move.
pub proof fn lemma_delete_drained_is_noop(program_id: Seq<u8>, accounts: Seq<AccountView>)
    requires
        delete_check(program_id, accounts) is Ok,
        drained(accounts[RECORD as int]),
    ensures
        deleted(program_id, accounts) == accounts,
{
}

/// `Delete` applied twice does what it does once: the second application
/// succeeds and finds nothing to do.
pub proof fn lemma_delete_twice(program_id: Seq<u8>, accounts: Seq<AccountView>)
    requires
        delete_check(program_id, accounts) is Ok,
    ensures
        delete_check(program_id, deleted(program_id, accounts)) is Ok,
        deleted(program_id, deleted(program_id, accounts)) == deleted(program_id, accounts),
{
    let once = deleted(program_id, accounts);
    lemma_delete_drained_is_noop(program_id, once);
}

} // verus!
