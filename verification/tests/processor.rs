use ledger_kv::account::Account;
use ledger_kv::bundle::create_data;
use ledger_kv::bundle::delete_data;
use ledger_kv::bundle::update_data;
use ledger_kv::client::Client;
use ledger_kv::error::Error;
use ledger_kv::instruction::encode;
use ledger_kv::instruction::Instruction;
use ledger_kv::processor::accounts_needed;
use ledger_kv::processor::process;
use ledger_kv::processor::process_create;
use ledger_kv::processor::process_delete;
use ledger_kv::processor::process_update;
use ledger_kv::pubkey::Pubkey;

const RENT: u64 = 953_520;

fn program() -> Pubkey {
    Pubkey::new([7; 32])
}

fn stranger() -> Pubkey {
    Pubkey::new([8; 32])
}

fn record(owner: Pubkey, is_signer: bool, data: &[u8]) -> Account {
    Account::new(Pubkey::new([1; 32]), owner, is_signer, true, RENT, data.to_vec())
}

fn wallet(lamports: u64) -> Account {
    Account::new(Pubkey::new([2; 32]), Pubkey::new([0; 32]), true, true, lamports, Vec::new())
}

#[test]
fn record_is_created_updated_and_deleted() {
    let client = Client::new(program(), Pubkey::new([2; 32]));
    let key = Pubkey::new([1; 32]);

    // the ledger has allocated five bytes for the new account, which co-signs
    let mut accounts = vec![record(program(), true, &[0; 5])];
    let step = create_data(program(), key, b"hello").unwrap();
    assert_eq!(process(&program(), &mut accounts, &step.data), Ok(()));
    assert_eq!(accounts[0].readable(), b"hello".to_vec());
    assert_eq!(client.get(Some(accounts[0].readable())), Ok(b"hello".to_vec()));

    // later bundles are signed by the payer alone
    accounts[0].is_signer = false;
    let step = update_data(program(), key, b"world").unwrap();
    assert_eq!(process(&program(), &mut accounts, &step.data), Ok(()));
    assert_eq!(accounts[0].readable(), b"world".to_vec());

    let step = update_data(program(), key, b"hi").unwrap();
    assert_eq!(process(&program(), &mut accounts, &step.data), Err(Error::SizeMismatch));
    assert_eq!(accounts[0].readable(), b"world".to_vec());
    assert_eq!(client.get(Some(accounts[0].readable())), Ok(b"world".to_vec()));

    accounts.push(wallet(10));
    let step = delete_data(program(), key, Pubkey::new([2; 32])).unwrap();
    assert_eq!(process(&program(), &mut accounts, &step.data), Ok(()));
    assert_eq!(accounts[0].readable(), Vec::<u8>::new());
    assert_eq!(client.get(Some(accounts[0].readable())), Err(Error::AccountEmpty));
    assert_eq!(accounts[0].data, vec![0; 5]);
    assert_eq!(accounts[0].lamports, 0);
    assert_eq!(accounts[1].lamports, 10 + RENT);
}

#[test]
fn foreign_account_is_refused_and_left_alone() {
    let before = vec![record(stranger(), true, b"keep!"), wallet(3)];

    let mut accounts = vec![record(stranger(), true, b"keep!"), wallet(3)];
    assert_eq!(process_create(&program(), &mut accounts, b"hello"), Err(Error::IncorrectOwner));
    assert_eq!(accounts, before);

    assert_eq!(process_update(&program(), &mut accounts, b"hello"), Err(Error::IncorrectOwner));
    assert_eq!(accounts, before);

    assert_eq!(process_delete(&program(), &mut accounts), Err(Error::IncorrectOwner));
    assert_eq!(accounts, before);

    for instruction in [
        Instruction::Create(b"hello".to_vec()),
        Instruction::Update(b"hello".to_vec()),
        Instruction::Delete,
    ] {
        let input = encode(&instruction).unwrap();
        assert_eq!(process(&program(), &mut accounts, &input), Err(Error::IncorrectOwner));
        assert_eq!(accounts, before);
    }
}

#[test]
fn owner_is_checked_before_signature_and_size() {
    let mut accounts = vec![record(stranger(), false, b"abc")];
    assert_eq!(process_create(&program(), &mut accounts, b"toolong"), Err(Error::IncorrectOwner));
    assert_eq!(process_update(&program(), &mut accounts, b"toolong"), Err(Error::IncorrectOwner));
    assert_eq!(accounts[0].data, b"abc".to_vec());
}

#[test]
fn owner_differs_in_one_byte() {
    let mut nearly = [7u8; 32];
    nearly[31] = 6;
    let mut accounts = vec![record(Pubkey::new(nearly), true, b"abc"), wallet(0)];
    assert_eq!(process_create(&program(), &mut accounts, b"xyz"), Err(Error::IncorrectOwner));
    assert_eq!(process_update(&program(), &mut accounts, b"xyz"), Err(Error::IncorrectOwner));
    assert_eq!(process_delete(&program(), &mut accounts), Err(Error::IncorrectOwner));
    assert_eq!(accounts[0].data, b"abc".to_vec());
    assert_eq!(accounts[0].lamports, RENT);
}

#[test]
fn create_needs_the_exact_length_and_the_signature() {
    let mut accounts = vec![record(program(), true, &[0; 4])];
    assert_eq!(process_create(&program(), &mut accounts, b"abcd"), Ok(()));
    assert_eq!(accounts[0].data, b"abcd".to_vec());
    assert_eq!(accounts[0].lamports, RENT);

    let mut accounts = vec![record(program(), true, &[0; 4])];
    assert_eq!(process_create(&program(), &mut accounts, b"abc"), Err(Error::SizeMismatch));
    assert_eq!(accounts[0].data, vec![0; 4]);
    assert_eq!(process_create(&program(), &mut accounts, b"abcde"), Err(Error::SizeMismatch));
    assert_eq!(accounts[0].data, vec![0; 4]);
    assert_eq!(process_create(&program(), &mut accounts, b""), Err(Error::SizeMismatch));
    assert_eq!(accounts[0].data, vec![0; 4]);

    let mut accounts = vec![record(program(), false, &[0; 4])];
    assert_eq!(process_create(&program(), &mut accounts, b"abcd"), Err(Error::MissingSignature));
    assert_eq!(accounts[0].data, vec![0; 4]);
}

#[test]
fn create_asks_for_the_signature_before_the_length() {
    let mut accounts = vec![record(program(), false, &[0; 4])];
    assert_eq!(process_create(&program(), &mut accounts, b"abc"), Err(Error::MissingSignature));
    assert_eq!(accounts[0].data, vec![0; 4]);
}

#[test]
fn create_of_no_bytes_in_an_account_of_no_bytes() {
    let mut accounts = vec![record(program(), true, &[])];
    assert_eq!(process_create(&program(), &mut accounts, b""), Ok(()));
    assert_eq!(accounts[0].data, Vec::<u8>::new());
}

#[test]
fn update_needs_the_exact_length_and_no_signature() {
    let mut accounts = vec![record(program(), false, b"hello")];
    assert_eq!(process_update(&program(), &mut accounts, b"world"), Ok(()));
    assert_eq!(accounts[0].data, b"world".to_vec());
    assert_eq!(accounts[0].data.len(), 5);
    assert_eq!(accounts[0].lamports, RENT);

    assert_eq!(process_update(&program(), &mut accounts, b"hi"), Err(Error::SizeMismatch));
    assert_eq!(accounts[0].data, b"world".to_vec());
    assert_eq!(process_update(&program(), &mut accounts, b"worlds"), Err(Error::SizeMismatch));
    assert_eq!(accounts[0].data, b"world".to_vec());

    accounts[0].is_signer = true;
    assert_eq!(process_update(&program(), &mut accounts, b"again"), Ok(()));
    assert_eq!(accounts[0].data, b"again".to_vec());
}

#[test]
fn delete_zeroes_the_record_and_refunds_the_balance() {
    let mut accounts = vec![record(program(), false, b"hello"), wallet(1_000)];
    assert_eq!(process_delete(&program(), &mut accounts), Ok(()));
    assert_eq!(accounts[0].data, vec![0; 5]);
    assert_eq!(accounts[0].lamports, 0);
    assert_eq!(accounts[1].lamports, 1_000 + RENT);
    assert_eq!(accounts[1].data, Vec::<u8>::new());
    // nothing else of either account has changed
    assert_eq!(accounts[0].key, Pubkey::new([1; 32]));
    assert_eq!(accounts[0].owner, program());
    assert_eq!(accounts[1].owner, Pubkey::new([0; 32]));
}

#[test]
fn delete_asks_no_signature_of_either_account() {
    let mut refund = wallet(5);
    refund.is_signer = false;
    let mut accounts = vec![record(program(), false, b"abc"), refund];
    assert_eq!(process_delete(&program(), &mut accounts), Ok(()));
    assert_eq!(accounts[0].lamports, 0);
    assert_eq!(accounts[1].lamports, 5 + RENT);
}

#[test]
fn delete_stops_at_the_largest_balance() {
    let mut accounts = vec![record(program(), false, b"abc"), wallet(u64::MAX - 5)];
    assert_eq!(process_delete(&program(), &mut accounts), Ok(()));
    assert_eq!(accounts[0].lamports, 0);
    assert_eq!(accounts[1].lamports, u64::MAX);

    let mut full = record(program(), false, b"abc");
    full.lamports = 5;
    let mut accounts = vec![full, wallet(u64::MAX - 5)];
    assert_eq!(process_delete(&program(), &mut accounts), Ok(()));
    assert_eq!(accounts[1].lamports, u64::MAX);
}

#[test]
fn delete_twice_is_delete_once() {
    let mut accounts = vec![record(program(), false, b"hello"), wallet(1_000)];
    assert_eq!(process_delete(&program(), &mut accounts), Ok(()));
    let once = vec![
        Account::new(Pubkey::new([1; 32]), program(), false, true, 0, vec![0; 5]),
        wallet(1_000 + RENT),
    ];
    assert_eq!(accounts, once);
    assert_eq!(process_delete(&program(), &mut accounts), Ok(()));
    assert_eq!(accounts, once);
    let input = encode(&Instruction::Delete).unwrap();
    assert_eq!(process(&program(), &mut accounts, &input), Ok(()));
    assert_eq!(accounts, once);
}

#[test]
fn missing_accounts_are_reported() {
    let mut none: Vec<Account> = Vec::new();
    assert_eq!(process_create(&program(), &mut none, b""), Err(Error::NotEnoughAccountKeys));
    assert_eq!(process_update(&program(), &mut none, b""), Err(Error::NotEnoughAccountKeys));
    assert_eq!(process_delete(&program(), &mut none), Err(Error::NotEnoughAccountKeys));

    // a delete of the program's own record without a refund account
    let mut one = vec![record(program(), true, b"abc")];
    assert_eq!(process_delete(&program(), &mut one), Err(Error::NotEnoughAccountKeys));
    assert_eq!(one, vec![record(program(), true, b"abc")]);
    assert_eq!(process(&program(), &mut one, &[2]), Err(Error::NotEnoughAccountKeys));
    assert_eq!(one, vec![record(program(), true, b"abc")]);
}

#[test]
fn foreign_account_is_refused_by_delete_without_a_refund_account() {
    let mut one = vec![record(stranger(), true, b"abc")];
    assert_eq!(process_delete(&program(), &mut one), Err(Error::IncorrectOwner));
    assert_eq!(one, vec![record(stranger(), true, b"abc")]);
    assert_eq!(one[0].data, b"abc".to_vec());
    assert_eq!(one[0].lamports, RENT);

    let mut one = vec![record(stranger(), false, b"abc")];
    assert_eq!(process(&program(), &mut one, &[2]), Err(Error::IncorrectOwner));
    assert_eq!(one, vec![record(stranger(), false, b"abc")]);
}

#[test]
fn foreign_account_alone_is_refused_by_every_transition() {
    for instruction in [
        Instruction::Create(b"abc".to_vec()),
        Instruction::Update(b"abc".to_vec()),
        Instruction::Delete,
    ] {
        let mut one = vec![record(stranger(), true, b"xyz")];
        let input = encode(&instruction).unwrap();
        assert_eq!(process(&program(), &mut one, &input), Err(Error::IncorrectOwner));
        assert_eq!(one, vec![record(stranger(), true, b"xyz")]);
    }
}

#[test]
fn malformed_input_changes_nothing() {
    let before = vec![record(program(), true, b"hello"), wallet(1)];
    let mut accounts = vec![record(program(), true, b"hello"), wallet(1)];
    let inputs: [&[u8]; 5] = [&[], &[3], &[0, 5, 0, 0], &[0, 4, 0, 0, 0, 1, 2, 3, 4, 5], &[1, 6, 0, 0, 0, 1, 2, 3, 4, 5]];
    for input in inputs {
        assert_eq!(process(&program(), &mut accounts, input), Err(Error::MalformedInstruction));
        assert_eq!(accounts, before);
    }
}

#[test]
fn process_takes_the_transition_from_the_discriminant() {
    let mut accounts = vec![record(program(), true, &[0; 2]), wallet(1)];
    assert_eq!(process(&program(), &mut accounts, &[0, 2, 0, 0, 0, 7, 9]), Ok(()));
    assert_eq!(accounts[0].data, vec![7, 9]);
    assert_eq!(process(&program(), &mut accounts, &[1, 2, 0, 0, 0, 8, 6]), Ok(()));
    assert_eq!(accounts[0].data, vec![8, 6]);
    assert_eq!(process(&program(), &mut accounts, &[2]), Ok(()));
    assert_eq!(accounts[0].data, vec![0, 0]);
    assert_eq!(accounts[0].lamports, 0);
    assert_eq!(accounts[1].lamports, 1 + RENT);
}

#[test]
fn only_the_first_account_is_written_by_create_and_update() {
    let mut accounts = vec![
        record(program(), true, &[0; 3]),
        record(program(), true, &[9; 3]),
        wallet(4),
    ];
    assert_eq!(process_create(&program(), &mut accounts, b"abc"), Ok(()));
    assert_eq!(process_update(&program(), &mut accounts, b"xyz"), Ok(()));
    assert_eq!(accounts[0].data, b"xyz".to_vec());
    assert_eq!(accounts[1], record(program(), true, &[9; 3]));
    assert_eq!(accounts[2], wallet(4));
}

#[test]
fn reader_finds_nothing_without_a_balance() {
    let mut account = record(program(), false, b"hello");
    assert_eq!(account.readable(), b"hello".to_vec());
    account.lamports = 1;
    assert_eq!(account.readable(), b"hello".to_vec());
    account.lamports = 0;
    assert_eq!(account.readable(), Vec::<u8>::new());
}

#[test]
fn instruction_says_how_many_accounts_it_reads() {
    assert_eq!(accounts_needed(&[0, 2, 0, 0, 0, 7, 9]), 1);
    assert_eq!(accounts_needed(&[0, 0, 0, 0, 0]), 1);
    assert_eq!(accounts_needed(&[1, 1, 0, 0, 0, 4]), 1);
    assert_eq!(accounts_needed(&[2]), 2);
    assert_eq!(accounts_needed(&[2, 9]), 2);
    assert_eq!(accounts_needed(&[]), 0);
    assert_eq!(accounts_needed(&[3]), 0);
    assert_eq!(accounts_needed(&[0, 2, 0, 0, 0, 7]), 0);
    assert_eq!(accounts_needed(&[1, 0, 0, 0, 0, 1]), 0);
}

#[test]
fn accounts_behind_those_read_do_not_matter() {
    let inputs: [&[u8]; 5] = [&[0, 3, 0, 0, 0, 1, 2, 3], &[1, 3, 0, 0, 0, 4, 5, 6], &[1, 1, 0, 0, 0, 4], &[2], &[9]];
    for owner in [program(), stranger()] {
        for input in inputs {
            let mut all = vec![record(owner, true, b"abc"), wallet(4), wallet(9)];
            let read = accounts_needed(input).min(all.len());
            let mut front = vec![record(owner, true, b"abc"), wallet(4), wallet(9)];
            front.truncate(read);
            let answer = process(&program(), &mut all, input);
            assert_eq!(process(&program(), &mut front, input), answer);
            assert_eq!(&all[..read], &front[..]);
            let untouched = vec![record(owner, true, b"abc"), wallet(4), wallet(9)];
            assert_eq!(&all[read..], &untouched[read..]);
        }
    }
}
