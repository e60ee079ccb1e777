use vstd::prelude::*;
use crate::bundle::create_data;
use crate::bundle::create_step;
use crate::bundle::delete_data;
use crate::bundle::delete_step;
use crate::bundle::step_asks_signature;
use crate::bundle::update_data;
use crate::bundle::update_step;
use crate::bundle::well_formed;
use crate::bundle::Blockhash;
use crate::bundle::Bundle;
use crate::bundle::BundleView;
use crate::bundle::Step;
use crate::bundle::StepView;
use crate::error::Error;
use crate::pubkey::Pubkey;
use crate::system::allocate_step;
use crate::system::system_create_account;

verus! {

/// The client side of the store: it knows the program that keeps the records
/// and the account that pays for and signs what it submits.
#[derive(Clone, Copy, Debug, PartialEq, Eq)]
pub struct Client {
    pub program_id: Pubkey,
    pub payer: Pubkey,
}

/// The bundle that creates a record: first the step that allocates the
/// account, then the `Create` that fills it. The payer and the new account
/// sign, in this order.
pub open spec fn create_bundle(
    program_id: Seq<u8>,
    payer: Seq<u8>,
    new_account: Seq<u8>,
    allocate: StepView,
    payload: Seq<u8>,
    blockhash: Seq<u8>,
) -> BundleView {
    BundleView {
        steps: seq![allocate, create_step(program_id, new_account, payload)],
        payer,
        signers: seq![payer, new_account],
        recent_blockhash: blockhash,
    }
}

/// The bundle that updates a record: the `Update` alone, signed by the payer.
pub open spec fn update_bundle(
    program_id: Seq<u8>,
    payer: Seq<u8>,
    key: Seq<u8>,
    payload: Seq<u8>,
    blockhash: Seq<u8>,
) -> BundleView {
    BundleView {
        steps: seq![update_step(program_id, key, payload)],
        payer,
        signers: seq![payer],
        recent_blockhash: blockhash,
    }
}

/// The bundle that deletes a record: the `Delete` alone, with the payer as
/// the refund account, signed by the payer.
pub open spec fn delete_bundle(
    program_id: Seq<u8>,
    payer: Seq<u8>,
    key: Seq<u8>,
    blockhash: Seq<u8>,
) -> BundleView {
    BundleView {
        steps: seq![delete_step(program_id, key, payer)],
        payer,
        signers: seq![payer],
        recent_blockhash: blockhash,
    }
}

/// What a read of an address gives: `NotFound` where the ledger has no
/// account there, `AccountEmpty` where the account holds no bytes, and else
/// the bytes as they are stored.
pub open spec fn read_outcome(fetched: Option<Seq<u8>>) -> Result<Seq<u8>, Error> {
    match fetched {
        None => Err(Error::NotFound),
        Some(bytes) => if bytes.len() == 0 {
            Err(Error::AccountEmpty)
        } else {
            Ok(bytes)
        },
    }
}

/// Each bundle that the client assembles can be signed as it stands: the
/// payer signs first, and the signers are the payer and the accounts that a
/// step asks to sign, no more and no fewer.
pub proof fn lemma_bundles_well_formed(
    program_id: Seq<u8>,
    payer: Seq<u8>,
    key: Seq<u8>,
    lamports: u64,
    space: u64,
    payload: Seq<u8>,
    blockhash: Seq<u8>,
)
    ensures
        well_formed(
            create_bundle(
                program_id,
                payer,
                key,
                allocate_step(payer, key, lamports, space, program_id),
                payload,
                blockhash,
            ),
        ),
        well_formed(update_bundle(program_id, payer, key, payload, blockhash)),
        well_formed(delete_bundle(program_id, payer, key, blockhash)),
{
    let allocate = allocate_step(payer, key, lamports, space, program_id);
    let create = create_bundle(program_id, payer, key, allocate, payload, blockhash);
    let update = update_bundle(program_id, payer, key, payload, blockhash);
    let delete = delete_bundle(program_id, payer, key, blockhash);
    assert(create.steps[1].accounts[0].is_signer && create.steps[1].accounts[0].pubkey == key);
    assert(step_asks_signature(create.steps[1], key));
    assert(create.signers[0] == payer && create.signers[1] == key);
    assert(update.signers[0] == payer);
    assert(delete.signers[0] == payer);
}

impl Client {
    /// A client for the records that `program_id` keeps, paying and signing
    /// as `payer`.
    pub fn new(program_id: Pubkey, payer: Pubkey) -> (res: Client)
        ensures
            res.program_id == program_id,
            res.payer == payer,
    {
        Client { program_id, payer }
    }

    /// Assembles the bundle that creates a record from the step that
    /// allocates its account: that step first, then the `Create` with the
    /// bytes, signed by the payer and by the new account. Only a payload too
    /// long for the wire format is refused.
    pub fn create_with_allocation(
        &self,
        allocate: Step,
        new_account: Pubkey,
        blockhash: Blockhash,
        bytes: &[u8],
    ) -> (res: Result<Bundle, Error>)
        ensures
            bytes@.len() <= u32::MAX ==> res is Ok && res.unwrap()@ == create_bundle(
                self.program_id@,
                self.payer@,
                new_account@,
                allocate@,
                bytes@,
                blockhash@,
            ),
            bytes@.len() > u32::MAX ==> res == Err::<Bundle, Error>(Error::PayloadTooLarge),
    {
        match create_data(self.program_id, new_account, bytes) {
            Err(e) => Err(e),
            Ok(fill) => {
                let ghost allocate_view = allocate@;
                let ghost fill_view = fill@;
                let mut steps: Vec<Step> = Vec::new();
                steps.push(allocate);
                steps.push(fill);
                let mut signers: Vec<Pubkey> = Vec::new();
                signers.push(self.payer);
                signers.push(new_account);
                let bundle = Bundle {
                    steps,
                    payer: self.payer,
                    signers,
                    recent_blockhash: blockhash,
                };
                assert(bundle@.steps =~= seq![allocate_view, fill_view]);
                assert(bundle@.signers =~= seq![self.payer@, new_account@]);
                Ok(bundle)
            },
        }
    }

    /// Assembles the bundle that creates a record with the given bytes under
    /// the fresh address `new_account`: the system program allocates as many
    /// bytes as the payload has, funded with `lamports` from the payer and
    /// owned by the program, and the `Create` fills them. Only a payload too
    /// long for the wire format is refused.
    pub fn create(
        &self,
        new_account: Pubkey,
        lamports: u64,
        blockhash: Blockhash,
        bytes: &[u8],
    ) -> (res: Result<Bundle, Error>)
        ensures
            bytes@.len() <= u32::MAX ==> res is Ok && res.unwrap()@ == create_bundle(
                self.program_id@,
                self.payer@,
                new_account@,
                allocate_step(
                    self.payer@,
                    new_account@,
                    lamports,
                    bytes@.len() as u64,
                    self.program_id@,
                ),
                bytes@,
                blockhash@,
            ) && well_formed(res.unwrap()@),
            bytes@.len() > u32::MAX ==> res == Err::<Bundle, Error>(Error::PayloadTooLarge),
    {
        let space: u64 = bytes.len() as u64;
        let allocate = system_create_account(
            &self.payer,
            &new_account,
            lamports,
            space,
            &self.program_id,
        );
        proof {
            lemma_bundles_well_formed(
                self.program_id@,
                self.payer@,
                new_account@,
                lamports,
                space,
                bytes@,
                blockhash@,
            );
        }
        self.create_with_allocation(allocate, new_account, blockhash, bytes)
    }

    /// Assembles the bundle that replaces what the record at `key` stores by
    /// the given bytes. Only a payload too long for the wire format is
    /// refused.
    pub fn update(&self, key: Pubkey, blockhash: Blockhash, data: &[u8]) -> (res: Result<
        Bundle,
        Error,
    >)
        ensures
            data@.len() <= u32::MAX ==> res is Ok && res.unwrap()@ == update_bundle(
                self.program_id@,
                self.payer@,
                key@,
                data@,
                blockhash@,
            ) && well_formed(res.unwrap()@),
            data@.len() > u32::MAX ==> res == Err::<Bundle, Error>(Error::PayloadTooLarge),
    {
        match update_data(self.program_id, key, data) {
            Err(e) => Err(e),
            Ok(step) => {
                let bundle = self.single_step(step, blockhash);
                proof {
                    lemma_bundles_well_formed(
                        self.program_id@,
                        self.payer@,
                        key@,
                        0,
                        0,
                        data@,
                        blockhash@,
                    );
                }
                Ok(bundle)
            },
        }
    }

    /// Assembles the bundle that deletes the record at `key` and refunds its
    /// balance to the payer. It never fails.
    pub fn delete(&self, key: Pubkey, blockhash: Blockhash) -> (res: Result<Bundle, Error>)
        ensures
            res is Ok,
            res.unwrap()@ == delete_bundle(self.program_id@, self.payer@, key@, blockhash@),
            well_formed(res.unwrap()@),
    {
        match delete_data(self.program_id, key, self.payer) {
            Err(e) => Err(e),
            Ok(step) => {
                let bundle = self.single_step(step, blockhash);
                proof {
                    lemma_bundles_well_formed(
                        self.program_id@,
                        self.payer@,
                        key@,
                        0,
                        0,
                        Seq::empty(),
                        blockhash@,
                    );
                }
                Ok(bundle)
            },
        }
    }

    /// Says what a read of an address gives, from what the ledger answered:
    /// `None` where it has no account there, else the bytes of the account.
    pub fn get(&self, fetched: Option<Vec<u8>>) -> (res: Result<Vec<u8>, Error>)
        ensures
            match read_outcome(
                match fetched {
                    Some(bytes) => Some(bytes@),
                    None => None,
                },
            ) {
                Ok(bytes) => res is Ok && res.unwrap()@ == bytes,
                Err(e) => res == Err::<Vec<u8>, Error>(e),
            },
    {
        match fetched {
            None => Err(Error::NotFound),
            Some(bytes) => {
                if bytes.len() == 0 {
                    Err(Error::AccountEmpty)
                } else {
                    Ok(bytes)
                }
            },
        }
    }

    /// Says what a typed read of an address gives: what `get` says of a
    /// missing or an empty account, and else whatever `decode` makes of the
    /// stored bytes, with `DecodeError` where it makes nothing of them.
    /// `decode` is called on the stored bytes, once, and only where there
    /// are any.
    pub fn get_typed<T, F: Fn(&[u8]) -> Option<T>>(
        &self,
        fetched: Option<Vec<u8>>,
        decode: F,
    ) -> (res: Result<T, Error>)
        requires
            forall|bytes: &[u8]| decode.requires((bytes,)),
        ensures
            match read_outcome(
                match fetched {
                    Some(bytes) => Some(bytes@),
                    None => None,
                },
            ) {
                Err(e) => res == Err::<T, Error>(e),
                Ok(stored) => exists|bytes: &[u8], decoded: Option<T>|
                    bytes@ == stored && decode.ensures((bytes,), decoded) && res == (match decoded {
                        Some(value) => Ok::<T, Error>(value),
                        None => Err::<T, Error>(Error::DecodeError),
                    }),
            },
    {
        match self.get(fetched) {
            Err(e) => Err(e),
            Ok(stored) => {
                let decoded = decode(stored.as_slice());
                match decoded {
                    Some(value) => Ok(value),
                    None => Err(Error::DecodeError),
                }
            },
        }
    }

    /// The bundle of one step that the payer alone signs.
    fn single_step(&self, step: Step, blockhash: Blockhash) -> (res: Bundle)
        ensures
            res@ == (BundleView {
                steps: seq![step@],
                payer: self.payer@,
                signers: seq![self.payer@],
                recent_blockhash: blockhash@,
            }),
    {
        let ghost step_view = step@;
        let mut steps: Vec<Step> = Vec::new();
        steps.push(step);
        let mut signers: Vec<Pubkey> = Vec::new();
        signers.push(self.payer);
        let bundle = Bundle { steps, payer: self.payer, signers, recent_blockhash: blockhash };
        assert(bundle@.steps =~= seq![step_view]);
        assert(bundle@.signers =~= seq![self.payer@]);
        bundle
    }
}

} // verus!
