use vstd::prelude::*;
use vstd::slice::slice_subrange;
use vstd::slice::slice_to_vec;
use crate::error::Error;

verus! {

/// An operation on a record account. The accounts it works on are not part
/// of it: they are named, in order, beside it.
#[derive(Debug, PartialEq, Eq)]
pub enum Instruction {
    /// Write the payload into a freshly allocated account.
    Create(Vec<u8>),
    /// Replace what the account stores by the payload.
    Update(Vec<u8>),
    /// Zero the account and hand its balance to the refund account.
    Delete,
}

/// What an [`Instruction`] is, as a mathematical value.
pub enum InstructionView {
    Create(Seq<u8>),
    Update(Seq<u8>),
    Delete,
}

impl View for Instruction {
    type V = InstructionView;

    open spec fn view(&self) -> InstructionView {
        match self {
            Instruction::Create(payload) => InstructionView::Create(payload@),
            Instruction::Update(payload) => InstructionView::Update(payload@),
            Instruction::Delete => InstructionView::Delete,
        }
    }
}

impl Clone for Instruction {
    fn clone(&self) -> (res: Instruction)
        ensures
            res@ == self@,
    {
        match self {
            Instruction::Create(payload) => Instruction::Create(payload.clone()),
            Instruction::Update(payload) => Instruction::Update(payload.clone()),
            Instruction::Delete => Instruction::Delete,
        }
    }
}

/// Discriminant byte of `Create`.
pub const TAG_CREATE: u8 = 0;

/// Discriminant byte of `Update`.
pub const TAG_UPDATE: u8 = 1;

/// Discriminant byte of `Delete`.
pub const TAG_DELETE: u8 = 2;

/// Number of bytes before the payload: the discriminant and the length prefix.
pub const HEADER_BYTES: usize = 5;

/// The four bytes of `n`, least significant first.
pub open spec fn u32_le(n: nat) -> Seq<u8> {
    seq![
        (n % 256) as u8,
        ((n / 256) % 256) as u8,
        ((n / 65536) % 256) as u8,
        ((n / 16777216) % 256) as u8,
    ]
}

/// The number that the first four bytes of `b` spell, least significant first.
pub open spec fn u32_from_le(b: Seq<u8>) -> nat {
    (b[0] as nat) + 256 * (b[1] as nat) + 65536 * (b[2] as nat) + 16777216 * (b[3] as nat)
}

/// A payload with its length in front.
pub open spec fn length_prefixed(payload: Seq<u8>) -> Seq<u8> {
    u32_le(payload.len()) + payload
}

/// Whether the wire format can hold the instruction: the length prefix has
/// four bytes.
pub open spec fn encodable(ins: InstructionView) -> bool {
    match ins {
        InstructionView::Create(payload) => payload.len() <= u32::MAX,
        InstructionView::Update(payload) => payload.len() <= u32::MAX,
        InstructionView::Delete => true,
    }
}

/// The wire format: the discriminant byte, then for `Create` and `Update`
/// the payload with its length in front, and nothing for `Delete`.
pub open spec fn encoding(ins: InstructionView) -> Seq<u8> {
    match ins {
        InstructionView::Create(payload) => seq![TAG_CREATE] + length_prefixed(payload),
        InstructionView::Update(payload) => seq![TAG_UPDATE] + length_prefixed(payload),
        InstructionView::Delete => seq![TAG_DELETE],
    }
}

/// Whether a length prefix follows the first byte and declares exactly the
/// number of bytes that follow the prefix.
pub open spec fn frames_payload(bytes: Seq<u8>) -> bool {
    &&& bytes.len() >= HEADER_BYTES
    &&& u32_from_le(bytes.subrange(1, 5)) == bytes.len() - HEADER_BYTES
}

/// The instruction that `bytes` spells, if any. What follows the
/// discriminant of a `Delete` is not looked at.
pub open spec fn decoding(bytes: Seq<u8>) -> Option<InstructionView> {
    if bytes.len() == 0 {
        None
    } else if bytes[0] == TAG_DELETE {
        Some(InstructionView::Delete)
    } else if bytes[0] == TAG_CREATE && frames_payload(bytes) {
        Some(InstructionView::Create(bytes.subrange(HEADER_BYTES as int, bytes.len() as int)))
    } else if bytes[0] == TAG_UPDATE && frames_payload(bytes) {
        Some(InstructionView::Update(bytes.subrange(HEADER_BYTES as int, bytes.len() as int)))
    } else {
        None
    }
}

/// Reading back the four bytes of a number that fits in them gives the number.
pub proof fn lemma_u32_le_round_trip(n: nat)
    requires
        n <= u32::MAX,
    ensures
        u32_le(n).len() == 4,
        u32_from_le(u32_le(n)) == n,
{
}

/// Decoding what was encoded gives the instruction back, whatever the payload.
pub proof fn lemma_decode_encode(ins: InstructionView)
    requires
        encodable(ins),
    ensures
        decoding(encoding(ins)) == Some(ins),
{
    match ins {
        InstructionView::Create(payload) => {
            lemma_framing(TAG_CREATE, payload);
        },
        InstructionView::Update(payload) => {
            lemma_framing(TAG_UPDATE, payload);
        },
        InstructionView::Delete => {},
    }
}

/// A discriminant followed by a length-prefixed payload frames that payload.
proof fn lemma_framing(tag: u8, payload: Seq<u8>)
    requires
        payload.len() <= u32::MAX,
    ensures
        frames_payload(seq![tag] + length_prefixed(payload)),
        (seq![tag] + length_prefixed(payload))[0] == tag,
        (seq![tag] + length_prefixed(payload)).subrange(
            HEADER_BYTES as int,
            (seq![tag] + length_prefixed(payload)).len() as int,
        ) == payload,
{
    lemma_u32_le_round_trip(payload.len());
}

/// The number that four bytes spell fits in four bytes, and its bytes are
/// those four.
pub proof fn lemma_u32_from_le_round_trip(b: Seq<u8>)
    requires
        b.len() == 4,
    ensures
        u32_from_le(b) <= u32::MAX,
        u32_le(u32_from_le(b)) == b,
{
    lemma_le_digits(b[0] as int, b[1] as int, b[2] as int, b[3] as int);
}

/// Four digits in base 256 are recovered from their number by division and
/// remainder.
proof fn lemma_le_digits(d0: int, d1: int, d2: int, d3: int)
    requires
        0 <= d0 < 256,
        0 <= d1 < 256,
        0 <= d2 < 256,
        0 <= d3 < 256,
    ensures
        ({
            let n = d0 + 256 * d1 + 65536 * d2 + 16777216 * d3;
            &&& 0 <= n <= u32::MAX
            &&& n % 256 == d0
            &&& (n / 256) % 256 == d1
            &&& (n / 65536) % 256 == d2
            &&& (n / 16777216) % 256 == d3
        }),
{
}

/// An instruction that decodes from bytes with a payload was encoded to
/// exactly those bytes: the format has one spelling for each of them.
pub proof fn lemma_encode_decode(bytes: Seq<u8>)
    requires
        decoding(bytes) is Some,
        decoding(bytes) != Some(InstructionView::Delete),
    ensures
        encodable(decoding(bytes).unwrap()),
        encoding(decoding(bytes).unwrap()) == bytes,
{
    lemma_u32_from_le_round_trip(bytes.subrange(1, 5));
}

/// Writes the four bytes of `n` at the end of `out`, least significant first.
fn push_u32_le(out: &mut Vec<u8>, n: u32)
    ensures
        final(out)@ == old(out)@ + u32_le(n as nat),
{
    out.push((n % 256) as u8);
    out.push(((n / 256) % 256) as u8);
    out.push(((n / 65536) % 256) as u8);
    out.push(((n / 16777216) % 256) as u8);
}

/// Writes a discriminant and a length-prefixed payload.
fn encode_payload(tag: u8, payload: &Vec<u8>) -> (res: Result<Vec<u8>, Error>)
    ensures
        payload@.len() <= u32::MAX ==> res is Ok && res.unwrap()@ == seq![tag] + length_prefixed(
            payload@,
        ),
        payload@.len() > u32::MAX ==> res == Err::<Vec<u8>, Error>(Error::PayloadTooLarge),
{
    let len: usize = payload.len();
    if len as u64 > u32::MAX as u64 {
        return Err(Error::PayloadTooLarge);
    }
    let mut out: Vec<u8> = Vec::new();
    out.push(tag);
    push_u32_le(&mut out, len as u32);
    out.extend_from_slice(payload.as_slice());
    Ok(out)
}

/// Encodes an instruction in the wire format. Only a payload too long for
/// the length prefix is refused.
pub fn encode(ins: &Instruction) -> (res: Result<Vec<u8>, Error>)
    ensures
        encodable(ins@) ==> res is Ok && res.unwrap()@ == encoding(ins@),
        !encodable(ins@) ==> res == Err::<Vec<u8>, Error>(Error::PayloadTooLarge),
{
    match ins {
        Instruction::Create(payload) => encode_payload(TAG_CREATE, payload),
        Instruction::Update(payload) => encode_payload(TAG_UPDATE, payload),
        Instruction::Delete => {
            let mut out: Vec<u8> = Vec::new();
            out.push(TAG_DELETE);
            Ok(out)
        },
    }
}

/// Reads the payload behind the discriminant, if the length prefix is there
/// and declares exactly the bytes that follow it.
fn decode_payload(bytes: &[u8]) -> (res: Option<Vec<u8>>)
    ensures
        frames_payload(bytes@) ==> res is Some && res.unwrap()@ == bytes@.subrange(
            HEADER_BYTES as int,
            bytes@.len() as int,
        ),
        !frames_payload(bytes@) ==> res is None,
{
    let len: usize = bytes.len();
    if len < HEADER_BYTES {
        return None;
    }
    let declared: u64 = (bytes[1] as u64) + 256 * (bytes[2] as u64) + 65536 * (bytes[3] as u64)
        + 16777216 * (bytes[4] as u64);
    if declared != (len - HEADER_BYTES) as u64 {
        return None;
    }
    let payload: Vec<u8> = slice_to_vec(slice_subrange(bytes, HEADER_BYTES, len));
    Some(payload)
}

/// Decodes an instruction from the wire format. The bytes are refused when
/// the discriminant is missing or unknown, or when the length that a
/// `Create` or `Update` declares is not the number of bytes that follow.
pub fn decode(bytes: &[u8]) -> (res: Result<Instruction, Error>)
    ensures
        decoding(bytes@) is Some ==> res is Ok && res.unwrap()@ == decoding(bytes@).unwrap(),
        decoding(bytes@) is None ==> res == Err::<Instruction, Error>(Error::MalformedInstruction),
{
    if bytes.len() == 0 {
        return Err(Error::MalformedInstruction);
    }
    let tag: u8 = bytes[0];
    if tag == TAG_DELETE {
        Ok(Instruction::Delete)
    } else if tag == TAG_CREATE {
        match decode_payload(bytes) {
            Some(payload) => Ok(Instruction::Create(payload)),
            None => Err(Error::MalformedInstruction),
        }
    } else if tag == TAG_UPDATE {
        match decode_payload(bytes) {
            Some(payload) => Ok(Instruction::Update(payload)),
            None => Err(Error::MalformedInstruction),
        }
    } else {
        Err(Error::MalformedInstruction)
    }
}

} // verus!
