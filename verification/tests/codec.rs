use borsh::BorshDeserialize;
use borsh::BorshSerialize;
use ledger_kv::error::Error;
use ledger_kv::instruction::decode;
use ledger_kv::instruction::encode;
use ledger_kv::instruction::Instruction;

fn payload_of(len: usize) -> Vec<u8> {
    (0..len).map(|i| (i % 251) as u8).collect()
}

#[test]
fn create_is_tag_zero_then_length_then_payload() {
    let bytes = encode(&Instruction::Create(b"hello".to_vec())).unwrap();
    assert_eq!(bytes, vec![0, 5, 0, 0, 0, b'h', b'e', b'l', b'l', b'o']);
}

#[test]
fn update_is_tag_one_then_length_then_payload() {
    let bytes = encode(&Instruction::Update(b"world".to_vec())).unwrap();
    assert_eq!(bytes, vec![1, 5, 0, 0, 0, b'w', b'o', b'r', b'l', b'd']);
}

#[test]
fn delete_is_tag_two_alone() {
    assert_eq!(encode(&Instruction::Delete).unwrap(), vec![2]);
}

#[test]
fn empty_payload_has_a_zero_length_prefix() {
    assert_eq!(encode(&Instruction::Create(Vec::new())).unwrap(), vec![0, 0, 0, 0, 0]);
    assert_eq!(encode(&Instruction::Update(Vec::new())).unwrap(), vec![1, 0, 0, 0, 0]);
}

#[test]
fn length_prefix_is_little_endian() {
    let bytes = encode(&Instruction::Create(payload_of(300))).unwrap();
    assert_eq!(&bytes[..5], &[0, 44, 1, 0, 0]);
    assert_eq!(bytes.len(), 305);

    let bytes = encode(&Instruction::Update(payload_of(65_536 + 2 * 256 + 3))).unwrap();
    assert_eq!(&bytes[..5], &[1, 3, 2, 1, 0]);

    let bytes = encode(&Instruction::Update(payload_of(16_777_216 + 7))).unwrap();
    assert_eq!(&bytes[..5], &[1, 7, 0, 0, 1]);
}

#[test]
fn decode_gives_back_what_encode_took() {
    for len in [0usize, 1, 2, 5, 255, 256, 257, 1000, 65_535, 65_536, 70_000] {
        let create = Instruction::Create(payload_of(len));
        assert_eq!(decode(&encode(&create).unwrap()), Ok(create));
        let update = Instruction::Update(payload_of(len));
        assert_eq!(decode(&encode(&update).unwrap()), Ok(update));
    }
    assert_eq!(decode(&encode(&Instruction::Delete).unwrap()), Ok(Instruction::Delete));
}

#[test]
fn decode_reads_each_variant() {
    assert_eq!(decode(&[0, 2, 0, 0, 0, 7, 9]), Ok(Instruction::Create(vec![7, 9])));
    assert_eq!(decode(&[1, 1, 0, 0, 0, 4]), Ok(Instruction::Update(vec![4])));
    assert_eq!(decode(&[2]), Ok(Instruction::Delete));
}

#[test]
fn decode_refuses_no_bytes() {
    assert_eq!(decode(&[]), Err(Error::MalformedInstruction));
}

#[test]
fn decode_refuses_an_unknown_discriminant() {
    assert_eq!(decode(&[3]), Err(Error::MalformedInstruction));
    assert_eq!(decode(&[3, 0, 0, 0, 0]), Err(Error::MalformedInstruction));
    assert_eq!(decode(&[255, 1, 0, 0, 0, 1]), Err(Error::MalformedInstruction));
}

#[test]
fn decode_refuses_a_broken_length_prefix() {
    assert_eq!(decode(&[0]), Err(Error::MalformedInstruction));
    assert_eq!(decode(&[0, 1, 0, 0]), Err(Error::MalformedInstruction));
    assert_eq!(decode(&[1, 0, 0]), Err(Error::MalformedInstruction));
}

#[test]
fn decode_refuses_a_length_that_is_not_what_follows() {
    // declares five bytes, one follows
    assert_eq!(decode(&[0, 5, 0, 0, 0, b'h']), Err(Error::MalformedInstruction));
    // declares one byte, two follow
    assert_eq!(decode(&[0, 1, 0, 0, 0, b'a', b'b']), Err(Error::MalformedInstruction));
    // declares none, one follows
    assert_eq!(decode(&[1, 0, 0, 0, 0, 9]), Err(Error::MalformedInstruction));
    // the high bytes of the prefix count
    assert_eq!(decode(&[1, 1, 0, 0, 1, 9]), Err(Error::MalformedInstruction));
    assert_eq!(decode(&[1, 1, 1, 0, 0, 9]), Err(Error::MalformedInstruction));
}

#[test]
fn decode_does_not_look_behind_a_delete() {
    assert_eq!(decode(&[2, 0]), Ok(Instruction::Delete));
    assert_eq!(decode(&[2, 5, 0, 0, 0, 1]), Ok(Instruction::Delete));
}

#[test]
fn payload_is_framed_as_borsh_frames_a_byte_vector() {
    for len in [0usize, 1, 5, 255, 256, 4660, 70_000] {
        let payload = payload_of(len);
        let framed = payload.try_to_vec().unwrap();
        let encoded = encode(&Instruction::Create(payload.clone())).unwrap();
        assert_eq!(encoded[0], 0);
        assert_eq!(&encoded[1..], &framed[..]);
        let encoded = encode(&Instruction::Update(payload.clone())).unwrap();
        assert_eq!(encoded[0], 1);
        assert_eq!(&encoded[1..], &framed[..]);
    }
}

#[test]
fn decode_accepts_a_payload_exactly_where_borsh_reads_all_of_it() {
    let inputs: [&[u8]; 8] = [
        &[0, 0, 0, 0, 0],
        &[0, 2, 0, 0, 0, 7, 9],
        &[0, 2, 0, 0, 0, 7],
        &[0, 2, 0, 0, 0, 7, 9, 11],
        &[1, 1, 0, 0],
        &[1, 0, 1, 0, 0, 1],
        &[1, 3, 0, 0, 0, 1, 2, 3],
        &[1],
    ];
    for input in inputs {
        let by_borsh = Vec::<u8>::try_from_slice(&input[1..]).ok();
        let by_us = match decode(input) {
            Ok(Instruction::Create(payload)) => Some(payload),
            Ok(Instruction::Update(payload)) => Some(payload),
            Ok(Instruction::Delete) => unreachable!(),
            Err(e) => {
                assert_eq!(e, Error::MalformedInstruction);
                None
            }
        };
        assert_eq!(by_us, by_borsh);
    }
}

#[test]
fn instructions_compare_by_variant_and_payload() {
    assert_eq!(Instruction::Create(vec![1, 2]), Instruction::Create(vec![1, 2]));
    assert_ne!(Instruction::Create(vec![1, 2]), Instruction::Update(vec![1, 2]));
    assert_ne!(Instruction::Create(vec![1, 2]), Instruction::Create(vec![1, 3]));
    assert_ne!(Instruction::Delete, Instruction::Update(Vec::new()));
    let first = Instruction::Update(vec![4, 5, 6]);
    assert_eq!(first.clone(), first);
}
