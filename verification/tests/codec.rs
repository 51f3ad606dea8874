use solana_token::encoding::{read_le_u64, write_le_u64};
use solana_token::error::SwapError;
use solana_token::instruction::{ContractInstruction, ENCODED_LEN};

fn round_trip(request: ContractInstruction) {
    let wire = request.encode();
    assert_eq!(wire.len(), ENCODED_LEN);
    assert_eq!(ContractInstruction::decode(&wire), Ok(request));
}

#[test]
fn round_trip_deposit_boundary_amounts() {
    round_trip(ContractInstruction::ChangeXtoY { amount: 0 });
    round_trip(ContractInstruction::ChangeXtoY { amount: 1 });
    round_trip(ContractInstruction::ChangeXtoY { amount: u64::MAX });
}

#[test]
fn round_trip_withdrawal_boundary_amounts() {
    round_trip(ContractInstruction::ChangeYtoX { amount: 0 });
    round_trip(ContractInstruction::ChangeYtoX { amount: 1 });
    round_trip(ContractInstruction::ChangeYtoX { amount: u64::MAX });
}

#[test]
fn round_trip_many_amounts() {
    let mut amount: u64 = 1;
    for _ in 0..64 {
        round_trip(ContractInstruction::ChangeXtoY { amount });
        round_trip(ContractInstruction::ChangeYtoX { amount: amount - 1 });
        amount = amount.wrapping_mul(3).wrapping_add(0x0123_4567_89ab_cdef);
    }
}

#[test]
fn encode_writes_opcode_then_little_endian_amount() {
    assert_eq!(
        ContractInstruction::ChangeXtoY { amount: 100 }.encode(),
        vec![1, 100, 0, 0, 0, 0, 0, 0, 0]
    );
    assert_eq!(
        ContractInstruction::ChangeYtoX { amount: 0x0102_0304_0506_0708 }.encode(),
        vec![2, 8, 7, 6, 5, 4, 3, 2, 1]
    );
    assert_eq!(
        ContractInstruction::ChangeYtoX { amount: u64::MAX }.encode(),
        vec![2, 255, 255, 255, 255, 255, 255, 255, 255]
    );
}

#[test]
fn decode_reads_opcode_then_little_endian_amount() {
    assert_eq!(
        ContractInstruction::decode(&[1, 0x2c, 0x01, 0, 0, 0, 0, 0, 0]),
        Ok(ContractInstruction::ChangeXtoY { amount: 300 })
    );
    assert_eq!(
        ContractInstruction::decode(&[2, 0, 0, 0, 0, 0, 0, 0, 0x80]),
        Ok(ContractInstruction::ChangeYtoX { amount: 1 << 63 })
    );
}

#[test]
fn decode_agrees_with_std_little_endian() {
    let amount: u64 = 0xdead_beef_0bad_f00d;
    let mut wire = vec![1u8];
    wire.extend_from_slice(&amount.to_le_bytes());
    assert_eq!(
        ContractInstruction::decode(&wire),
        Ok(ContractInstruction::ChangeXtoY { amount })
    );
    assert_eq!(ContractInstruction::ChangeXtoY { amount }.encode(), wire);
}

#[test]
fn decode_rejects_short_input() {
    assert_eq!(ContractInstruction::decode(&[]), Err(SwapError::MalformedInstruction));
    assert_eq!(ContractInstruction::decode(&[1]), Err(SwapError::MalformedInstruction));
    assert_eq!(
        ContractInstruction::decode(&[1, 0, 0, 0, 0, 0, 0, 0]),
        Err(SwapError::MalformedInstruction)
    );
}

#[test]
fn decode_rejects_unknown_opcode() {
    assert_eq!(
        ContractInstruction::decode(&[0, 1, 0, 0, 0, 0, 0, 0, 0]),
        Err(SwapError::MalformedInstruction)
    );
    assert_eq!(
        ContractInstruction::decode(&[3, 1, 0, 0, 0, 0, 0, 0, 0]),
        Err(SwapError::MalformedInstruction)
    );
    assert_eq!(
        ContractInstruction::decode(&[255, 1, 0, 0, 0, 0, 0, 0, 0]),
        Err(SwapError::MalformedInstruction)
    );
}

#[test]
fn decode_does_not_read_past_the_ninth_byte() {
    assert_eq!(
        ContractInstruction::decode(&[2, 7, 0, 0, 0, 0, 0, 0, 0, 99, 98]),
        Ok(ContractInstruction::ChangeYtoX { amount: 7 })
    );
}

#[test]
fn amount_is_the_amount_of_either_request() {
    assert_eq!(ContractInstruction::ChangeXtoY { amount: 5 }.amount(), 5);
    assert_eq!(ContractInstruction::ChangeYtoX { amount: 6 }.amount(), 6);
}

#[test]
fn little_endian_reads_at_an_offset() {
    let input = [9u8, 9, 1, 2, 3, 4, 5, 6, 7, 8, 9];
    assert_eq!(read_le_u64(&input, 2), 0x0807_0605_0403_0201);
    assert_eq!(read_le_u64(&input, 2), u64::from_le_bytes([1, 2, 3, 4, 5, 6, 7, 8]));
}

#[test]
fn little_endian_write_appends() {
    let mut out = vec![42u8];
    write_le_u64(&mut out, 0x0807_0605_0403_0201);
    assert_eq!(out, vec![42, 1, 2, 3, 4, 5, 6, 7, 8]);
}

#[test]
fn encode_gives_back_what_decode_read() {
    let inputs: [[u8; 11]; 3] = [
        [1, 0, 0, 0, 0, 0, 0, 0, 0, 7, 7],
        [2, 1, 2, 3, 4, 5, 6, 7, 8, 0, 0],
        [1, 255, 255, 255, 255, 255, 255, 255, 255, 255, 255],
    ];
    for input in inputs.iter() {
        let request = ContractInstruction::decode(input).unwrap();
        assert_eq!(request.encode(), input[..9].to_vec());
    }
}
