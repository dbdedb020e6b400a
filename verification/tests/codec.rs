use escrow::error::{EscrowError, OpError};
use escrow::instruction::EscrowInstruction;
use escrow::state::{Escrow, Identity};

fn id(n: u64) -> Identity {
    Identity { w0: n, w1: 0, w2: 0, w3: 0 }
}

fn sample_record() -> Escrow {
    Escrow {
        is_initialized: true,
        initializer_pubkey: id(11),
        temp_token_account_pubkey: id(22),
        initializer_token_to_receive_account_pubkey: id(33),
        expected_amount: 0x0102030405060708,
    }
}

#[test]
fn unpack_init_instruction() {
    let mut data = vec![0u8];
    data.extend_from_slice(&5u64.to_le_bytes());
    assert_eq!(
        EscrowInstruction::unpack(&data),
        Ok(EscrowInstruction::InitEscrow { amount: 5 })
    );
}

#[test]
fn unpack_exchange_instruction() {
    let mut data = vec![1u8];
    data.extend_from_slice(&0x0102u64.to_le_bytes());
    assert_eq!(
        EscrowInstruction::unpack(&data),
        Ok(EscrowInstruction::Exchange { amount: 0x0102 })
    );
}

#[test]
fn unpack_cancel_instruction() {
    let mut data = vec![2u8];
    data.extend_from_slice(&0u64.to_le_bytes());
    assert_eq!(
        EscrowInstruction::unpack(&data),
        Ok(EscrowInstruction::CancelEscrow { amount: 0 })
    );
}

#[test]
fn unpack_rejects_short_payload() {
    let data = vec![0u8; 8];
    assert_eq!(
        EscrowInstruction::unpack(&data),
        Err(OpError::Escrow(EscrowError::InvalidInstruction))
    );
}

#[test]
fn unpack_rejects_unknown_tag() {
    let mut data = vec![3u8];
    data.extend_from_slice(&5u64.to_le_bytes());
    assert_eq!(
        EscrowInstruction::unpack(&data),
        Err(OpError::Escrow(EscrowError::InvalidInstruction))
    );
}

#[test]
fn escrow_pack_unpack_round_trip() {
    let record = sample_record();
    let mut dst = vec![0u8; 105];
    assert_eq!(record.pack(&mut dst), Ok(()));
    assert_eq!(dst.len(), 105);
    assert_eq!(dst[0], 1);
    assert_eq!(Escrow::unpack_unchecked(&dst), Ok(record));
    assert_eq!(Escrow::unpack(&dst), Ok(record));
}

#[test]
fn pack_rejects_wrong_destination_length() {
    let record = sample_record();
    let mut dst = vec![0u8; 104];
    assert_eq!(record.pack(&mut dst), Err(OpError::InvalidAccountData));
    assert_eq!(dst, vec![0u8; 104]);
}

#[test]
fn unpack_zeroed_slot_is_empty() {
    let data = vec![0u8; 105];
    let record = Escrow::unpack_unchecked(&data).unwrap();
    assert!(!record.is_initialized);
    assert_eq!(record.initializer_pubkey, id(0));
    assert_eq!(record.temp_token_account_pubkey, id(0));
    assert_eq!(record.initializer_token_to_receive_account_pubkey, id(0));
    assert_eq!(record.expected_amount, 0);
    // The checked form refuses an Empty record.
    assert_eq!(Escrow::unpack(&data), Err(OpError::UninitializedAccount));
}

#[test]
fn unpack_rejects_wrong_length() {
    assert_eq!(
        Escrow::unpack_unchecked(&vec![0u8; 104]),
        Err(OpError::InvalidAccountData)
    );
    assert_eq!(
        Escrow::unpack_unchecked(&vec![0u8; 106]),
        Err(OpError::InvalidAccountData)
    );
}

#[test]
fn unpack_rejects_bad_flag_byte() {
    let mut data = vec![0u8; 105];
    data[0] = 2;
    assert_eq!(
        Escrow::unpack_unchecked(&data),
        Err(OpError::InvalidAccountData)
    );
}

#[test]
fn amount_is_little_endian_at_fixed_offset() {
    let record = sample_record();
    let mut dst = vec![0u8; 105];
    record.pack(&mut dst).unwrap();
    assert_eq!(&dst[97..105], &0x0102030405060708u64.to_le_bytes());
}

#[test]
fn escrow_error_codes() {
    assert_eq!(EscrowError::InvalidInstruction.code(), 0);
    assert_eq!(EscrowError::ExpectedMintMismatch.code(), 1);
    assert_eq!(EscrowError::ExpectedAmountMismatch.code(), 2);
    assert_eq!(EscrowError::NotEnoughBalanceToSent.code(), 3);
    assert_eq!(EscrowError::InvalidAccountData.code(), 4);
    assert_eq!(EscrowError::AmountOverflow.code(), 5);
}

#[test]
fn escrow_error_converts_to_op_error() {
    assert_eq!(
        OpError::from(EscrowError::AmountOverflow),
        OpError::Escrow(EscrowError::AmountOverflow)
    );
}
