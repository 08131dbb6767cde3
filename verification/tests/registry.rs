//! End-to-end tests of the asset registry: the codec, the four transitions,
//! and the instruction dispatch.

use asset_registry::codec::{decode, encode, encode_to_slot, Asset};
use asset_registry::engine::{AccountHandle, Processor};
use asset_registry::identity::Pubkey;
use asset_registry::instruction::{parse_instruction, Instruction};
use asset_registry::{process_instruction, AssetError};

fn key(b: u8) -> Pubkey {
    Pubkey { bytes: vec![b; 32] }
}

fn account(key_byte: u8, is_signer: bool, lamports: u64, data: Vec<u8>) -> AccountHandle {
    AccountHandle { key: key(key_byte), is_signer, lamports, data }
}

/// The canonical encoding, written out by hand: owner, little-endian length,
/// metadata.
fn encoded(owner_byte: u8, metadata: &[u8]) -> Vec<u8> {
    let mut out = vec![owner_byte; 32];
    out.extend_from_slice(&(metadata.len() as u32).to_le_bytes());
    out.extend_from_slice(metadata);
    out
}

fn sell_data(new_owner_byte: u8, amount: u64) -> Vec<u8> {
    let mut data = vec![3u8];
    data.extend_from_slice(&[new_owner_byte; 32]);
    data.extend_from_slice(&amount.to_le_bytes());
    data
}

#[test]
fn encode_produces_exact_bytes() {
    let asset = Asset { owner: key(7), metadata: b"rock".to_vec() };
    assert_eq!(encode(&asset).unwrap(), encoded(7, b"rock"));
}

#[test]
fn encode_decode_round_trip() {
    let asset = Asset { owner: key(9), metadata: b"a longer blob \x00\xff".to_vec() };
    let bytes = encode(&asset).unwrap();
    let back = decode(&bytes).unwrap();
    assert_eq!(back.owner.bytes, asset.owner.bytes);
    assert_eq!(back.metadata, asset.metadata);
}

#[test]
fn encoding_matches_borsh() {
    let asset = Asset { owner: key(5), metadata: b"rock".to_vec() };
    let reference: ([u8; 32], String) = ([5u8; 32], "rock".to_string());
    let expected = borsh::to_vec(&reference).unwrap();
    assert_eq!(encode(&asset).unwrap(), expected);

    let (owner, metadata): ([u8; 32], String) =
        borsh::from_slice(&encode(&asset).unwrap()).unwrap();
    assert_eq!(owner, [5u8; 32]);
    assert_eq!(metadata, "rock");
}

#[test]
fn decode_rejects_invalid_regions() {
    assert_eq!(decode(&[]).unwrap_err(), AssetError::DecodeError);
    assert_eq!(decode(&[0u8; 35]).unwrap_err(), AssetError::DecodeError);
    // All-zero slot of header size: length field says 0 but the owner region
    // is fine, so exactly 36 zero bytes decode as an all-zero owner.
    assert!(decode(&[0u8; 36]).is_ok());
    // A trailing byte beyond the encoded record invalidates the region.
    let mut bytes = encoded(1, b"rock");
    bytes.push(0);
    assert_eq!(decode(&bytes).unwrap_err(), AssetError::DecodeError);
    // A length field larger than the region invalidates it.
    let mut short = encoded(1, b"rock");
    short.truncate(38);
    assert_eq!(decode(&short).unwrap_err(), AssetError::DecodeError);
}

#[test]
fn encode_to_slot_keeps_tail_and_rejects_small_slots() {
    let slot = vec![9u8; 44];
    let out = encode_to_slot(&slot, &key(2), &b"rock".to_vec()).unwrap();
    let mut expected = encoded(2, b"rock");
    expected.extend_from_slice(&[9u8; 4]);
    assert_eq!(out, expected);

    let small = vec![0u8; 39];
    assert_eq!(
        encode_to_slot(&small, &key(2), &b"rock".to_vec()).unwrap_err(),
        AssetError::EncodeFailed
    );
}

#[test]
fn create_succeeds_only_for_a_signer() {
    let mut accounts = vec![account(1, false, 0, vec![0u8; 40])];
    assert_eq!(
        Processor::process_create_asset(&mut accounts, b"rock".to_vec()).unwrap_err(),
        AssetError::Unauthorized
    );
    assert_eq!(accounts[0].data, vec![0u8; 40]);

    accounts[0].is_signer = true;
    Processor::process_create_asset(&mut accounts, b"rock".to_vec()).unwrap();
    assert_eq!(accounts[0].data, encoded(1, b"rock"));
    let record = decode(&accounts[0].data).unwrap();
    assert_eq!(record.owner.bytes, accounts[0].key.bytes);
    assert_eq!(record.metadata, b"rock".to_vec());
}

#[test]
fn create_fails_without_accounts_or_space() {
    let mut none: Vec<AccountHandle> = vec![];
    assert_eq!(
        Processor::process_create_asset(&mut none, b"rock".to_vec()).unwrap_err(),
        AssetError::MissingAccount
    );
    let mut accounts = vec![account(1, true, 0, vec![0u8; 39])];
    assert_eq!(
        Processor::process_create_asset(&mut accounts, b"rock".to_vec()).unwrap_err(),
        AssetError::EncodeFailed
    );
    assert_eq!(accounts[0].data, vec![0u8; 39]);
}

#[test]
fn oversized_slot_leaves_no_decodable_record() {
    let mut accounts = vec![account(1, true, 0, vec![0u8; 44])];
    Processor::process_create_asset(&mut accounts, b"rock".to_vec()).unwrap();
    // The record occupies the first 40 bytes, so the slot no longer holds
    // exactly one encoded record and a later transition refuses it.
    assert_eq!(
        Processor::process_mint_asset(&mut accounts, b"sand".to_vec()).unwrap_err(),
        AssetError::DecodeError
    );
}

#[test]
fn update_metadata_demands_a_valid_record() {
    let mut accounts = vec![account(1, false, 0, vec![0u8; 40])];
    assert_eq!(
        Processor::process_mint_asset(&mut accounts, b"sand".to_vec()).unwrap_err(),
        AssetError::DecodeError
    );
}

#[test]
fn update_metadata_demands_self_ownership() {
    // The record's stored owner (2) differs from the slot's own identity (1).
    let mut accounts = vec![account(1, false, 0, encoded(2, b"rock"))];
    assert_eq!(
        Processor::process_mint_asset(&mut accounts, b"sand".to_vec()).unwrap_err(),
        AssetError::Unauthorized
    );
    assert_eq!(accounts[0].data, encoded(2, b"rock"));
}

#[test]
fn update_metadata_replaces_metadata_and_keeps_owner() {
    let mut accounts = vec![account(1, false, 0, encoded(1, b"rock"))];
    Processor::process_mint_asset(&mut accounts, b"sand".to_vec()).unwrap();
    assert_eq!(accounts[0].data, encoded(1, b"sand"));
}

#[test]
fn update_metadata_never_truncates() {
    let mut accounts = vec![account(1, false, 0, encoded(1, b"rock"))];
    assert_eq!(
        Processor::process_mint_asset(&mut accounts, b"a longer text".to_vec()).unwrap_err(),
        AssetError::EncodeFailed
    );
    assert_eq!(accounts[0].data, encoded(1, b"rock"));
}

#[test]
fn transfer_ownership_demands_self_ownership() {
    let mut accounts = vec![account(1, false, 0, encoded(2, b"rock"))];
    assert_eq!(
        Processor::process_transfer_ownership(&mut accounts, key(3)).unwrap_err(),
        AssetError::Unauthorized
    );
    assert_eq!(accounts[0].data, encoded(2, b"rock"));
}

#[test]
fn transfer_ownership_replaces_owner_and_keeps_metadata() {
    let mut accounts = vec![account(1, false, 0, encoded(1, b"rock"))];
    Processor::process_transfer_ownership(&mut accounts, key(3)).unwrap();
    assert_eq!(accounts[0].data, encoded(3, b"rock"));
}

#[test]
fn sell_demands_the_seller_own_the_asset() {
    let mut accounts = vec![
        account(1, false, 0, vec![]),
        account(2, false, 0, encoded(9, b"rock")),
        account(3, false, 5000, vec![]),
        account(4, false, 0, vec![]),
    ];
    assert_eq!(
        Processor::process_sell_asset(&mut accounts, key(3), 1000).unwrap_err(),
        AssetError::Unauthorized
    );
    assert_eq!(accounts[1].data, encoded(9, b"rock"));
}

#[test]
fn sell_fails_and_changes_nothing_when_payment_cannot_clear() {
    // Buyer cannot cover the amount.
    let mut accounts = vec![
        account(1, false, 100, vec![]),
        account(2, false, 0, encoded(1, b"rock")),
        account(3, false, 999, vec![]),
        account(4, false, 0, vec![]),
    ];
    assert_eq!(
        Processor::process_sell_asset(&mut accounts, key(3), 1000).unwrap_err(),
        AssetError::PaymentFailed
    );
    assert_eq!(accounts[1].data, encoded(1, b"rock"));
    assert_eq!(accounts[0].lamports, 100);
    assert_eq!(accounts[2].lamports, 999);

    // The seller's balance would overflow.
    accounts[0].lamports = u64::MAX;
    accounts[2].lamports = 1000;
    assert_eq!(
        Processor::process_sell_asset(&mut accounts, key(3), 1000).unwrap_err(),
        AssetError::PaymentFailed
    );
    assert_eq!(accounts[0].lamports, u64::MAX);
    assert_eq!(accounts[2].lamports, 1000);
    assert_eq!(accounts[1].data, encoded(1, b"rock"));
}

#[test]
fn sell_moves_payment_and_ownership() {
    let mut accounts = vec![
        account(1, false, 100, vec![]),
        account(2, false, 0, encoded(1, b"rock")),
        account(3, false, 5000, vec![]),
        account(4, false, 0, vec![]),
    ];
    Processor::process_sell_asset(&mut accounts, key(3), 1000).unwrap();
    assert_eq!(accounts[0].lamports, 1100);
    assert_eq!(accounts[2].lamports, 4000);
    assert_eq!(accounts[1].data, encoded(3, b"rock"));
}

#[test]
fn sell_requires_all_four_accounts() {
    let mut accounts = vec![
        account(1, false, 0, vec![]),
        account(2, false, 0, encoded(1, b"rock")),
        account(3, false, 5000, vec![]),
    ];
    assert_eq!(
        Processor::process_sell_asset(&mut accounts, key(3), 1000).unwrap_err(),
        AssetError::MissingAccount
    );
}

#[test]
fn parse_rejects_malformed_buffers() {
    let pid = key(0);
    let mut accounts = vec![account(1, true, 0, vec![0u8; 40])];
    // Empty buffer.
    assert_eq!(
        process_instruction(&pid, &mut accounts, &[]).unwrap_err(),
        AssetError::InvalidInstructionData
    );
    // Unmapped selectors.
    assert_eq!(
        process_instruction(&pid, &mut accounts, &[4]).unwrap_err(),
        AssetError::InvalidInstructionData
    );
    assert_eq!(
        process_instruction(&pid, &mut accounts, &[255]).unwrap_err(),
        AssetError::InvalidInstructionData
    );
    // TransferOwnership with fewer than 32 payload bytes.
    let mut short_transfer = vec![2u8];
    short_transfer.extend_from_slice(&[9u8; 31]);
    assert_eq!(
        process_instruction(&pid, &mut accounts, &short_transfer).unwrap_err(),
        AssetError::InvalidInstructionData
    );
    // Sell with fewer than 40 payload bytes.
    let mut short_sell = vec![3u8];
    short_sell.extend_from_slice(&[9u8; 39]);
    assert_eq!(
        process_instruction(&pid, &mut accounts, &short_sell).unwrap_err(),
        AssetError::InvalidInstructionData
    );
    // Nothing ran: the slot is untouched.
    assert_eq!(accounts[0].data, vec![0u8; 40]);
}

#[test]
fn parse_rejects_non_utf8_metadata() {
    assert_eq!(
        parse_instruction(&[0, 0xC3, 0x28]).unwrap_err(),
        AssetError::InvalidInstructionData
    );
    assert_eq!(
        parse_instruction(&[1, 0xFF]).unwrap_err(),
        AssetError::InvalidInstructionData
    );
}

#[test]
fn parse_accepts_utf8_metadata_and_reads_fields() {
    match parse_instruction(&[0, b'h', b'i']).unwrap() {
        Instruction::Create { metadata } => assert_eq!(metadata, b"hi".to_vec()),
        _ => panic!("wrong instruction"),
    }
    let data = sell_data(6, 1000);
    match parse_instruction(&data).unwrap() {
        Instruction::Sell { new_owner, sale_amount } => {
            assert_eq!(new_owner.bytes, vec![6u8; 32]);
            assert_eq!(sale_amount, 1000);
        }
        _ => panic!("wrong instruction"),
    }
}

#[test]
fn lifecycle_create_transfer_then_stale_owner_is_rejected() {
    let pid = key(0);
    // Create with signer A (key 1), metadata "rock".
    let mut accounts = vec![account(1, true, 0, vec![0u8; 40])];
    let mut create = vec![0u8];
    create.extend_from_slice(b"rock");
    process_instruction(&pid, &mut accounts, &create).unwrap();
    assert_eq!(accounts[0].data, encoded(1, b"rock"));

    // Transfer to B (key 2), authorized because the slot's identity still
    // matches the stored owner.
    let mut transfer = vec![2u8];
    transfer.extend_from_slice(&[2u8; 32]);
    process_instruction(&pid, &mut accounts, &transfer).unwrap();
    assert_eq!(accounts[0].data, encoded(2, b"rock"));

    // Update by account A, which no longer owns the record.
    let mut update = vec![1u8];
    update.extend_from_slice(b"sand");
    assert_eq!(
        process_instruction(&pid, &mut accounts, &update).unwrap_err(),
        AssetError::Unauthorized
    );
    assert_eq!(accounts[0].data, encoded(2, b"rock"));
}

#[test]
fn errors_carry_diagnostics() {
    assert_eq!(
        AssetError::Unauthorized.message(),
        "caller is not authorized to mutate this asset"
    );
    assert_eq!(
        AssetError::DecodeError.message(),
        "slot does not hold a valid asset record"
    );
}

#[test]
fn dispatched_sale_settles_payment_before_ownership() {
    let pid = key(0);
    let mut accounts = vec![
        account(1, false, 0, vec![]),
        account(2, false, 0, encoded(1, b"rock")),
        account(3, false, 1000, vec![]),
        account(4, false, 0, vec![]),
    ];
    process_instruction(&pid, &mut accounts, &sell_data(3, 1000)).unwrap();
    assert_eq!(accounts[0].lamports, 1000);
    assert_eq!(accounts[2].lamports, 0);
    assert_eq!(accounts[1].data, encoded(3, b"rock"));
}
