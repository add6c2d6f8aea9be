//! Account-lock signature verification scenarios.

use rollup_auth::account::{
    load_signature_from_witness, parse_data, parse_eth_lock_args, unlock_account,
    verify_message_signature,
};
use rollup_auth::context::CellInfo;
use rollup_auth::error::Error;
use sha3::Digest;

fn plain_cell(lock_script_hash: [u8; 32]) -> CellInfo {
    CellInfo {
        lock_script_hash,
        type_script_hash: None,
        data: Vec::new(),
        data_hash: [0u8; 32],
        header_timestamp: None,
    }
}

/// A compliant signer: signs the 32-byte message with a fixed key and
/// returns the signer's address and the 65-byte recoverable signature.
fn sign(message: &[u8; 32]) -> ([u8; 20], [u8; 65]) {
    let secret = [0x5a; 32];
    let signing_key = k256::ecdsa::SigningKey::from_slice(&secret).expect("valid secret scalar");
    let (signature, recovery_id) = signing_key.sign_prehash_recoverable(message);
    let mut bytes65 = [0u8; 65];
    bytes65[..64].copy_from_slice(&signature.to_bytes());
    bytes65[64] = recovery_id.to_byte();

    let point = signing_key.verifying_key().to_sec1_point(false);
    let digest = sha3::Keccak256::digest(&point.as_bytes()[1..]);
    let mut address = [0u8; 20];
    address.copy_from_slice(&digest[12..]);
    (address, bytes65)
}

#[test]
fn test_signature_round_trip() {
    let message = [0xab; 32];
    let (address, signature) = sign(&message);
    let witness_lock = Some(signature.to_vec());
    assert_eq!(verify_message_signature(&address, &message, &witness_lock), Ok(()));
}

#[test]
fn test_flipped_signature_bit_fails() {
    let message = [0xab; 32];
    let (address, signature) = sign(&message);
    let mut tampered = signature;
    tampered[10] ^= 0x01;
    let witness_lock = Some(tampered.to_vec());
    assert_eq!(
        verify_message_signature(&address, &message, &witness_lock),
        Err(Error::WrongSignature)
    );
}

#[test]
fn test_flipped_message_bit_fails() {
    let message = [0xab; 32];
    let (address, signature) = sign(&message);
    let mut tampered = message;
    tampered[0] ^= 0x80;
    let witness_lock = Some(signature.to_vec());
    assert_eq!(
        verify_message_signature(&address, &tampered, &witness_lock),
        Err(Error::WrongSignature)
    );
}

#[test]
fn test_wrong_address_fails() {
    let message = [0xab; 32];
    let (mut address, signature) = sign(&message);
    address[19] ^= 0xff;
    let witness_lock = Some(signature.to_vec());
    assert_eq!(
        verify_message_signature(&address, &message, &witness_lock),
        Err(Error::WrongSignature)
    );
}

#[test]
fn test_missing_or_missized_witness_fails() {
    let message = [0xab; 32];
    let (address, signature) = sign(&message);
    assert_eq!(
        verify_message_signature(&address, &message, &None),
        Err(Error::WrongSignature)
    );
    assert_eq!(
        verify_message_signature(&address, &message, &Some(signature[..64].to_vec())),
        Err(Error::WrongSignature)
    );
    assert_eq!(load_signature_from_witness(&None), Err(Error::WrongSignature));
    assert_eq!(
        load_signature_from_witness(&Some(vec![0u8; 66])),
        Err(Error::WrongSignature)
    );
    assert_eq!(
        load_signature_from_witness(&Some(signature.to_vec())),
        Ok(signature)
    );
}

// parse_data accepts exactly 64 bytes; every other length is Encoding.
#[test]
fn test_parse_data_length() {
    for len in [0usize, 1, 63, 65, 128] {
        let raw = vec![0x17u8; len];
        assert_eq!(parse_data(&raw), Err(Error::Encoding));
    }
    let mut raw = Vec::new();
    raw.extend_from_slice(&[0x01; 32]);
    raw.extend_from_slice(&[0x02; 32]);
    assert_eq!(parse_data(&raw), Ok(([0x01; 32], [0x02; 32])));
}

#[test]
fn test_parse_eth_lock_args() {
    for len in [0usize, 1, 51] {
        let raw = vec![0x17u8; len];
        assert_eq!(parse_eth_lock_args(&raw), Err(Error::Encoding));
    }
    let mut raw = Vec::new();
    raw.extend_from_slice(&[0x0a; 32]);
    raw.extend_from_slice(&[0x0b; 20]);
    assert_eq!(parse_eth_lock_args(&raw), Ok(([0x0a; 32], [0x0b; 20])));
}

fn account_context(message: &[u8; 32]) -> ([u8; 20], Vec<u8>, Vec<u8>, Vec<CellInfo>, [u8; 65]) {
    let (address, signature) = sign(message);
    let owner_lock_hash = [0x33; 32];
    let mut script_args = Vec::new();
    script_args.extend_from_slice(&[0x11; 32]);
    script_args.extend_from_slice(&address);
    let mut cell_data = Vec::new();
    cell_data.extend_from_slice(&owner_lock_hash);
    cell_data.extend_from_slice(message);
    let inputs = vec![plain_cell([0x66; 32]), plain_cell(owner_lock_hash)];
    (address, script_args, cell_data, inputs, signature)
}

#[test]
fn test_unlock_account_success() {
    let message = [0xcd; 32];
    let (_, script_args, cell_data, inputs, signature) = account_context(&message);
    let witness_lock = Some(signature.to_vec());
    assert_eq!(unlock_account(&script_args, &cell_data, &inputs, &witness_lock), Ok(()));
}

#[test]
fn test_unlock_account_requires_owner_cell() {
    let message = [0xcd; 32];
    let (_, script_args, cell_data, _, signature) = account_context(&message);
    let inputs = vec![plain_cell([0x66; 32])];
    let witness_lock = Some(signature.to_vec());
    assert_eq!(
        unlock_account(&script_args, &cell_data, &inputs, &witness_lock),
        Err(Error::OwnerCellNotFound)
    );
}

#[test]
fn test_unlock_account_rejects_malformed_layouts() {
    let message = [0xcd; 32];
    let (_, script_args, cell_data, inputs, signature) = account_context(&message);
    let witness_lock = Some(signature.to_vec());
    let short_args = script_args[..51].to_vec();
    assert_eq!(
        unlock_account(&short_args, &cell_data, &inputs, &witness_lock),
        Err(Error::Encoding)
    );
    let short_data = cell_data[..63].to_vec();
    assert_eq!(
        unlock_account(&script_args, &short_data, &inputs, &witness_lock),
        Err(Error::Encoding)
    );
    assert_eq!(
        unlock_account(&script_args, &cell_data, &inputs, &None),
        Err(Error::WrongSignature)
    );
}
