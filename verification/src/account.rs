//! The account-lock signature verifier.
//!
//! Script args carry `rollup_script_hash(32B) ‖ address(20B)`; the cell's
//! data carries `owner_lock_hash(32B) ‖ message(32B)` — exactly 64 bytes.
//! The unlock is allowed iff some input cell carries the owner's lock hash
//! (which authorizes the unlock initiator and stops third-party replay of a
//! valid signature) and the witness signature recovers to the declared
//! address.

use vstd::prelude::*;

use crate::context::{cell_has_lock_hash, has_cell_with_lock_hash, CellInfo};
use crate::crypto::{address_of_pubkey, recover_signer_pubkey, spec_recovered_address};
use crate::error::Error;
use crate::locator::read_hash32;

verus! {

/// Minimum byte length of an account lock's script args:
/// `rollup_script_hash(32B) ‖ address(20B)`.
pub const ETH_LOCK_ARGS_SIZE: usize = 52;

/// Exact byte length of an account lock's cell data:
/// `owner_lock_hash(32B) ‖ message(32B)`.
pub const ETH_CELL_DATA_SIZE: usize = 64;

/// Byte length of a recoverable signature.
pub const SIGNATURE_SIZE: usize = 65;

/// Splits an account lock's script args at the fixed offsets; args shorter
/// than `rollup_script_hash ‖ address` are rejected.
pub fn parse_eth_lock_args(raw: &Vec<u8>) -> (r: Result<([u8; 32], [u8; 20]), Error>)
    ensures
        r is Ok <==> raw@.len() >= ETH_LOCK_ARGS_SIZE,
        r matches Ok((rollup_script_hash, address)) ==> rollup_script_hash@ == raw@.subrange(0, 32)
            && address@ == raw@.subrange(32, 52),
        r matches Err(e) ==> e == Error::Encoding,
{
    if raw.len() < ETH_LOCK_ARGS_SIZE {
        return Err(Error::Encoding);
    }
    let rollup_script_hash = read_hash32(raw, 0);
    let mut address = [0u8; 20];
    let mut i: usize = 0;
    while i < 20
        invariant
            0 <= i <= 20,
            raw@.len() >= 52,
            forall|j: int| 0 <= j < i ==> address@[j] == raw@[32 + j],
        decreases 20 - i,
    {
        address[i] = raw[32 + i];
        i += 1;
    }
    proof {
        assert(address@ =~= raw@.subrange(32, 52));
    }
    Ok((rollup_script_hash, address))
}

/// Splits an account lock's cell data into the owner's lock hash and the
/// message; every length other than exactly 64 bytes is rejected.
pub fn parse_data(raw: &Vec<u8>) -> (r: Result<([u8; 32], [u8; 32]), Error>)
    ensures
        r is Ok <==> raw@.len() == ETH_CELL_DATA_SIZE,
        r matches Ok((owner_lock_hash, message)) ==> owner_lock_hash@ == raw@.subrange(0, 32)
            && message@ == raw@.subrange(32, 64),
        r matches Err(e) ==> e == Error::Encoding,
{
    if raw.len() != ETH_CELL_DATA_SIZE {
        return Err(Error::Encoding);
    }
    let owner_lock_hash = read_hash32(raw, 0);
    let message = read_hash32(raw, 32);
    Ok((owner_lock_hash, message))
}

/// Reads the fixed 65-byte recoverable signature out of the witness's lock
/// field; an absent or mis-sized field is a signature failure.
pub fn load_signature_from_witness(witness_lock: &Option<Vec<u8>>) -> (r: Result<[u8; 65], Error>)
    ensures
        r is Ok <==> (witness_lock matches Some(bytes) && bytes@.len() == SIGNATURE_SIZE),
        r matches Ok(signature) ==> (witness_lock matches Some(bytes) && signature@ == bytes@),
        r matches Err(e) ==> e == Error::WrongSignature,
{
    let bytes = match witness_lock {
        Some(bytes) => bytes,
        None => {
            return Err(Error::WrongSignature);
        },
    };
    if bytes.len() != SIGNATURE_SIZE {
        return Err(Error::WrongSignature);
    }
    let mut signature = [0u8; 65];
    let mut i: usize = 0;
    while i < 65
        invariant
            0 <= i <= 65,
            bytes@.len() == 65,
            forall|j: int| 0 <= j < i ==> signature@[j] == bytes@[j],
        decreases 65 - i,
    {
        signature[i] = bytes[i];
        i += 1;
    }
    proof {
        assert(signature@ =~= bytes@);
    }
    Ok(signature)
}

/// The witness carries a well-sized signature that recovers to `address`
/// under `message`.
pub open spec fn spec_signature_authorizes(
    address: Seq<u8>,
    message: Seq<u8>,
    witness_lock: Option<Vec<u8>>,
) -> bool {
    &&& witness_lock matches Some(bytes)
    &&& bytes@.len() == SIGNATURE_SIZE
    &&& spec_recovered_address(message, bytes@) == Some(address)
}

/// Recovers the signer of `message` from the witness signature and
/// compares the signer's address to `address`.
pub fn verify_message_signature(
    address: &[u8; 20],
    message: &[u8; 32],
    witness_lock: &Option<Vec<u8>>,
) -> (r: Result<(), Error>)
    ensures
        r is Ok <==> spec_signature_authorizes(address@, message@, *witness_lock),
        r matches Err(e) ==> e == Error::WrongSignature,
{
    let signature = match load_signature_from_witness(witness_lock) {
        Ok(signature) => signature,
        Err(e) => {
            return Err(e);
        },
    };
    let pubkey = match recover_signer_pubkey(message, &signature) {
        Some(pubkey) => pubkey,
        None => {
            return Err(Error::WrongSignature);
        },
    };
    let recovered = address_of_pubkey(&pubkey);
    if address20_eq(&recovered, address) {
        Ok(())
    } else {
        Err(Error::WrongSignature)
    }
}

/// Byte-for-byte equality of two 20-byte addresses.
fn address20_eq(a: &[u8; 20], b: &[u8; 20]) -> (r: bool)
    ensures
        r == (a@ == b@),
{
    let mut i: usize = 0;
    while i < 20
        invariant
            0 <= i <= 20,
            forall|j: int| 0 <= j < i ==> a@[j] == b@[j],
        decreases 20 - i,
    {
        if a[i] != b[i] {
            return false;
        }
        i += 1;
    }
    proof {
        assert(a@ =~= b@);
    }
    true
}

/// The account-lock entry decision over the materialized context.
pub open spec fn spec_unlock_account(
    script_args: Seq<u8>,
    cell_data: Seq<u8>,
    inputs: Seq<CellInfo>,
    witness_lock: Option<Vec<u8>>,
) -> Result<(), Error> {
    if script_args.len() < ETH_LOCK_ARGS_SIZE {
        Err(Error::Encoding)
    } else if cell_data.len() != ETH_CELL_DATA_SIZE {
        Err(Error::Encoding)
    } else if !has_cell_with_lock_hash(inputs, cell_data.subrange(0, 32)) {
        Err(Error::OwnerCellNotFound)
    } else if spec_signature_authorizes(
        script_args.subrange(32, 52),
        cell_data.subrange(32, 64),
        witness_lock,
    ) {
        Ok(())
    } else {
        Err(Error::WrongSignature)
    }
}

/// The account-lock script entry: parse the args and cell data, require
/// the owner's cell among the inputs, then verify the witness signature.
pub fn unlock_account(
    script_args: &Vec<u8>,
    cell_data: &Vec<u8>,
    inputs: &Vec<CellInfo>,
    witness_lock: &Option<Vec<u8>>,
) -> (r: Result<(), Error>)
    ensures
        r == spec_unlock_account(script_args@, cell_data@, inputs@, *witness_lock),
{
    let (_rollup_script_hash, address) = match parse_eth_lock_args(script_args) {
        Ok(parsed) => parsed,
        Err(e) => {
            return Err(e);
        },
    };
    let (owner_lock_hash, message) = match parse_data(cell_data) {
        Ok(parsed) => parsed,
        Err(e) => {
            return Err(e);
        },
    };
    match crate::locator::search_lock_hash(&owner_lock_hash, inputs) {
        Some(i) => {
            proof {
                assert(cell_has_lock_hash(inputs@[i as int], owner_lock_hash@));
            }
        },
        None => {
            return Err(Error::OwnerCellNotFound);
        },
    };
    match verify_message_signature(&address, &message, witness_lock) {
        Ok(()) => Ok(()),
        Err(e) => Err(e),
    }
}

} // verus!
