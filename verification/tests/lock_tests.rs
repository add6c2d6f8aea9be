//! Stake-lock and custodian-lock unlock scenarios.

use rollup_auth::context::CellInfo;
use rollup_auth::error::Error;
use rollup_auth::unlock::{verify_custodian_unlock, verify_stake_unlock};

const ROLLUP_CONFIG_FINALITY_BLOCKS: u64 = 1;
const ROLLUP_STATE_LAST_FINALIZED_BLOCK_NUMBER: u64 = 100;

const ROLLUP_TYPE_HASH: [u8; 32] = [0x11; 32];
const CONFIG_DATA_HASH: [u8; 32] = [0x22; 32];
const OWNER_LOCK_HASH: [u8; 32] = [0x33; 32];

fn plain_cell(lock_script_hash: [u8; 32]) -> CellInfo {
    CellInfo {
        lock_script_hash,
        type_script_hash: None,
        data: Vec::new(),
        data_hash: [0u8; 32],
        header_timestamp: None,
    }
}

fn rollup_config_cell() -> CellInfo {
    CellInfo {
        lock_script_hash: [0u8; 32],
        type_script_hash: None,
        data: ROLLUP_CONFIG_FINALITY_BLOCKS.to_le_bytes().to_vec(),
        data_hash: CONFIG_DATA_HASH,
        header_timestamp: None,
    }
}

fn rollup_state_cell(last_finalized_block_number: u64) -> CellInfo {
    let mut data = Vec::new();
    data.extend_from_slice(&last_finalized_block_number.to_le_bytes());
    data.extend_from_slice(&CONFIG_DATA_HASH);
    CellInfo {
        lock_script_hash: [0x44; 32],
        type_script_hash: Some(ROLLUP_TYPE_HASH),
        data,
        data_hash: [0x55; 32],
        header_timestamp: None,
    }
}

fn stake_lock_args(stake_timepoint: u64) -> Vec<u8> {
    let mut args = Vec::new();
    args.extend_from_slice(&ROLLUP_TYPE_HASH);
    args.extend_from_slice(&stake_timepoint.to_le_bytes());
    args.extend_from_slice(&OWNER_LOCK_HASH);
    args
}

fn custodian_lock_args(deposit_timepoint: u64) -> Vec<u8> {
    let mut args = Vec::new();
    args.extend_from_slice(&ROLLUP_TYPE_HASH);
    args.extend_from_slice(&deposit_timepoint.to_le_bytes());
    args
}

fn unlock_stake_via_finalize_based_on_block_number(stake_block_number: u64) -> Result<(), Error> {
    let inputs = vec![plain_cell([0x66; 32]), plain_cell(OWNER_LOCK_HASH)];
    let cell_deps = vec![
        rollup_config_cell(),
        rollup_state_cell(ROLLUP_STATE_LAST_FINALIZED_BLOCK_NUMBER),
    ];
    verify_stake_unlock(&stake_lock_args(stake_block_number), &inputs, &cell_deps, &Vec::new())
}

// stake_block_number <= rollup_state.last_finalized_block_number
#[test]
fn test_success_to_unlock_stake_via_finalize_based_on_block_number() {
    let result =
        unlock_stake_via_finalize_based_on_block_number(ROLLUP_STATE_LAST_FINALIZED_BLOCK_NUMBER);
    result.expect("success");
}

// stake_block_number > rollup_state.last_finalized_block_number
#[test]
fn test_fail_to_unlock_stake_via_finalize_based_on_block_number() {
    let result = unlock_stake_via_finalize_based_on_block_number(
        ROLLUP_STATE_LAST_FINALIZED_BLOCK_NUMBER + 1,
    );
    let err = result.unwrap_err();
    assert_eq!(err, Error::NotFinalized);
    assert_eq!(err.exit_code(), 45);
}

// The rollup state cell is consumed among the inputs, not attached as a
// cell dep: the custodian unlock is rollup-driven and succeeds.
#[test]
fn test_success_to_unlock_custodian_via_finalize_based_on_block_number() {
    let inputs = vec![
        rollup_state_cell(ROLLUP_STATE_LAST_FINALIZED_BLOCK_NUMBER),
        plain_cell([0x77; 32]),
    ];
    let cell_deps = vec![rollup_config_cell()];
    let result = verify_custodian_unlock(
        &custodian_lock_args(ROLLUP_STATE_LAST_FINALIZED_BLOCK_NUMBER),
        &inputs,
        &cell_deps,
        &Vec::new(),
    );
    result.expect("success");
}

// With the rollup state attached as a cell dep, a custodian deposit is
// unlocked exactly when its timepoint is finalized.
#[test]
fn test_custodian_finality_boundary_with_state_in_deps() {
    let inputs = vec![plain_cell([0x77; 32])];
    let cell_deps = vec![
        rollup_config_cell(),
        rollup_state_cell(ROLLUP_STATE_LAST_FINALIZED_BLOCK_NUMBER),
    ];
    let ok = verify_custodian_unlock(
        &custodian_lock_args(ROLLUP_STATE_LAST_FINALIZED_BLOCK_NUMBER),
        &inputs,
        &cell_deps,
        &Vec::new(),
    );
    assert_eq!(ok, Ok(()));
    let not_finalized = verify_custodian_unlock(
        &custodian_lock_args(ROLLUP_STATE_LAST_FINALIZED_BLOCK_NUMBER + 1),
        &inputs,
        &cell_deps,
        &Vec::new(),
    );
    assert_eq!(not_finalized, Err(Error::NotFinalized));
}

// An unfinalized stake with no owner cell still unlocks when the rollup
// cell itself is among the inputs, and fails InvalidUnlock when it is not.
#[test]
fn test_stake_unlock_via_rollup_cell_regardless_of_finality() {
    let cell_deps = vec![
        rollup_config_cell(),
        rollup_state_cell(ROLLUP_STATE_LAST_FINALIZED_BLOCK_NUMBER),
    ];
    let args = stake_lock_args(ROLLUP_STATE_LAST_FINALIZED_BLOCK_NUMBER + 1);

    // Owner absent, finality failed, but the rollup cell is an input.
    let inputs = vec![rollup_state_cell(ROLLUP_STATE_LAST_FINALIZED_BLOCK_NUMBER)];
    // Finality is still checked first on this path: the claim is not
    // finalized, so the verdict is terminal.
    assert_eq!(
        verify_stake_unlock(&args, &inputs, &cell_deps, &Vec::new()),
        Err(Error::NotFinalized)
    );

    // Without any state cell in the deps, path B alone decides, whatever
    // the lock's timepoint and without any owner cell.
    assert_eq!(
        verify_stake_unlock(&args, &inputs, &Vec::new(), &Vec::new()),
        Ok(())
    );
    assert_eq!(
        verify_stake_unlock(&args, &vec![plain_cell([0x66; 32])], &Vec::new(), &Vec::new()),
        Err(Error::InvalidUnlock)
    );
}

// A finalized stake whose owner cell is absent falls back to path B.
#[test]
fn test_finalized_stake_without_owner_falls_back_to_rollup_cell() {
    let cell_deps = vec![
        rollup_config_cell(),
        rollup_state_cell(ROLLUP_STATE_LAST_FINALIZED_BLOCK_NUMBER),
    ];
    let args = stake_lock_args(ROLLUP_STATE_LAST_FINALIZED_BLOCK_NUMBER);
    let inputs = vec![plain_cell([0x66; 32])];
    assert_eq!(
        verify_stake_unlock(&args, &inputs, &cell_deps, &Vec::new()),
        Err(Error::InvalidUnlock)
    );
    let inputs_with_rollup = vec![
        plain_cell([0x66; 32]),
        rollup_state_cell(ROLLUP_STATE_LAST_FINALIZED_BLOCK_NUMBER),
    ];
    assert_eq!(
        verify_stake_unlock(&args, &inputs_with_rollup, &cell_deps, &Vec::new()),
        Ok(())
    );
}

#[test]
fn test_stake_args_must_be_exactly_72_bytes() {
    let inputs = vec![plain_cell(OWNER_LOCK_HASH)];
    for len in [0usize, 31, 32, 71, 73, 128] {
        let args = vec![0u8; len];
        assert_eq!(
            verify_stake_unlock(&args, &inputs, &Vec::new(), &Vec::new()),
            Err(Error::InvalidArgs)
        );
    }
}

#[test]
fn test_custodian_args_must_be_exactly_40_bytes() {
    for len in [0usize, 32, 39, 41, 72] {
        let args = vec![0u8; len];
        assert_eq!(
            verify_custodian_unlock(&args, &Vec::new(), &Vec::new(), &Vec::new()),
            Err(Error::InvalidArgs)
        );
    }
}

#[test]
fn test_malformed_state_cell_is_an_encoding_error() {
    let mut state = rollup_state_cell(ROLLUP_STATE_LAST_FINALIZED_BLOCK_NUMBER);
    state.data.pop();
    let cell_deps = vec![rollup_config_cell(), state];
    let args = stake_lock_args(ROLLUP_STATE_LAST_FINALIZED_BLOCK_NUMBER);
    let inputs = vec![plain_cell(OWNER_LOCK_HASH)];
    assert_eq!(
        verify_stake_unlock(&args, &inputs, &cell_deps, &Vec::new()),
        Err(Error::Encoding)
    );
}

#[test]
fn test_missing_rollup_config_cell() {
    let cell_deps = vec![rollup_state_cell(ROLLUP_STATE_LAST_FINALIZED_BLOCK_NUMBER)];
    let args = stake_lock_args(ROLLUP_STATE_LAST_FINALIZED_BLOCK_NUMBER);
    let inputs = vec![plain_cell(OWNER_LOCK_HASH)];
    assert_eq!(
        verify_stake_unlock(&args, &inputs, &cell_deps, &Vec::new()),
        Err(Error::RollupConfigNotFound)
    );
}

#[test]
fn test_malformed_rollup_config_cell_is_an_encoding_error() {
    let mut config = rollup_config_cell();
    config.data.push(0);
    let cell_deps = vec![
        config,
        rollup_state_cell(ROLLUP_STATE_LAST_FINALIZED_BLOCK_NUMBER),
    ];
    let args = stake_lock_args(ROLLUP_STATE_LAST_FINALIZED_BLOCK_NUMBER);
    let inputs = vec![plain_cell(OWNER_LOCK_HASH)];
    assert_eq!(
        verify_stake_unlock(&args, &inputs, &cell_deps, &Vec::new()),
        Err(Error::Encoding)
    );
}

// A timestamp-based stake timepoint is decided by the timestamp rule over
// the rollup cell's header and the header deps.
#[test]
fn test_stake_unlock_by_timestamp() {
    let claim_timestamp: u64 = 1_000_000;
    // finality_blocks = 1 block, so the margin is 36000 ms.
    let boundary = claim_timestamp + 36000;
    let timestamp_flag: u64 = 1 << 63;
    let args = stake_lock_args(timestamp_flag | claim_timestamp);
    let inputs = vec![plain_cell(OWNER_LOCK_HASH)];

    let mut state = rollup_state_cell(ROLLUP_STATE_LAST_FINALIZED_BLOCK_NUMBER);
    state.header_timestamp = Some(boundary);
    let cell_deps = vec![rollup_config_cell(), state];
    assert_eq!(
        verify_stake_unlock(&args, &inputs, &cell_deps, &Vec::new()),
        Ok(())
    );

    let mut stale_state = rollup_state_cell(ROLLUP_STATE_LAST_FINALIZED_BLOCK_NUMBER);
    stale_state.header_timestamp = Some(boundary - 1);
    let cell_deps_stale = vec![rollup_config_cell(), stale_state];
    assert_eq!(
        verify_stake_unlock(&args, &inputs, &cell_deps_stale, &Vec::new()),
        Err(Error::NotFinalized)
    );

    // A fresher header dep advances the effective clock past the boundary.
    let mut stale_state_again = rollup_state_cell(ROLLUP_STATE_LAST_FINALIZED_BLOCK_NUMBER);
    stale_state_again.header_timestamp = Some(boundary - 1);
    let cell_deps_dep = vec![rollup_config_cell(), stale_state_again];
    let header_dep_timestamps = vec![boundary - 2, boundary];
    assert_eq!(
        verify_stake_unlock(&args, &inputs, &cell_deps_dep, &header_dep_timestamps),
        Ok(())
    );
}

// A timestamp-based timepoint whose rollup cell has no reachable header
// fails with the host's out-of-reach error.
#[test]
fn test_stake_unlock_by_timestamp_without_header() {
    let timestamp_flag: u64 = 1 << 63;
    let args = stake_lock_args(timestamp_flag | 1_000_000);
    let inputs = vec![plain_cell(OWNER_LOCK_HASH)];
    let cell_deps = vec![
        rollup_config_cell(),
        rollup_state_cell(ROLLUP_STATE_LAST_FINALIZED_BLOCK_NUMBER),
    ];
    assert_eq!(
        verify_stake_unlock(&args, &inputs, &cell_deps, &Vec::new()),
        Err(Error::IndexOutOfBound)
    );
}

#[test]
fn test_parse_lock_args_field_split() {
    let mut raw = Vec::new();
    raw.extend_from_slice(&[0x11; 32]);
    raw.extend_from_slice(&0x0102030405060708u64.to_le_bytes());
    raw.extend_from_slice(&[0x33; 32]);
    let (rollup_type_hash, args) = rollup_auth::unlock::parse_lock_args(&raw).expect("72 bytes");
    assert_eq!(rollup_type_hash, [0x11; 32]);
    assert_eq!(args.stake_timepoint, 0x0102030405060708);
    assert_eq!(args.owner_lock_hash, [0x33; 32]);

    let mut raw40 = Vec::new();
    raw40.extend_from_slice(&[0x11; 32]);
    raw40.extend_from_slice(&0x0102030405060708u64.to_le_bytes());
    let (hash, custodian) =
        rollup_auth::unlock::parse_custodian_lock_args(&raw40).expect("40 bytes");
    assert_eq!(hash, [0x11; 32]);
    assert_eq!(custodian.deposit_timepoint, 0x0102030405060708);
}
