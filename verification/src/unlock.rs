//! The stake-lock / custodian-lock unlock authorizer.
//!
//! Two ordered paths decide an unlock; the first satisfied wins.
//!
//! Path A, owner-initiated: the rollup's committed state is read from the
//! cell deps; the lock's embedded timepoint must have passed the finality
//! rule (its verdict is terminal once the state was found), and for a
//! stake lock the owner's lock hash must appear among the inputs.
//!
//! Path B, rollup-driven: the rollup cell itself is consumed among the
//! inputs, which proves the unlock is part of an independently verified
//! state update.

use vstd::prelude::*;

use crate::context::{
    cell_has_lock_hash, cell_has_type_hash, first_data_hash_match, first_type_match,
    has_cell_with_lock_hash, has_cell_with_type_hash, is_first_type_match,
    lemma_first_data_hash_match, lemma_first_type_match, CellInfo,
};
use crate::error::Error;
use crate::finality::{
    is_finalized_based_on_block_number, is_finalized_based_on_timestamp,
    spec_finality_duration_ms, spec_finalized_by_timestamp, spec_l1_timestamp,
};
use crate::locator::{
    read_hash32, read_u64_le, search_lock_hash, search_rollup_cell, search_rollup_state,
    load_rollup_config, spec_config_finality_blocks, spec_global_state_config_hash,
    spec_global_state_last_finalized, GLOBAL_STATE_SIZE, ROLLUP_CONFIG_SIZE,
};
use crate::timepoint::Timepoint;
use vstd::bytes::spec_u64_from_le_bytes;

verus! {

/// Byte length of a stake lock's script args:
/// `rollup_type_hash(32B) ‖ stake_timepoint:u64-LE ‖ owner_lock_hash(32B)`.
pub const STAKE_LOCK_ARGS_SIZE: usize = 72;

/// Byte length of a custodian lock's script args:
/// `rollup_type_hash(32B) ‖ deposit_timepoint:u64-LE`.
pub const CUSTODIAN_LOCK_ARGS_SIZE: usize = 40;

/// Arguments carried by a stake lock's script.
pub struct StakeLockArgs {
    /// When the stake was made, packed as a timepoint.
    pub stake_timepoint: u64,
    /// Lock-script hash whose presence among the inputs proves the owner
    /// co-signed.
    pub owner_lock_hash: [u8; 32],
}

/// Arguments carried by a custodian lock's script.
pub struct CustodianLockArgs {
    /// When the deposit was made, packed as a timepoint.
    pub deposit_timepoint: u64,
}

/// Path B: allowed exactly when the rollup cell is consumed among the inputs.
pub open spec fn spec_unlock_by_rollup_cell(rollup_type_hash: Seq<u8>, inputs: Seq<CellInfo>) -> Result<
    (),
    Error,
> {
    if has_cell_with_type_hash(inputs, rollup_type_hash) {
        Ok(())
    } else {
        Err(Error::InvalidUnlock)
    }
}

/// Finality verdict for the lock's embedded timepoint, with the rollup
/// state cell standing at `state_index` of the cell deps.
pub open spec fn spec_finality_verdict(
    lock_timepoint_raw: u64,
    last_finalized_block_number: u64,
    finality_blocks: u64,
    cell_deps: Seq<CellInfo>,
    state_index: int,
    header_dep_timestamps: Seq<u64>,
) -> Result<bool, Error> {
    let tp = Timepoint::spec_from_full_value(lock_timepoint_raw);
    if tp.spec_is_timestamp_based() {
        match cell_deps[state_index].header_timestamp {
            None => Err(Error::IndexOutOfBound),
            Some(rollup_cell_timestamp) => Ok(
                spec_finalized_by_timestamp(
                    spec_l1_timestamp(rollup_cell_timestamp, header_dep_timestamps),
                    tp.spec_value(),
                    spec_finality_duration_ms(Timepoint::spec_from_full_value(finality_blocks)),
                ),
            ),
        }
    } else {
        Ok(tp.spec_value() <= last_finalized_block_number)
    }
}

/// The full two-path unlock decision.  A stake lock passes the owner's
/// lock hash; a custodian lock has none and is owed the unlock as soon as
/// its deposit timepoint is finalized.
pub open spec fn spec_unlock(
    rollup_type_hash: Seq<u8>,
    lock_timepoint_raw: u64,
    owner_lock_hash: Option<Seq<u8>>,
    inputs: Seq<CellInfo>,
    cell_deps: Seq<CellInfo>,
    header_dep_timestamps: Seq<u64>,
) -> Result<(), Error> {
    let si = first_type_match(cell_deps, rollup_type_hash);
    if si == -1 {
        spec_unlock_by_rollup_cell(rollup_type_hash, inputs)
    } else if cell_deps[si].data@.len() != GLOBAL_STATE_SIZE {
        Err(Error::Encoding)
    } else {
        let state_data = cell_deps[si].data@;
        let ci = first_data_hash_match(cell_deps, spec_global_state_config_hash(state_data));
        if ci == -1 {
            Err(Error::RollupConfigNotFound)
        } else if cell_deps[ci].data@.len() != ROLLUP_CONFIG_SIZE {
            Err(Error::Encoding)
        } else {
            match spec_finality_verdict(
                lock_timepoint_raw,
                spec_global_state_last_finalized(state_data),
                spec_config_finality_blocks(cell_deps[ci].data@),
                cell_deps,
                si,
                header_dep_timestamps,
            ) {
                Err(e) => Err(e),
                Ok(false) => Err(Error::NotFinalized),
                Ok(true) => match owner_lock_hash {
                    Some(owner) => if has_cell_with_lock_hash(inputs, owner) {
                        Ok(())
                    } else {
                        spec_unlock_by_rollup_cell(rollup_type_hash, inputs)
                    },
                    None => Ok(()),
                },
            }
        }
    }
}

/// View of an optional owner hash handed to the shared decision procedure.
pub open spec fn spec_owner_view(owner_lock_hash: Option<&[u8; 32]>) -> Option<Seq<u8>> {
    match owner_lock_hash {
        Some(owner) => Some(owner@),
        None => None,
    }
}

/// Path B alone: unlock because the rollup cell itself is an input.
fn unlock_by_rollup_cell(rollup_type_hash: &[u8; 32], inputs: &Vec<CellInfo>) -> (r: Result<
    (),
    Error,
>)
    ensures
        r == spec_unlock_by_rollup_cell(rollup_type_hash@, inputs@),
{
    match search_rollup_cell(rollup_type_hash, inputs) {
        Some(i) => {
            proof {
                assert(cell_has_type_hash(inputs@[i as int], rollup_type_hash@));
            }
            Ok(())
        },
        None => Err(Error::InvalidUnlock),
    }
}

/// The shared two-path decision procedure over the materialized context.
fn unlock_with_state(
    rollup_type_hash: &[u8; 32],
    lock_timepoint_raw: u64,
    owner_lock_hash: Option<&[u8; 32]>,
    inputs: &Vec<CellInfo>,
    cell_deps: &Vec<CellInfo>,
    header_dep_timestamps: &Vec<u64>,
) -> (r: Result<(), Error>)
    ensures
        r == spec_unlock(
            rollup_type_hash@,
            lock_timepoint_raw,
            spec_owner_view(owner_lock_hash),
            inputs@,
            cell_deps@,
            header_dep_timestamps@,
        ),
{
    proof {
        lemma_first_type_match(cell_deps@, rollup_type_hash@);
    }
    let ghost si = first_type_match(cell_deps@, rollup_type_hash@);
    let global_state_opt = match search_rollup_state(rollup_type_hash, cell_deps) {
        Ok(og) => og,
        Err(e) => {
            return Err(e);
        },
    };
    let global_state = match global_state_opt {
        Some(gs) => gs,
        None => {
            return unlock_by_rollup_cell(rollup_type_hash, inputs);
        },
    };
    proof {
        assert(is_first_type_match(cell_deps@, rollup_type_hash@, si));
        lemma_first_data_hash_match(cell_deps@, global_state.rollup_config_hash@);
    }
    let ghost ci = first_data_hash_match(
        cell_deps@,
        spec_global_state_config_hash(cell_deps@[si].data@),
    );
    let config = match load_rollup_config(&global_state.rollup_config_hash, cell_deps) {
        Ok(c) => c,
        Err(e) => {
            return Err(e);
        },
    };
    let timepoint = Timepoint::from_full_value(lock_timepoint_raw);
    let finalized = if timepoint.is_timestamp_based() {
        proof {
            assert(cell_has_type_hash(cell_deps@[si], rollup_type_hash@));
        }
        match is_finalized_based_on_timestamp(
            &config,
            rollup_type_hash,
            timepoint.value(),
            cell_deps,
            header_dep_timestamps,
        ) {
            Ok(f) => f,
            Err(e) => {
                return Err(e);
            },
        }
    } else {
        is_finalized_based_on_block_number(&global_state, timepoint.value())
    };
    if !finalized {
        return Err(Error::NotFinalized);
    }
    match owner_lock_hash {
        Some(owner) => {
            match search_lock_hash(owner, inputs) {
                Some(i) => {
                    proof {
                        assert(cell_has_lock_hash(inputs@[i as int], owner@));
                    }
                    Ok(())
                },
                None => unlock_by_rollup_cell(rollup_type_hash, inputs),
            }
        },
        None => Ok(()),
    }
}

/// Authorizes a stake-lock unlock: owner-initiated withdrawal after
/// finality, or a rollup-driven unlock.
pub fn unlock_stake(
    rollup_type_hash: &[u8; 32],
    lock_args: &StakeLockArgs,
    inputs: &Vec<CellInfo>,
    cell_deps: &Vec<CellInfo>,
    header_dep_timestamps: &Vec<u64>,
) -> (r: Result<(), Error>)
    ensures
        r == spec_unlock(
            rollup_type_hash@,
            lock_args.stake_timepoint,
            Some(lock_args.owner_lock_hash@),
            inputs@,
            cell_deps@,
            header_dep_timestamps@,
        ),
{
    unlock_with_state(
        rollup_type_hash,
        lock_args.stake_timepoint,
        Some(&lock_args.owner_lock_hash),
        inputs,
        cell_deps,
        header_dep_timestamps,
    )
}

/// Authorizes a custodian-lock unlock: the deposit must be finalized, or
/// the rollup cell itself must be consumed among the inputs.
pub fn unlock_custodian(
    rollup_type_hash: &[u8; 32],
    lock_args: &CustodianLockArgs,
    inputs: &Vec<CellInfo>,
    cell_deps: &Vec<CellInfo>,
    header_dep_timestamps: &Vec<u64>,
) -> (r: Result<(), Error>)
    ensures
        r == spec_unlock(
            rollup_type_hash@,
            lock_args.deposit_timepoint,
            None::<Seq<u8>>,
            inputs@,
            cell_deps@,
            header_dep_timestamps@,
        ),
{
    unlock_with_state(
        rollup_type_hash,
        lock_args.deposit_timepoint,
        None,
        inputs,
        cell_deps,
        header_dep_timestamps,
    )
}

/// Splits a stake lock's script args:
/// `rollup_type_hash(32B) ‖ stake_timepoint:u64-LE ‖ owner_lock_hash(32B)`.
/// Any other length is rejected.
pub fn parse_lock_args(raw: &Vec<u8>) -> (r: Result<([u8; 32], StakeLockArgs), Error>)
    ensures
        r is Ok <==> raw@.len() == STAKE_LOCK_ARGS_SIZE,
        r matches Ok((rollup_type_hash, args)) ==> rollup_type_hash@ == raw@.subrange(0, 32)
            && args.stake_timepoint == spec_u64_from_le_bytes(raw@.subrange(32, 40))
            && args.owner_lock_hash@ == raw@.subrange(40, 72),
        r matches Err(e) ==> e == Error::InvalidArgs,
{
    if raw.len() != STAKE_LOCK_ARGS_SIZE {
        return Err(Error::InvalidArgs);
    }
    let rollup_type_hash = read_hash32(raw, 0);
    let stake_timepoint = read_u64_le(raw, 32);
    let owner_lock_hash = read_hash32(raw, 40);
    Ok((rollup_type_hash, StakeLockArgs { stake_timepoint, owner_lock_hash }))
}

/// Splits a custodian lock's script args:
/// `rollup_type_hash(32B) ‖ deposit_timepoint:u64-LE`.
/// Any other length is rejected.
pub fn parse_custodian_lock_args(raw: &Vec<u8>) -> (r: Result<([u8; 32], CustodianLockArgs), Error>)
    ensures
        r is Ok <==> raw@.len() == CUSTODIAN_LOCK_ARGS_SIZE,
        r matches Ok((rollup_type_hash, args)) ==> rollup_type_hash@ == raw@.subrange(0, 32)
            && args.deposit_timepoint == spec_u64_from_le_bytes(raw@.subrange(32, 40)),
        r matches Err(e) ==> e == Error::InvalidArgs,
{
    if raw.len() != CUSTODIAN_LOCK_ARGS_SIZE {
        return Err(Error::InvalidArgs);
    }
    let rollup_type_hash = read_hash32(raw, 0);
    let deposit_timepoint = read_u64_le(raw, 32);
    Ok((rollup_type_hash, CustodianLockArgs { deposit_timepoint }))
}

/// The stake-lock entry decision: parse the script args, then authorize.
pub open spec fn spec_verify_stake_unlock(
    script_args: Seq<u8>,
    inputs: Seq<CellInfo>,
    cell_deps: Seq<CellInfo>,
    header_dep_timestamps: Seq<u64>,
) -> Result<(), Error> {
    if script_args.len() != STAKE_LOCK_ARGS_SIZE {
        Err(Error::InvalidArgs)
    } else {
        spec_unlock(
            script_args.subrange(0, 32),
            spec_u64_from_le_bytes(script_args.subrange(32, 40)),
            Some(script_args.subrange(40, 72)),
            inputs,
            cell_deps,
            header_dep_timestamps,
        )
    }
}

/// The custodian-lock entry decision: parse the script args, then authorize.
pub open spec fn spec_verify_custodian_unlock(
    script_args: Seq<u8>,
    inputs: Seq<CellInfo>,
    cell_deps: Seq<CellInfo>,
    header_dep_timestamps: Seq<u64>,
) -> Result<(), Error> {
    if script_args.len() != CUSTODIAN_LOCK_ARGS_SIZE {
        Err(Error::InvalidArgs)
    } else {
        spec_unlock(
            script_args.subrange(0, 32),
            spec_u64_from_le_bytes(script_args.subrange(32, 40)),
            None::<Seq<u8>>,
            inputs,
            cell_deps,
            header_dep_timestamps,
        )
    }
}

/// The stake-lock script entry over the materialized context.
pub fn verify_stake_unlock(
    script_args: &Vec<u8>,
    inputs: &Vec<CellInfo>,
    cell_deps: &Vec<CellInfo>,
    header_dep_timestamps: &Vec<u64>,
) -> (r: Result<(), Error>)
    ensures
        r == spec_verify_stake_unlock(script_args@, inputs@, cell_deps@, header_dep_timestamps@),
{
    let (rollup_type_hash, lock_args) = match parse_lock_args(script_args) {
        Ok(parsed) => parsed,
        Err(e) => {
            return Err(e);
        },
    };
    unlock_stake(&rollup_type_hash, &lock_args, inputs, cell_deps, header_dep_timestamps)
}

/// The custodian-lock script entry over the materialized context.
pub fn verify_custodian_unlock(
    script_args: &Vec<u8>,
    inputs: &Vec<CellInfo>,
    cell_deps: &Vec<CellInfo>,
    header_dep_timestamps: &Vec<u64>,
) -> (r: Result<(), Error>)
    ensures
        r == spec_verify_custodian_unlock(
            script_args@,
            inputs@,
            cell_deps@,
            header_dep_timestamps@,
        ),
{
    let (rollup_type_hash, lock_args) = match parse_custodian_lock_args(script_args) {
        Ok(parsed) => parsed,
        Err(e) => {
            return Err(e);
        },
    };
    unlock_custodian(&rollup_type_hash, &lock_args, inputs, cell_deps, header_dep_timestamps)
}

} // verus!
