//! Locating and parsing the rollup's committed state.
//!
//! The rollup cell is the cell whose type-script hash equals the rollup's
//! type hash; its data carries the committed `GlobalState`.  The rollup
//! config cell is the cell dep whose data hash equals the state's
//! `rollup_config_hash`.  Both byte layouts are fixed:
//! `GlobalState = last_finalized_block_number:u64-LE ‖ rollup_config_hash:32B`
//! and `RollupConfig = finality_blocks:u64-LE`.

use vstd::prelude::*;

use crate::context::{
    cell_has_data_hash, cell_has_lock_hash, cell_has_type_hash, has_cell_with_lock_hash,
    has_cell_with_type_hash, hash32_eq, is_first_data_hash_match, is_first_type_match, CellInfo,
};
use crate::error::Error;
use vstd::bytes::{spec_u64_from_le_bytes, u64_from_le_bytes};
use vstd::slice::slice_subrange;

verus! {

/// Byte length of the relevant `GlobalState` layout.
pub const GLOBAL_STATE_SIZE: usize = 40;

/// Byte length of the relevant `RollupConfig` layout.
pub const ROLLUP_CONFIG_SIZE: usize = 8;

/// The rollup's committed snapshot, read from the rollup cell's data.
#[derive(Clone, Copy, Debug, PartialEq, Eq)]
pub struct GlobalState {
    /// Highest block number the rollup has finalized.
    pub last_finalized_block_number: u64,
    /// Data hash of the cell holding the `RollupConfig` that governs this state.
    pub rollup_config_hash: [u8; 32],
}

/// The protocol parameters relevant here, read from the config cell's data.
#[derive(Clone, Copy, Debug, PartialEq, Eq)]
pub struct RollupConfig {
    /// Required finality margin, packed as a timepoint.
    pub finality_blocks: u64,
}

pub open spec fn spec_global_state_last_finalized(data: Seq<u8>) -> u64 {
    spec_u64_from_le_bytes(data.subrange(0, 8))
}

pub open spec fn spec_global_state_config_hash(data: Seq<u8>) -> Seq<u8> {
    data.subrange(8, 40)
}

/// `gs` is the reading of the 40-byte `GlobalState` layout in `data`.
pub open spec fn global_state_matches(gs: GlobalState, data: Seq<u8>) -> bool {
    &&& gs.last_finalized_block_number == spec_global_state_last_finalized(data)
    &&& gs.rollup_config_hash@ == spec_global_state_config_hash(data)
}

pub open spec fn spec_config_finality_blocks(data: Seq<u8>) -> u64 {
    spec_u64_from_le_bytes(data.subrange(0, 8))
}

/// Reads the unsigned 64-bit little-endian value at `offset`.
pub(crate) fn read_u64_le(data: &Vec<u8>, offset: usize) -> (x: u64)
    requires
        offset + 8 <= data@.len(),
    ensures
        x == spec_u64_from_le_bytes(data@.subrange(offset as int, offset as int + 8)),
{
    // Names the length so the index arithmetic is visibly in bounds.
    let _n = data.len();
    let s = slice_subrange(data.as_slice(), offset, offset + 8);
    u64_from_le_bytes(s)
}

/// Copies the 32 bytes at `offset` out as a hash.
pub(crate) fn read_hash32(data: &Vec<u8>, offset: usize) -> (h: [u8; 32])
    requires
        offset + 32 <= data@.len(),
    ensures
        h@ == data@.subrange(offset as int, offset as int + 32),
{
    let n = data.len();
    let mut h = [0u8; 32];
    let mut i: usize = 0;
    while i < 32
        invariant
            0 <= i <= 32,
            offset + 32 <= n == data@.len(),
            forall|j: int| 0 <= j < i ==> h@[j] == data@[offset + j],
        decreases 32 - i,
    {
        h[i] = data[offset + i];
        i += 1;
    }
    proof {
        assert(h@ =~= data@.subrange(offset as int, offset as int + 32));
    }
    h
}

/// Parses the 40-byte `GlobalState` layout; any other length is malformed.
pub fn parse_global_state(data: &Vec<u8>) -> (r: Result<GlobalState, Error>)
    ensures
        r is Ok <==> data@.len() == GLOBAL_STATE_SIZE,
        r matches Ok(gs) ==> global_state_matches(gs, data@),
        r matches Err(e) ==> e == Error::Encoding,
{
    if data.len() != GLOBAL_STATE_SIZE {
        return Err(Error::Encoding);
    }
    let last_finalized_block_number = read_u64_le(data, 0);
    let rollup_config_hash = read_hash32(data, 8);
    Ok(GlobalState { last_finalized_block_number, rollup_config_hash })
}

/// Parses the 8-byte `RollupConfig` layout; any other length is malformed.
pub fn parse_rollup_config(data: &Vec<u8>) -> (r: Result<RollupConfig, Error>)
    ensures
        r is Ok <==> data@.len() == ROLLUP_CONFIG_SIZE,
        r matches Ok(cfg) ==> cfg.finality_blocks == spec_config_finality_blocks(data@),
        r matches Err(e) ==> e == Error::Encoding,
{
    if data.len() != ROLLUP_CONFIG_SIZE {
        return Err(Error::Encoding);
    }
    let finality_blocks = read_u64_le(data, 0);
    Ok(RollupConfig { finality_blocks })
}

/// Position of the first cell in `cells` whose type-script hash equals
/// `rollup_type_hash`.
pub fn search_rollup_cell(rollup_type_hash: &[u8; 32], cells: &Vec<CellInfo>) -> (r: Option<usize>)
    ensures
        r matches Some(i) ==> is_first_type_match(cells@, rollup_type_hash@, i as int),
        r is None ==> !has_cell_with_type_hash(cells@, rollup_type_hash@),
{
    let mut i: usize = 0;
    while i < cells.len()
        invariant
            0 <= i <= cells@.len(),
            forall|j: int| 0 <= j < i ==> !cell_has_type_hash(#[trigger] cells@[j], rollup_type_hash@),
        decreases cells@.len() - i,
    {
        let matched = match &cells[i].type_script_hash {
            Some(t) => hash32_eq(t, rollup_type_hash),
            None => false,
        };
        if matched {
            return Some(i);
        }
        i += 1;
    }
    None
}

/// Position of the first cell in `cells` whose lock-script hash equals
/// `lock_hash`.
pub fn search_lock_hash(lock_hash: &[u8; 32], cells: &Vec<CellInfo>) -> (r: Option<usize>)
    ensures
        r matches Some(i) ==> 0 <= i < cells@.len() && cell_has_lock_hash(
            cells@[i as int],
            lock_hash@,
        ) && forall|j: int| 0 <= j < i ==> !cell_has_lock_hash(#[trigger] cells@[j], lock_hash@),
        r is None ==> !has_cell_with_lock_hash(cells@, lock_hash@),
{
    let mut i: usize = 0;
    while i < cells.len()
        invariant
            0 <= i <= cells@.len(),
            forall|j: int| 0 <= j < i ==> !cell_has_lock_hash(#[trigger] cells@[j], lock_hash@),
        decreases cells@.len() - i,
    {
        if hash32_eq(&cells[i].lock_script_hash, lock_hash) {
            return Some(i);
        }
        i += 1;
    }
    None
}

/// Locates the rollup cell among `cells` and parses its data as a
/// `GlobalState`.  Absence is not an error; a present cell with a malformed
/// layout is.
pub fn search_rollup_state(rollup_type_hash: &[u8; 32], cells: &Vec<CellInfo>) -> (r: Result<
    Option<GlobalState>,
    Error,
>)
    ensures
        match r {
            Ok(og) => match og {
                None => !has_cell_with_type_hash(cells@, rollup_type_hash@),
                Some(gs) => exists|i: int|
                    #[trigger] is_first_type_match(cells@, rollup_type_hash@, i)
                        && cells@[i].data@.len() == GLOBAL_STATE_SIZE && global_state_matches(
                        gs,
                        cells@[i].data@,
                    ),
            },
            Err(e) => e == Error::Encoding && exists|i: int|
                #[trigger] is_first_type_match(cells@, rollup_type_hash@, i)
                    && cells@[i].data@.len() != GLOBAL_STATE_SIZE,
        },
        r matches Ok(og) && og is None <==> !has_cell_with_type_hash(cells@, rollup_type_hash@),
{
    match search_rollup_cell(rollup_type_hash, cells) {
        None => Ok(None),
        Some(i) => {
            proof {
                assert(is_first_type_match(cells@, rollup_type_hash@, i as int));
            }
            match parse_global_state(&cells[i].data) {
                Ok(gs) => Ok(Some(gs)),
                Err(e) => Err(e),
            }
        },
    }
}

/// Loads the `RollupConfig` referenced by `rollup_config_hash`: the first
/// cell whose data hash matches carries the config's bytes.
pub fn load_rollup_config(rollup_config_hash: &[u8; 32], cells: &Vec<CellInfo>) -> (r: Result<
    RollupConfig,
    Error,
>)
    ensures
        r matches Ok(cfg) ==> exists|i: int|
            #[trigger] is_first_data_hash_match(cells@, rollup_config_hash@, i)
                && cells@[i].data@.len() == ROLLUP_CONFIG_SIZE && cfg.finality_blocks
                == spec_config_finality_blocks(cells@[i].data@),
        r == Err::<RollupConfig, Error>(Error::RollupConfigNotFound) <==> (forall|i: int|
            0 <= i < cells@.len() ==> !cell_has_data_hash(#[trigger] cells@[i], rollup_config_hash@)),
        r matches Err(e) ==> e == Error::RollupConfigNotFound || (e == Error::Encoding && exists|
            i: int,
        |
            #[trigger] is_first_data_hash_match(cells@, rollup_config_hash@, i)
                && cells@[i].data@.len() != ROLLUP_CONFIG_SIZE),
{
    let mut i: usize = 0;
    while i < cells.len()
        invariant
            0 <= i <= cells@.len(),
            forall|j: int| 0 <= j < i ==> !cell_has_data_hash(#[trigger] cells@[j], rollup_config_hash@),
        decreases cells@.len() - i,
    {
        if hash32_eq(&cells[i].data_hash, rollup_config_hash) {
            proof {
                assert(is_first_data_hash_match(cells@, rollup_config_hash@, i as int));
            }
            return parse_rollup_config(&cells[i].data);
        }
        i += 1;
    }
    Err(Error::RollupConfigNotFound)
}

} // verus!
