//! The dual-mode finality engine.
//!
//! A claim is finalized either by block number — the claim does not exceed
//! the `last_finalized_block_number` committed in the rollup's state — or
//! by timestamp: the effective L1 clock has advanced at least
//! `finality_duration_ms` past the claimed timestamp.  The effective clock
//! is the maximum of the rollup cell's header timestamp and every header
//! dep's timestamp, so an attached header can only advance it, never turn
//! it back.

use vstd::prelude::*;

use crate::context::{has_cell_with_type_hash, is_first_type_match, CellInfo};
use crate::error::Error;
use crate::locator::{search_rollup_cell, GlobalState, RollupConfig};
use crate::timepoint::Timepoint;

verus! {

/// The protocol's approximation of the expected L1 block interval, used to
/// convert a block-count finality margin into milliseconds.
pub const BLOCK_INTERVAL_IN_MILLISECONDS: u64 = 36000;

/// Maximum of the header-dep timestamps, or 0 where none is attached.
pub open spec fn spec_max_header_dep_timestamp(timestamps: Seq<u64>) -> int
    decreases timestamps.len(),
{
    if timestamps.len() == 0 {
        0
    } else {
        let rest = spec_max_header_dep_timestamp(timestamps.drop_last());
        if timestamps.last() as int > rest {
            timestamps.last() as int
        } else {
            rest
        }
    }
}

/// The effective L1 clock: the rollup cell's header timestamp or any
/// header dep's timestamp, whichever is largest.
pub open spec fn spec_l1_timestamp(rollup_cell_timestamp: u64, header_dep_timestamps: Seq<u64>) -> int {
    let m = spec_max_header_dep_timestamp(header_dep_timestamps);
    if rollup_cell_timestamp as int > m {
        rollup_cell_timestamp as int
    } else {
        m
    }
}

/// The finality margin in milliseconds: a block-number-based margin counts
/// blocks at the fixed interval, a timestamp-based one is already
/// milliseconds.
pub open spec fn spec_finality_duration_ms(finality_timepoint: Timepoint) -> int {
    if finality_timepoint.spec_is_block_number_based() {
        finality_timepoint.spec_value() * BLOCK_INTERVAL_IN_MILLISECONDS
    } else {
        finality_timepoint.spec_value() as int
    }
}

/// The timestamp rule, over unbounded integers: the boundary counts as
/// finalized.
pub open spec fn spec_finalized_by_timestamp(
    l1_timestamp: int,
    claim_timestamp: u64,
    duration_ms: int,
) -> bool {
    l1_timestamp >= claim_timestamp + duration_ms
}

/// Converts a finality margin to milliseconds.
pub fn finality_duration_ms(finality_timepoint: Timepoint) -> (duration_ms: u64)
    requires
        spec_finality_duration_ms(finality_timepoint) <= u64::MAX,
    ensures
        duration_ms == spec_finality_duration_ms(finality_timepoint),
{
    if finality_timepoint.is_block_number_based() {
        finality_timepoint.value() * BLOCK_INTERVAL_IN_MILLISECONDS
    } else {
        finality_timepoint.value()
    }
}

/// Maximum timestamp among the attached header deps, if any.
pub fn obtain_max_timestamp_of_header_deps(header_dep_timestamps: &Vec<u64>) -> (r: Option<u64>)
    ensures
        r matches Some(m) ==> header_dep_timestamps@.len() > 0 && m
            == spec_max_header_dep_timestamp(header_dep_timestamps@),
        r is None <==> header_dep_timestamps@.len() == 0,
{
    if header_dep_timestamps.len() == 0 {
        return None;
    }
    let mut max_ts: u64 = 0;
    let mut i: usize = 0;
    while i < header_dep_timestamps.len()
        invariant
            0 <= i <= header_dep_timestamps@.len(),
            max_ts == spec_max_header_dep_timestamp(header_dep_timestamps@.subrange(0, i as int)),
        decreases header_dep_timestamps@.len() - i,
    {
        let t = header_dep_timestamps[i];
        proof {
            assert(header_dep_timestamps@.subrange(0, i + 1).drop_last() =~= header_dep_timestamps@
                .subrange(0, i as int));
            assert(header_dep_timestamps@.subrange(0, i + 1).last() == header_dep_timestamps@[i as int]);
        }
        if t > max_ts {
            max_ts = t;
        }
        i += 1;
    }
    proof {
        assert(header_dep_timestamps@.subrange(0, header_dep_timestamps@.len() as int)
            =~= header_dep_timestamps@);
    }
    Some(max_ts)
}

/// Header timestamp of the block that included the rollup cell found in
/// `cells`.
pub fn obtain_timestamp_of_rollup_cell(rollup_type_hash: &[u8; 32], cells: &Vec<CellInfo>) -> (r:
    Result<u64, Error>)
    ensures
        r matches Ok(ts) ==> exists|i: int|
            #[trigger] is_first_type_match(cells@, rollup_type_hash@, i)
                && cells@[i].header_timestamp == Some(ts),
        r == Err::<u64, Error>(Error::RollupCellNotFound) <==> !has_cell_with_type_hash(
            cells@,
            rollup_type_hash@,
        ),
        r matches Err(e) ==> e == Error::RollupCellNotFound || (e == Error::IndexOutOfBound
            && exists|i: int|
            #[trigger] is_first_type_match(cells@, rollup_type_hash@, i)
                && cells@[i].header_timestamp is None),
{
    let index = match search_rollup_cell(rollup_type_hash, cells) {
        Some(i) => i,
        None => {
            return Err(Error::RollupCellNotFound);
        },
    };
    proof {
        assert(is_first_type_match(cells@, rollup_type_hash@, index as int));
    }
    match cells[index].header_timestamp {
        Some(ts) => Ok(ts),
        None => Err(Error::IndexOutOfBound),
    }
}

/// The timestamp-mode finality predicate.
///
/// Locates the rollup cell among `cells`, takes the effective L1 clock as
/// the maximum of that cell's header timestamp and every header dep's
/// timestamp, and decides `l1_timestamp >= claim + duration`, with the
/// margin decoded from `rollup_config.finality_blocks`.  The comparison is
/// exact over unbounded integers for every input.
pub fn is_finalized_based_on_timestamp(
    rollup_config: &RollupConfig,
    rollup_type_hash: &[u8; 32],
    timestamp: u64,
    cells: &Vec<CellInfo>,
    header_dep_timestamps: &Vec<u64>,
) -> (r: Result<bool, Error>)
    ensures
        r matches Ok(finalized) ==> exists|i: int|
            {
                &&& #[trigger] is_first_type_match(cells@, rollup_type_hash@, i)
                &&& cells@[i].header_timestamp matches Some(rollup_cell_timestamp)
                &&& finalized == spec_finalized_by_timestamp(
                    spec_l1_timestamp(rollup_cell_timestamp, header_dep_timestamps@),
                    timestamp,
                    spec_finality_duration_ms(
                        Timepoint::spec_from_full_value(rollup_config.finality_blocks),
                    ),
                )
            },
        r == Err::<bool, Error>(Error::RollupCellNotFound) <==> !has_cell_with_type_hash(
            cells@,
            rollup_type_hash@,
        ),
        r matches Err(e) ==> e == Error::RollupCellNotFound || (e == Error::IndexOutOfBound
            && exists|i: int|
            #[trigger] is_first_type_match(cells@, rollup_type_hash@, i)
                && cells@[i].header_timestamp is None),
{
    let rollup_cell_timestamp = match obtain_timestamp_of_rollup_cell(rollup_type_hash, cells) {
        Ok(ts) => ts,
        Err(e) => {
            return Err(e);
        },
    };
    let max_header_timestamp = match obtain_max_timestamp_of_header_deps(header_dep_timestamps) {
        Some(m) => m,
        None => 0,
    };
    let l1_timestamp = if rollup_cell_timestamp > max_header_timestamp {
        rollup_cell_timestamp
    } else {
        max_header_timestamp
    };
    let finality_timepoint = Timepoint::from_full_value(rollup_config.finality_blocks);
    let duration_ms: u128 = if finality_timepoint.is_block_number_based() {
        (finality_timepoint.value() as u128) * (BLOCK_INTERVAL_IN_MILLISECONDS as u128)
    } else {
        finality_timepoint.value() as u128
    };
    Ok((l1_timestamp as u128) >= (timestamp as u128) + duration_ms)
}

/// The block-number-mode finality predicate: the claim is finalized exactly
/// when it does not exceed the committed `last_finalized_block_number`.
pub fn is_finalized_based_on_block_number(global_state: &GlobalState, block_number: u64) -> (r:
    bool)
    ensures
        r == (block_number <= global_state.last_finalized_block_number),
{
    block_number <= global_state.last_finalized_block_number
}

/// Law: attaching one more header dep can only raise or preserve the
/// effective L1 clock, never lower it.
pub proof fn lemma_header_dep_never_lowers_l1(
    rollup_cell_timestamp: u64,
    header_dep_timestamps: Seq<u64>,
    extra: u64,
)
    ensures
        spec_l1_timestamp(rollup_cell_timestamp, header_dep_timestamps.push(extra))
            >= spec_l1_timestamp(rollup_cell_timestamp, header_dep_timestamps),
{
    let pushed = header_dep_timestamps.push(extra);
    assert(pushed.drop_last() =~= header_dep_timestamps);
    assert(pushed.last() == extra);
}

} // verus!
