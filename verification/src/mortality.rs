//! Extrinsic mortality: how long an extrinsic built by the worker stays
//! valid, anchored at the latest parentchain header the worker has seen.
//!
//! The era arithmetic follows the parentchain's convention: the validity
//! period is the next power of two of the requested lifetime, clamped to
//! `[4, 65536]`, and the phase is the anchor block number within that
//! period, quantized so that eras fall on coarse boundaries.

use vstd::prelude::*;
use crate::hashing::H256;
use crate::primitives::BlockRef;

verus! {

/// How long an extrinsic may live: forever, or for `Mortal(period, phase)`.
#[derive(Clone, Copy, Debug, PartialEq, Eq, Structural)]
pub enum Era {
    Immortal,
    Mortal(u64, u64),
}

/// An era together with the block hash it is anchored at.
#[derive(Clone, Copy, Debug)]
pub struct GenericMortality {
    pub era: Era,
    pub mortality_checkpoint: Option<H256>,
}

/// Doubles `p` until it reaches `n` or the ceiling of 65536.
pub open spec fn period_from(p: u64, n: u64) -> u64
    decreases
            (if p < 65536 {
                65536 - p
            } else {
                0int
            }),
{
    if p == 0 || p >= 65536 || p >= n {
        p
    } else {
        period_from((2 * p) as u64, n)
    }
}

/// The validity period for a requested lifetime: its next power of two,
/// clamped to `[4, 65536]`.
pub open spec fn mortal_period(blocks_to_live: u64) -> u64 {
    period_from(4, blocks_to_live)
}

/// The era of an extrinsic anchored at block `current` that should live for
/// `blocks_to_live` blocks.
pub open spec fn spec_era_mortal(blocks_to_live: u64, current: u64) -> Era {
    let period = mortal_period(blocks_to_live);
    let phase = current % period;
    let quantize_factor = if period / 4096 > 1 {
        period / 4096
    } else {
        1u64
    };
    Era::Mortal(period, ((phase / quantize_factor) * quantize_factor) as u64)
}

/// Computes the clamped validity period.
fn compute_period(blocks_to_live: u64) -> (r: u64)
    ensures
        r == mortal_period(blocks_to_live),
        4 <= r <= 65536,
{
    let mut p: u64 = 4;
    while p < 65536 && p < blocks_to_live
        invariant
            p == 4 || p == 8 || p == 16 || p == 32 || p == 64 || p == 128 || p == 256 || p == 512
                || p == 1024 || p == 2048 || p == 4096 || p == 8192 || p == 16384 || p == 32768
                || p == 65536,
            mortal_period(blocks_to_live) == period_from(p, blocks_to_live),
        decreases 65536 - p,
    {
        p = p * 2;
    }
    p
}

/// Computes the era of an extrinsic anchored at `current` that should live
/// for `blocks_to_live` blocks.
pub fn era_mortal(blocks_to_live: u64, current: u64) -> (r: Era)
    ensures
        r == spec_era_mortal(blocks_to_live, current),
{
    let period = compute_period(blocks_to_live);
    let phase = current % period;
    let quantize_factor = if period / 4096 > 1 {
        period / 4096
    } else {
        1u64
    };
    proof {
        assert((phase / quantize_factor) * quantize_factor <= phase) by (nonlinear_arith)
            requires quantize_factor > 0, phase >= 0;
    }
    Era::Mortal(period, (phase / quantize_factor) * quantize_factor)
}

/// The mortality of the next extrinsic: anchored at the latest parentchain
/// header if one is known, immortal otherwise.
///
/// The header comes unverified from the outside; nothing here depends on
/// its truth — a wrong anchor merely mis-times the extrinsic.
pub fn try_mortality(blocks_to_live: u64, latest_header: Option<BlockRef>) -> (r: GenericMortality)
    ensures
        latest_header matches Some(h) ==> r.era == spec_era_mortal(blocks_to_live, h.number)
            && r.mortality_checkpoint == Some(h.hash),
        latest_header is None ==> r.era == Era::Immortal && r.mortality_checkpoint is None,
{
    match latest_header {
        Some(h) => GenericMortality {
            era: era_mortal(blocks_to_live, h.number),
            mortality_checkpoint: Some(h.hash),
        },
        None => GenericMortality { era: Era::Immortal, mortality_checkpoint: None },
    }
}

} // verus!
