//! Accounting for the reduction harness.
//!
//! The harness partitions a requested repeat count `R` across a fixed pool of
//! `T` workers. Work distribution is static: each worker is assigned
//! `floor(R / T)` trials up front, so exactly `floor(R / T) * T` trials run
//! and any remainder of `R` is silently dropped. The final statistic divides
//! the accumulated sum by the originally requested `R`, not by the (possibly
//! smaller) effective count — both behaviours are preserved deliberately, as
//! benchmark compatibility. Configuration errors are fatal before any work
//! starts.

use crate::grid::spec_reward;
use crate::grid::Coord;
use vstd::arithmetic::div_mod::lemma_fundamental_div_mod;
use vstd::arithmetic::div_mod::lemma_mod_bound;
use vstd::arithmetic::div_mod::lemma_mod_multiples_basic;
use vstd::arithmetic::div_mod::lemma_remainder;
use vstd::prelude::*;

verus! {

/// A configuration error, fatal before any work starts.
#[derive(Clone, Copy, Debug, PartialEq, Eq, Structural)]
pub enum ConfigError {
    /// The trailing window must hold at least one value; a capacity of zero
    /// would make its cursor arithmetic meaningless.
    ZeroWindowCapacity,
    /// With an empty worker pool no trial could ever run.
    ZeroWorkers,
    /// A goal coordinate lies outside the grid, so it could never be reached.
    GoalOutsideGrid,
}

/// The static partition of a requested repeat count across a worker pool.
#[derive(Clone, Copy, Debug, PartialEq, Eq, Structural)]
pub struct ReductionPlan {
    /// The repeat count that was asked for; the final statistic divides by
    /// this, whether or not every requested trial runs.
    pub requested: usize,
    /// The size of the worker pool.
    pub workers: usize,
    /// How many trials actually run: the largest multiple of `workers` that
    /// does not exceed `requested`.
    pub effective: usize,
    /// How many trials each worker runs.
    pub per_worker: usize,
}

/// Checks the configuration invariants that must hold before any work starts,
/// reporting the first violation among: a window capacity of zero, a worker
/// pool of size zero, a reward goal outside the `width × height` grid.
pub fn validate_config(window_capacity: usize, workers: usize, width: usize, height: usize) -> (r:
    Result<(), ConfigError>)
    ensures
        window_capacity == 0 ==> r == Err::<(), ConfigError>(ConfigError::ZeroWindowCapacity),
        window_capacity > 0 && workers == 0 ==> r == Err::<(), ConfigError>(
            ConfigError::ZeroWorkers,
        ),
        window_capacity > 0 && workers > 0 && !(forall|c: Coord|
            #[trigger] spec_reward(c) != 0 ==> c.x < width && c.y < height) ==> r == Err::<
            (),
            ConfigError,
        >(ConfigError::GoalOutsideGrid),
        window_capacity > 0 && workers > 0 && (forall|c: Coord|
            #[trigger] spec_reward(c) != 0 ==> c.x < width && c.y < height) ==> r == Ok::<
            (),
            ConfigError,
        >(()),
{
    if window_capacity == 0 {
        Err(ConfigError::ZeroWindowCapacity)
    } else if workers == 0 {
        Err(ConfigError::ZeroWorkers)
    } else if !crate::grid::goals_within(width, height) {
        Err(ConfigError::GoalOutsideGrid)
    } else {
        Ok(())
    }
}

/// Partitions `requested` trials across `workers` workers: each worker gets
/// `floor(requested / workers)` trials, so `floor(requested / workers) *
/// workers` trials run in total and the remainder of `requested` is dropped.
pub fn plan_reduction(requested: usize, workers: usize) -> (p: ReductionPlan)
    requires
        0 < workers,
    ensures
        p.requested == requested,
        p.workers == workers,
        p.per_worker == requested / workers,
        p.effective == p.per_worker * p.workers,
        p.effective <= requested,
        requested - p.effective < workers,
{
    let per_worker = requested / workers;
    proof {
        lemma_remainder(requested as int, workers as int);
    }
    let effective = per_worker * workers;
    ReductionPlan { requested, workers, effective, per_worker }
}

/// Reduction accounting law: of `requested` trials partitioned over a pool of
/// `workers`, exactly `floor(requested / workers) * workers` run — never more
/// than asked, with fewer than `workers` dropped — and the count that runs
/// divides evenly among the workers; nothing is dropped exactly when
/// `workers` divides `requested`.
pub proof fn lemma_reduction_accounting(requested: int, workers: int)
    requires
        0 <= requested,
        0 < workers,
    ensures
        (requested / workers) * workers <= requested,
        requested - (requested / workers) * workers < workers,
        ((requested / workers) * workers) % workers == 0,
        (requested / workers) * workers == requested <==> requested % workers == 0,
{
    lemma_remainder(requested, workers);
    lemma_mod_multiples_basic(requested / workers, workers);
    lemma_fundamental_div_mod(requested, workers);
    lemma_mod_bound(requested, workers);
    assert(workers * (requested / workers) == (requested / workers) * workers) by (nonlinear_arith);
}

} // verus!
