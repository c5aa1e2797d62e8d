//! The rand-1-bin differential-evolution engine, phrased over order keys.
//!
//! One generation runs in four verified stages.  `plan_generation` draws,
//! for every target row, three pairwise-distinct donor indices, one
//! guaranteed-crossover dimension and a crossover mask.  The host then
//! computes the differential mutant of every masked cell and encodes it as
//! a key; `build_trials` clamps those mutants into the box bounds and
//! copies the target's remaining cells, so every trial row stays inside
//! the bounds.  After the host has evaluated the trial rows,
//! `select_generation` replaces each individual by its trial exactly on
//! strict improvement and keeps the best solution seen, never letting a
//! cost or the best rise.

use vstd::prelude::*;
use crate::config::OptimizationConfig;
use crate::error::ToolError;
use crate::keys::{
    clamp, clamp_key, fold_min, lemma_fold_min_push, INFINITY_KEY, ZERO_KEY,
};
use crate::sampling::{sample_index, sample_raw};

verus! {

/// The candidate matrix of one run with its aligned cost vector: row `i`
/// is candidate `i`'s position, `costs[i]` its last evaluated cost.
pub struct Population {
    pub cells: Vec<Vec<u64>>,
    pub costs: Vec<u64>,
}

impl Population {
    /// Shape and bounds invariant: one row and one cost per individual,
    /// every row of full dimensionality, every cell inside its
    /// dimension's box bounds.
    pub open spec fn wf(&self, cfg: OptimizationConfig) -> bool {
        &&& self.cells@.len() == cfg.pop_size
        &&& self.costs@.len() == cfg.pop_size
        &&& forall|i: int|
            0 <= i < cfg.pop_size ==> (#[trigger] self.cells@[i])@.len() == cfg.dimensions
        &&& forall|i: int, j: int|
            0 <= i < cfg.pop_size && 0 <= j < cfg.dimensions ==> cfg.bounds_min@[j]
                <= (#[trigger] self.cells@[i]@[j]) && self.cells@[i]@[j] <= cfg.bounds_max@[j]
    }
}

/// The best (cost, position) pair seen so far in one run.
pub struct BestSolution {
    pub cost: u64,
    pub position: Vec<u64>,
}

/// What mutation decided for one target row: the three donors, the
/// dimension on which crossover is guaranteed, and the full mask.
pub struct RowPlan {
    pub donor_a: usize,
    pub donor_b: usize,
    pub donor_c: usize,
    pub forced_dim: usize,
    pub crossover: Vec<bool>,
}

impl RowPlan {
    /// Donors are in range and pairwise distinct; the forced dimension is
    /// in range and its mask bit is set, so at least one dimension of the
    /// trial row takes the mutant.
    pub open spec fn wf(&self, cfg: OptimizationConfig) -> bool {
        &&& self.donor_a < cfg.pop_size
        &&& self.donor_b < cfg.pop_size
        &&& self.donor_c < cfg.pop_size
        &&& self.donor_a != self.donor_b
        &&& self.donor_a != self.donor_c
        &&& self.donor_b != self.donor_c
        &&& self.forced_dim < cfg.dimensions
        &&& self.crossover@.len() == cfg.dimensions
        &&& self.crossover@[self.forced_dim as int]
    }

    /// A mask that crosses over nothing but the guaranteed dimension.
    pub open spec fn forced_only(&self, cfg: OptimizationConfig) -> bool {
        forall|j: int|
            0 <= j < cfg.dimensions ==> ((#[trigger] self.crossover@[j]) <==> j
                == self.forced_dim)
    }
}

/// One plan per target row of the generation.
pub struct GenerationPlan {
    pub rows: Vec<RowPlan>,
}

impl GenerationPlan {
    pub open spec fn wf(&self, cfg: OptimizationConfig) -> bool {
        &&& self.rows@.len() == cfg.pop_size
        &&& forall|i: int| 0 <= i < cfg.pop_size ==> (#[trigger] self.rows@[i]).wf(cfg)
    }
}

/// Draws the mutation decisions for one target row: donors uniform over
/// the population and pairwise distinct, one uniform guaranteed-crossover
/// dimension, and one crossover coin per dimension, a coin falling heads
/// when a raw 64-bit draw lies below `cr_threshold` (the host's
/// fixed-point rendering of the crossover probability).
fn plan_row(cfg: &OptimizationConfig, cr_threshold: u64) -> (r: RowPlan)
    requires
        cfg.wf(),
    ensures
        r.wf(*cfg),
        cr_threshold == 0 ==> r.forced_only(*cfg),
{
    let p: usize = cfg.pop_size;
    let donor_a: usize = sample_index(p);
    // A draw over the remaining p - 1 indices, folded around the hole at
    // `donor_a`, keeps the donors distinct without rejection loops.
    let off_b: usize = sample_index(p - 1);
    let gap: usize = p - 1 - donor_a;
    let donor_b: usize = if off_b < gap {
        donor_a + 1 + off_b
    } else {
        off_b - gap
    };
    // Likewise over the p - 2 indices outside {donor_a, donor_b}.
    let lo: usize = if donor_a < donor_b {
        donor_a
    } else {
        donor_b
    };
    let hi: usize = if donor_a < donor_b {
        donor_b
    } else {
        donor_a
    };
    let off_c: usize = sample_index(p - 2);
    let mut donor_c: usize = off_c;
    if donor_c >= lo {
        donor_c += 1;
    }
    if donor_c >= hi {
        donor_c += 1;
    }
    let forced_dim: usize = sample_index(cfg.dimensions);
    let mut crossover: Vec<bool> = Vec::new();
    let mut j: usize = 0;
    while j < cfg.dimensions
        invariant
            j <= cfg.dimensions,
            crossover@.len() == j,
            cr_threshold == 0 ==> forall|k: int| 0 <= k < j ==> !(#[trigger] crossover@[k]),
        decreases cfg.dimensions - j,
    {
        let draw: u64 = sample_raw();
        // A raw draw is never below a zero threshold, so a zero
        // crossover probability leaves every coin tails.
        crossover.push(draw < cr_threshold);
        j += 1;
    }
    crossover[forced_dim] = true;
    RowPlan { donor_a, donor_b, donor_c, forced_dim, crossover }
}

/// Draws one full generation's mutation decisions.  A zero crossover
/// threshold pins the masks down completely: only the guaranteed
/// dimension of each row is crossed over.
pub fn plan_generation(cfg: &OptimizationConfig, cr_threshold: u64) -> (r: GenerationPlan)
    requires
        cfg.wf(),
    ensures
        r.wf(*cfg),
        cr_threshold == 0 ==> forall|i: int|
            0 <= i < cfg.pop_size ==> (#[trigger] r.rows@[i]).forced_only(*cfg),
{
    let mut rows: Vec<RowPlan> = Vec::new();
    let mut i: usize = 0;
    while i < cfg.pop_size
        invariant
            i <= cfg.pop_size,
            cfg.wf(),
            rows@.len() == i,
            forall|k: int| 0 <= k < i ==> (#[trigger] rows@[k]).wf(*cfg),
            cr_threshold == 0 ==> forall|k: int|
                0 <= k < i ==> (#[trigger] rows@[k]).forced_only(*cfg),
        decreases cfg.pop_size - i,
    {
        let row: RowPlan = plan_row(cfg, cr_threshold);
        rows.push(row);
        i += 1;
    }
    GenerationPlan { rows }
}

/// An element-for-element copy of one row.
fn copy_row(src: &Vec<u64>) -> (r: Vec<u64>)
    ensures
        r@ == src@,
{
    let mut r: Vec<u64> = Vec::new();
    let mut j: usize = 0;
    while j < src.len()
        invariant
            j <= src@.len(),
            r@ == src@.take(j as int),
        decreases src@.len() - j,
    {
        r.push(src[j]);
        assert(src@.take(j + 1 as int) =~= src@.take(j as int).push(src@[j as int]));
        j += 1;
    }
    assert(src@.take(src@.len() as int) =~= src@);
    r
}

/// Builds the initial population from the host's uniform draws and their
/// evaluated costs.  Each supplied coordinate is saturated into its box
/// bounds — the identity for a draw that already lies inside them — so
/// the population invariant holds regardless of the sampler; a cost
/// vector whose length is not the population size is the evaluation
/// protocol's shape violation and aborts the run.
pub fn initialize_population(
    cfg: &OptimizationConfig,
    raw_cells: Vec<Vec<u64>>,
    costs: Vec<u64>,
) -> (r: Result<Population, ToolError>)
    requires
        cfg.wf(),
        raw_cells@.len() == cfg.pop_size,
        forall|i: int|
            0 <= i < cfg.pop_size ==> (#[trigger] raw_cells@[i])@.len() == cfg.dimensions,
    ensures
        match r {
            Ok(pop) => {
                &&& costs@.len() == cfg.pop_size
                &&& pop.wf(*cfg)
                &&& pop.costs@ == costs@
                &&& forall|i: int, j: int|
                    0 <= i < cfg.pop_size && 0 <= j < cfg.dimensions ==> (#[trigger] pop.cells@[i]@[j])
                        == clamp_key(raw_cells@[i]@[j], cfg.bounds_min@[j], cfg.bounds_max@[j])
            },
            Err(e) => e == ToolError::ShapeMismatch && costs@.len() != cfg.pop_size,
        },
{
    if costs.len() != cfg.pop_size {
        return Err(ToolError::ShapeMismatch);
    }
    let mut cells: Vec<Vec<u64>> = Vec::new();
    let mut i: usize = 0;
    while i < cfg.pop_size
        invariant
            i <= cfg.pop_size,
            cfg.wf(),
            raw_cells@.len() == cfg.pop_size,
            forall|k: int|
                0 <= k < cfg.pop_size ==> (#[trigger] raw_cells@[k])@.len() == cfg.dimensions,
            cells@.len() == i,
            forall|k: int| 0 <= k < i ==> (#[trigger] cells@[k])@.len() == cfg.dimensions,
            forall|k: int, j: int|
                0 <= k < i && 0 <= j < cfg.dimensions ==> (#[trigger] cells@[k]@[j]) == clamp_key(
                    raw_cells@[k]@[j],
                    cfg.bounds_min@[j],
                    cfg.bounds_max@[j],
                ),
        decreases cfg.pop_size - i,
    {
        let mut row: Vec<u64> = Vec::new();
        let mut j: usize = 0;
        while j < cfg.dimensions
            invariant
                j <= cfg.dimensions,
                cfg.wf(),
                raw_cells@.len() == cfg.pop_size,
                i < cfg.pop_size,
                raw_cells@[i as int]@.len() == cfg.dimensions,
                row@.len() == j,
                forall|m: int|
                    0 <= m < j ==> (#[trigger] row@[m]) == clamp_key(
                        raw_cells@[i as int]@[m],
                        cfg.bounds_min@[m],
                        cfg.bounds_max@[m],
                    ),
            decreases cfg.dimensions - j,
        {
            row.push(clamp(raw_cells[i][j], cfg.bounds_min[j], cfg.bounds_max[j]));
            j += 1;
        }
        cells.push(row);
        i += 1;
    }
    assert forall|i: int, j: int|
        0 <= i < cfg.pop_size && 0 <= j < cfg.dimensions implies cfg.bounds_min@[j] <= (
    #[trigger] cells@[i]@[j]) && cells@[i]@[j] <= cfg.bounds_max@[j] by {
        assert(cells@[i]@[j] == clamp_key(raw_cells@[i]@[j], cfg.bounds_min@[j], cfg.bounds_max@[j]));
    }
    Ok(Population { cells, costs })
}

/// Scans the freshly evaluated population for its best individual.  The
/// scan starts from the key of positive infinity and takes every strict
/// improvement, so the result's cost is the least cost, attained at the
/// first row that reaches it; when nothing beats infinity the position
/// stays at the zero vector.
pub fn initial_best(cfg: &OptimizationConfig, pop: &Population) -> (r: BestSolution)
    requires
        cfg.wf(),
        pop.wf(*cfg),
    ensures
        r.position@.len() == cfg.dimensions,
        r.cost == fold_min(INFINITY_KEY, pop.costs@),
        forall|i: int| 0 <= i < cfg.pop_size ==> r.cost <= #[trigger] pop.costs@[i],
        r.cost != INFINITY_KEY ==> exists|i: int|
            0 <= i < cfg.pop_size && pop.costs@[i] == r.cost && r.position@ == pop.cells@[i]@
                && forall|k: int| 0 <= k < i ==> #[trigger] pop.costs@[k] > r.cost,
        r.cost == INFINITY_KEY ==> forall|j: int|
            0 <= j < cfg.dimensions ==> #[trigger] r.position@[j] == ZERO_KEY,
{
    let mut best_cost: u64 = INFINITY_KEY;
    let mut best_pos: Vec<u64> = Vec::new();
    let mut j: usize = 0;
    while j < cfg.dimensions
        invariant
            j <= cfg.dimensions,
            best_pos@.len() == j,
            forall|m: int| 0 <= m < j ==> #[trigger] best_pos@[m] == ZERO_KEY,
        decreases cfg.dimensions - j,
    {
        best_pos.push(ZERO_KEY);
        j += 1;
    }
    let ghost mut wit: int = 0;
    let mut i: usize = 0;
    while i < cfg.pop_size
        invariant
            i <= cfg.pop_size,
            cfg.wf(),
            pop.wf(*cfg),
            best_pos@.len() == cfg.dimensions,
            best_cost == fold_min(INFINITY_KEY, pop.costs@.take(i as int)),
            best_cost != INFINITY_KEY ==> 0 <= wit < i && pop.costs@[wit] == best_cost
                && best_pos@ == pop.cells@[wit]@ && (forall|k: int|
                0 <= k < wit ==> #[trigger] pop.costs@[k] > best_cost),
            best_cost == INFINITY_KEY ==> forall|m: int|
                0 <= m < best_pos@.len() ==> #[trigger] best_pos@[m] == ZERO_KEY,
        decreases cfg.pop_size - i,
    {
        proof {
            assert(pop.costs@.take(i + 1 as int) =~= pop.costs@.take(i as int).push(
                pop.costs@[i as int],
            ));
            lemma_fold_min_push(INFINITY_KEY, pop.costs@.take(i as int), pop.costs@[i as int]);
            crate::keys::lemma_fold_min_bounds(INFINITY_KEY, pop.costs@.take(i as int));
        }
        let c: u64 = pop.costs[i];
        if c < best_cost {
            proof {
                assert forall|k: int| 0 <= k < i implies #[trigger] pop.costs@[k] > c by {
                    assert(pop.costs@.take(i as int)[k] == pop.costs@[k]);
                }
            }
            best_cost = c;
            best_pos = copy_row(&pop.cells[i]);
            proof {
                wit = i as int;
            }
        }
        i += 1;
    }
    proof {
        assert(pop.costs@.take(pop.costs@.len() as int) =~= pop.costs@);
        crate::keys::lemma_fold_min_bounds(INFINITY_KEY, pop.costs@);
        if best_cost != INFINITY_KEY {
            assert(0 <= wit < cfg.pop_size && pop.costs@[wit] == best_cost && best_pos@
                == pop.cells@[wit]@ && (forall|k: int|
                0 <= k < wit ==> #[trigger] pop.costs@[k] > best_cost));
        }
    }
    BestSolution { cost: best_cost, position: best_pos }
}

/// Which of the two interchangeable evaluation protocols a fitness
/// argument selects.
#[derive(Clone, Copy, Debug, PartialEq, Eq, Structural)]
pub enum EvaluatorChoice {
    /// The precompiled batch routine, invoked by validated handle.
    Native,
    /// The host-level batch callable.
    Managed,
}

/// The fitness-argument dispatch: an argument readable as a native
/// address selects the native evaluator, anything merely callable the
/// managed one, in that order; an argument that is neither is the
/// type-mismatch rejection.  The host reads the two capabilities off its
/// argument and lets this function decide.
pub fn choose_evaluator(is_address: bool, is_callable: bool) -> (r: Result<
    EvaluatorChoice,
    ToolError,
>)
    ensures
        is_address ==> r == Result::<EvaluatorChoice, ToolError>::Ok(EvaluatorChoice::Native),
        !is_address && is_callable ==> r == Result::<EvaluatorChoice, ToolError>::Ok(
            EvaluatorChoice::Managed,
        ),
        !is_address && !is_callable ==> r == Result::<EvaluatorChoice, ToolError>::Err(
            ToolError::FitnessNotCallable,
        ),
{
    if is_address {
        Ok(EvaluatorChoice::Native)
    } else if is_callable {
        Ok(EvaluatorChoice::Managed)
    } else {
        Err(ToolError::FitnessNotCallable)
    }
}

/// The mutation engine's execution-strategy decision: rows are fanned
/// out across parallel workers exactly when the population matrix holds
/// more than 200,000 cells; below that, one shared sequential source of
/// randomness is cheaper.  The two strategies are statistically
/// equivalent, so nothing else in the engine depends on the choice.
pub fn use_parallel_strategy(pop_size: usize, dimensions: usize) -> (r: bool)
    ensures
        r == (pop_size * dimensions > 200000),
{
    if dimensions == 0 {
        return false;
    }
    let q: usize = 200000 / dimensions;
    proof {
        let d: int = dimensions as int;
        let qi: int = q as int;
        vstd::arithmetic::div_mod::lemma_fundamental_div_mod(200000int, d);
        vstd::arithmetic::div_mod::lemma_mod_bound(200000int, d);
        assert((pop_size as int) * d > 200000 <==> pop_size as int > qi) by (nonlinear_arith)
            requires
                d >= 1,
                qi == 200000int / d,
                200000int == d * (200000int / d) + (200000int % d),
                0 <= 200000int % d < d,
        ;
    }
    pop_size > q
}

/// Builds the trial population from the host's mutant keys.  The cell of
/// a masked dimension is the mutant saturated into that dimension's
/// bounds; every other cell is copied from the target row unchanged.  So
/// every trial cell lies within the bounds, and the guaranteed-crossover
/// dimension always carries the clamped mutant, never a copy.
pub fn build_trials(
    cfg: &OptimizationConfig,
    pop: &Population,
    plan: &GenerationPlan,
    mutants: &Vec<Vec<u64>>,
) -> (r: Vec<Vec<u64>>)
    requires
        cfg.wf(),
        pop.wf(*cfg),
        plan.wf(*cfg),
        mutants@.len() == cfg.pop_size,
        forall|i: int|
            0 <= i < cfg.pop_size ==> (#[trigger] mutants@[i])@.len() == cfg.dimensions,
    ensures
        r@.len() == cfg.pop_size,
        forall|i: int| 0 <= i < cfg.pop_size ==> (#[trigger] r@[i])@.len() == cfg.dimensions,
        forall|i: int, j: int|
            0 <= i < cfg.pop_size && 0 <= j < cfg.dimensions ==> (#[trigger] r@[i]@[j]) == (
            if plan.rows@[i].crossover@[j] {
                clamp_key(mutants@[i]@[j], cfg.bounds_min@[j], cfg.bounds_max@[j])
            } else {
                pop.cells@[i]@[j]
            }),
        forall|i: int, j: int|
            0 <= i < cfg.pop_size && 0 <= j < cfg.dimensions ==> cfg.bounds_min@[j] <= (
            #[trigger] r@[i]@[j]) && r@[i]@[j] <= cfg.bounds_max@[j],
        forall|i: int|
            0 <= i < cfg.pop_size ==> (#[trigger] r@[i])@[plan.rows@[i].forced_dim as int]
                == clamp_key(
                mutants@[i]@[plan.rows@[i].forced_dim as int],
                cfg.bounds_min@[plan.rows@[i].forced_dim as int],
                cfg.bounds_max@[plan.rows@[i].forced_dim as int],
            ),
{
    let mut trials: Vec<Vec<u64>> = Vec::new();
    let mut i: usize = 0;
    while i < cfg.pop_size
        invariant
            i <= cfg.pop_size,
            cfg.wf(),
            pop.wf(*cfg),
            plan.wf(*cfg),
            mutants@.len() == cfg.pop_size,
            forall|k: int|
                0 <= k < cfg.pop_size ==> (#[trigger] mutants@[k])@.len() == cfg.dimensions,
            trials@.len() == i,
            forall|k: int| 0 <= k < i ==> (#[trigger] trials@[k])@.len() == cfg.dimensions,
            forall|k: int, j: int|
                0 <= k < i && 0 <= j < cfg.dimensions ==> (#[trigger] trials@[k]@[j]) == (
                if plan.rows@[k].crossover@[j] {
                    clamp_key(mutants@[k]@[j], cfg.bounds_min@[j], cfg.bounds_max@[j])
                } else {
                    pop.cells@[k]@[j]
                }),
        decreases cfg.pop_size - i,
    {
        let row_plan = &plan.rows[i];
        let mut row: Vec<u64> = Vec::new();
        let mut j: usize = 0;
        while j < cfg.dimensions
            invariant
                j <= cfg.dimensions,
                cfg.wf(),
                pop.wf(*cfg),
                i < cfg.pop_size,
                mutants@.len() == cfg.pop_size,
                mutants@[i as int]@.len() == cfg.dimensions,
                row_plan == plan.rows@[i as int],
                row_plan.crossover@.len() == cfg.dimensions,
                row@.len() == j,
                forall|m: int|
                    0 <= m < j ==> (#[trigger] row@[m]) == (if row_plan.crossover@[m] {
                        clamp_key(mutants@[i as int]@[m], cfg.bounds_min@[m], cfg.bounds_max@[m])
                    } else {
                        pop.cells@[i as int]@[m]
                    }),
            decreases cfg.dimensions - j,
        {
            if row_plan.crossover[j] {
                row.push(clamp(mutants[i][j], cfg.bounds_min[j], cfg.bounds_max[j]));
            } else {
                row.push(pop.cells[i][j]);
            }
            j += 1;
        }
        trials.push(row);
        i += 1;
    }
    assert forall|i: int, j: int|
        0 <= i < cfg.pop_size && 0 <= j < cfg.dimensions implies cfg.bounds_min@[j] <= (
    #[trigger] trials@[i]@[j]) && trials@[i]@[j] <= cfg.bounds_max@[j] by {
        assert(trials@[i]@[j] == (if plan.rows@[i].crossover@[j] {
            clamp_key(mutants@[i]@[j], cfg.bounds_min@[j], cfg.bounds_max@[j])
        } else {
            pop.cells@[i]@[j]
        }));
    }
    trials
}

/// The best cost after the first `n` greedy replacements of one
/// selection pass: a trial cost takes over exactly when it strictly
/// improves both on its own row's cost and on the best so far.
pub open spec fn best_cost_after(b: u64, costs: Seq<u64>, tcs: Seq<u64>, n: int) -> u64
    decreases n,
{
    if n <= 0 {
        b
    } else {
        let b1: u64 = best_cost_after(b, costs, tcs, n - 1);
        if tcs[n - 1] < costs[n - 1] && tcs[n - 1] < b1 {
            tcs[n - 1]
        } else {
            b1
        }
    }
}

/// Law: a trial row differs from its target row whenever the clamped
/// mutant at the guaranteed-crossover dimension differs from the
/// target's cell there.  That dimension always carries the mutant, never
/// a copy, so the only trial identical to its target is one whose
/// mutants happened to reproduce the target's own cells.
pub proof fn lemma_trial_row_differs(
    trial: Seq<u64>,
    target: Seq<u64>,
    forced: int,
    mutant_cell: u64,
)
    requires
        0 <= forced < trial.len(),
        trial.len() == target.len(),
        trial[forced] == mutant_cell,
        mutant_cell != target[forced],
    ensures
        trial != target,
{
    assert(trial[forced] != target[forced]);
}

/// Law: however the trial costs fall, a selection pass never raises the
/// best-found cost; chained over the generations of one run, the best
/// cost is monotonically non-increasing.
pub proof fn lemma_best_never_rises(b: u64, costs: Seq<u64>, tcs: Seq<u64>, n: int)
    ensures
        best_cost_after(b, costs, tcs, n) <= b,
    decreases n,
{
    if n > 0 {
        lemma_best_never_rises(b, costs, tcs, n - 1);
    }
}

/// Law: a best that lies at or below every current cost still does after
/// a selection pass — the tracked best is a true lower bound of the
/// whole population throughout a run, since the initial scan starts it at
/// the population's minimum.
pub proof fn lemma_best_bounds_population(b: u64, costs: Seq<u64>, tcs: Seq<u64>, n: int)
    requires
        forall|i: int| 0 <= i < n ==> b <= #[trigger] costs[i],
    ensures
        forall|i: int|
            0 <= i < n ==> best_cost_after(b, costs, tcs, n) <= (if tcs[i] < costs[i] {
                tcs[i]
            } else {
                costs[i]
            }),
    decreases n,
{
    if n > 0 {
        lemma_best_bounds_population(b, costs, tcs, n - 1);
        lemma_best_never_rises(b, costs, tcs, n - 1);
        let b1 = best_cost_after(b, costs, tcs, n - 1);
        let b2 = best_cost_after(b, costs, tcs, n);
        assert forall|i: int|
            0 <= i < n implies b2 <= (if tcs[i] < costs[i] {
            tcs[i]
        } else {
            costs[i]
        }) by {
            if i == n - 1 {
                assert(b <= costs[i]);
            }
        }
    }
}

/// Greedy selection with best tracking.  Individual `i` is replaced by
/// its trial exactly when the trial's cost is strictly lower; on a
/// replacement that also strictly beats the best found so far, the best
/// is updated.  A trial-cost vector of the wrong length is the lazy
/// shape violation: it aborts with every state unchanged.  No cost and
/// not the best ever rises.
pub fn select_generation(
    cfg: &OptimizationConfig,
    pop: &mut Population,
    trials: &Vec<Vec<u64>>,
    trial_costs: &Vec<u64>,
    best: &mut BestSolution,
) -> (r: Result<(), ToolError>)
    requires
        cfg.wf(),
        old(pop).wf(*cfg),
        old(best).position@.len() == cfg.dimensions,
        trials@.len() == cfg.pop_size,
        forall|i: int|
            0 <= i < cfg.pop_size ==> (#[trigger] trials@[i])@.len() == cfg.dimensions,
        forall|i: int, j: int|
            0 <= i < cfg.pop_size && 0 <= j < cfg.dimensions ==> cfg.bounds_min@[j] <= (
            #[trigger] trials@[i]@[j]) && trials@[i]@[j] <= cfg.bounds_max@[j],
    ensures
        match r {
            Ok(()) => {
                &&& trial_costs@.len() == cfg.pop_size
                &&& final(pop).wf(*cfg)
                &&& final(best).position@.len() == cfg.dimensions
                &&& forall|i: int|
                    0 <= i < cfg.pop_size ==> (#[trigger] final(pop).costs@[i]) == (
                    if trial_costs@[i] < old(pop).costs@[i] {
                        trial_costs@[i]
                    } else {
                        old(pop).costs@[i]
                    })
                &&& forall|i: int|
                    0 <= i < cfg.pop_size ==> (#[trigger] final(pop).cells@[i])@ == (
                    if trial_costs@[i] < old(pop).costs@[i] {
                        trials@[i]@
                    } else {
                        old(pop).cells@[i]@
                    })
                &&& forall|i: int|
                    0 <= i < cfg.pop_size ==> (#[trigger] final(pop).costs@[i]) <= old(
                        pop,
                    ).costs@[i]
                &&& final(best).cost == best_cost_after(
                    old(best).cost,
                    old(pop).costs@,
                    trial_costs@,
                    cfg.pop_size as int,
                )
                &&& final(best).cost <= old(best).cost
                &&& (final(best).cost == old(best).cost ==> *final(best) == *old(best))
                &&& forall|i: int|
                    0 <= i < cfg.pop_size && (#[trigger] trial_costs@[i]) < old(pop).costs@[i]
                        ==> final(best).cost <= trial_costs@[i]
                &&& (final(best).cost != old(best).cost ==> exists|i: int|
                    0 <= i < cfg.pop_size && (#[trigger] trial_costs@[i]) < old(pop).costs@[i]
                        && trial_costs@[i] == final(best).cost && final(best).position@
                        == trials@[i]@ && (forall|k: int|
                        0 <= k < i ==> !((#[trigger] trial_costs@[k]) < old(pop).costs@[k]
                            && trial_costs@[k] == final(best).cost)))
            },
            Err(e) => {
                &&& e == ToolError::ShapeMismatch
                &&& trial_costs@.len() != cfg.pop_size
                &&& *final(pop) == *old(pop)
                &&& *final(best) == *old(best)
            },
        },
{
    if trial_costs.len() != cfg.pop_size {
        return Err(ToolError::ShapeMismatch);
    }
    let ghost pop0 = *pop;
    let ghost best0 = *best;
    let ghost mut bwit: int = 0;
    let mut i: usize = 0;
    while i < cfg.pop_size
        invariant
            i <= cfg.pop_size,
            cfg.wf(),
            pop0.wf(*cfg),
            best0.position@.len() == cfg.dimensions,
            trials@.len() == cfg.pop_size,
            trial_costs@.len() == cfg.pop_size,
            forall|k: int|
                0 <= k < cfg.pop_size ==> (#[trigger] trials@[k])@.len() == cfg.dimensions,
            forall|k: int, j: int|
                0 <= k < cfg.pop_size && 0 <= j < cfg.dimensions ==> cfg.bounds_min@[j] <= (
                #[trigger] trials@[k]@[j]) && trials@[k]@[j] <= cfg.bounds_max@[j],
            pop.costs@.len() == cfg.pop_size,
            pop.cells@.len() == cfg.pop_size,
            forall|k: int| i <= k < cfg.pop_size ==> (#[trigger] pop.costs@[k]) == pop0.costs@[k],
            forall|k: int| i <= k < cfg.pop_size ==> (#[trigger] pop.cells@[k]) == pop0.cells@[k],
            forall|k: int|
                0 <= k < i ==> (#[trigger] pop.costs@[k]) == (if trial_costs@[k] < pop0.costs@[k] {
                    trial_costs@[k]
                } else {
                    pop0.costs@[k]
                }),
            forall|k: int|
                0 <= k < i ==> (#[trigger] pop.cells@[k])@ == (if trial_costs@[k]
                    < pop0.costs@[k] {
                    trials@[k]@
                } else {
                    pop0.cells@[k]@
                }),
            best.cost == best_cost_after(best0.cost, pop0.costs@, trial_costs@, i as int),
            best.cost <= best0.cost,
            best.position@.len() == cfg.dimensions,
            best.cost == best0.cost ==> *best == best0,
            forall|k: int|
                0 <= k < i && (#[trigger] trial_costs@[k]) < pop0.costs@[k] ==> best.cost
                    <= trial_costs@[k],
            best.cost != best0.cost ==> (0 <= bwit < i && trial_costs@[bwit] < pop0.costs@[bwit]
                && trial_costs@[bwit] == best.cost && best.position@ == trials@[bwit]@ && (
            forall|k: int|
                0 <= k < bwit ==> !((#[trigger] trial_costs@[k]) < pop0.costs@[k]
                    && trial_costs@[k] == best.cost))),
        decreases cfg.pop_size - i,
    {
        let tc: u64 = trial_costs[i];
        let cur: u64 = pop.costs[i];
        if tc < cur {
            pop.costs[i] = tc;
            let row: Vec<u64> = copy_row(&trials[i]);
            pop.cells[i] = row;
            if tc < best.cost {
                // Any improving row before this one carried a strictly
                // greater trial cost, so this is the first row to reach
                // the new best.
                best.cost = tc;
                best.position = copy_row(&trials[i]);
                proof {
                    bwit = i as int;
                }
            }
        }
        i += 1;
    }
    assert forall|i: int|
        0 <= i < cfg.pop_size implies (#[trigger] pop.costs@[i]) <= pop0.costs@[i] by {}
    assert forall|i: int, j: int|
        0 <= i < cfg.pop_size && 0 <= j < cfg.dimensions implies cfg.bounds_min@[j] <= (
    #[trigger] pop.cells@[i]@[j]) && pop.cells@[i]@[j] <= cfg.bounds_max@[j] by {
        if trial_costs@[i] < pop0.costs@[i] {
            assert(pop.cells@[i]@ == trials@[i]@);
        } else {
            assert(pop.cells@[i]@ == pop0.cells@[i]@);
        }
    }
    Ok(())
}

} // verus!
