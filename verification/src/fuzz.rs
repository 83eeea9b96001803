//! The input of a table-creation fuzz run: what is drawn from a seed, and
//! what follows from the draws.

use rand::Rng;
use rand::SeedableRng;
use rand_chacha::ChaChaRng;
use vstd::prelude::*;

verus! {

/// Draws the number of columns for `seed`: `Rng::gen_range` over `2..30`,
/// on a `ChaChaRng` made by `SeedableRng::seed_from_u64`.
///
/// The number lies in the range. Which number it is depends on the width
/// of `usize`, so nothing more is said of it.
#[verifier::external_body]
fn draw_columns(seed: u64) -> (r: usize)
    ensures
        2 <= r < 30,
{
    let mut rng = ChaChaRng::seed_from_u64(seed);
    rng.gen_range(2..30)
}

/// What one fuzz run is made from.
#[derive(Clone, Copy, Debug, PartialEq, Eq)]
pub struct FuzzInput {
    pub seed: u64,
    pub columns: usize,
}

impl FuzzInput {
    /// The input for `seed`, with between 2 and 29 columns.
    pub fn from_seed(seed: u64) -> (r: FuzzInput)
        ensures
            r.seed == seed,
            2 <= r.columns < 30,
    {
        FuzzInput { seed, columns: draw_columns(seed) }
    }
}

/// The storage engine of the table that a run creates.
#[derive(Clone, Copy, Debug, PartialEq, Eq, Structural)]
pub enum Engine {
    Metric,
    Mito,
}

impl Engine {
    /// The engine for the outcome of the draw that chooses it.
    pub fn for_draw(metric_engine: bool) -> (r: Engine)
        ensures
            r == if metric_engine {
                Engine::Metric
            } else {
                Engine::Mito
            },
    {
        if metric_engine {
            Engine::Metric
        } else {
            Engine::Mito
        }
    }

    /// The name of the engine, as a statement names it.
    pub fn name(&self) -> (r: &'static str)
        ensures
            r@ == match *self {
                Engine::Metric => "metric"@,
                Engine::Mito => "mito"@,
            },
    {
        match self {
            Engine::Metric => "metric",
            Engine::Mito => "mito",
        }
    }

    /// The name of the one option that a table of the engine is created
    /// with, if there is one; its value is empty.
    pub fn option_name(&self) -> (r: Option<&'static str>)
        ensures
            match *self {
                Engine::Metric => r matches Some(n) && n@ == "physical_metric_table"@,
                Engine::Mito => r is None,
            },
    {
        match self {
            Engine::Metric => Some("physical_metric_table"),
            Engine::Mito => None,
        }
    }
}

} // verus!
