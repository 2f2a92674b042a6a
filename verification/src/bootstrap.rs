//! The bootstrap: a best-effort seeding of the engine, so that later runs
//! find collections that are not empty.
//!
//! The bootstrap is a small machine. Each step hands out at most one call
//! for the engine; the caller performs it, observes the counts again and
//! asks for the next step. What the engine answers is of no concern to the
//! machine: a refused seed is neither repeated nor made up for.

use crate::catalog::EngineCounts;
use crate::stream::{draw_u8, draw_usize};
use crate::synth::{bound, bounded, ProductRequest};
use rand::ThreadRng;
use vstd::prelude::*;

verus! {

/// The supply of the material that every bootstrap creates first.
pub const FIRST_SUPPLY: usize = 10;

/// The largest cycle bound that is taken as it is. A larger one is
/// replaced by a draw below it.
pub const PLAIN_CYCLES: usize = 10;

/// One call that seeds the engine.
#[derive(Clone, Copy, Debug, PartialEq, Eq)]
pub enum Seed {
    /// Create a material with this supply.
    Material { supply: usize },
    /// Create a product of the lowest work complexity with these arguments.
    Product(ProductRequest),
}

/// What one step of the bootstrap asks of the caller.
#[derive(Clone, Copy, Debug, PartialEq, Eq)]
pub enum Step {
    /// Perform this call, whatever the engine answers.
    Issue(Seed),
    /// The step fell to a product while no material exists: do nothing.
    Skip,
    /// The bootstrap is over.
    Done,
}

/// The state of a bootstrap.
#[derive(Clone, Copy, Debug, PartialEq, Eq)]
pub struct Bootstrap {
    /// Whether the first material is still to be handed out.
    pub fresh: bool,
    /// How many seeding steps follow the first material.
    pub remaining: usize,
    /// The magnitude bound of every amount.
    pub max_values: usize,
}

/// The values that one seeding step takes from the stream, in the order in
/// which it takes them. A step that seeds a material reads the coin and
/// the first value only.
#[derive(Clone, Copy, Debug, PartialEq, Eq)]
pub struct Toss {
    /// The coin: even for a material, odd for a product.
    pub coin: u8,
    /// The first raw draw after the coin.
    pub first: usize,
    /// The second raw draw.
    pub second: usize,
    /// The third raw draw.
    pub third: usize,
}

/// The number of seeding steps for a cycle bound and a raw draw.
pub open spec fn seeding_steps(cycles: usize, raw: usize) -> int {
    if cycles <= PLAIN_CYCLES {
        cycles as int
    } else {
        raw as int % cycles as int
    }
}

/// Whether a coin shows the side that seeds a material.
pub open spec fn seeds_material(coin: u8) -> bool {
    coin % 2 == 0
}

/// Computes the number of seeding steps: the cycle bound itself up to ten,
/// beyond that the raw draw reduced below the bound.
pub fn count_steps(cycles: usize, raw: usize) -> (steps: usize)
    ensures
        steps == seeding_steps(cycles, raw),
        steps <= cycles,
        cycles > PLAIN_CYCLES ==> steps < cycles,
{
    if cycles <= PLAIN_CYCLES {
        cycles
    } else {
        raw % cycles
    }
}

/// Reads a coin: an even draw seeds a material, an odd one a product.
pub fn flip(coin: u8) -> (material: bool)
    ensures
        material == seeds_material(coin),
{
    coin % 2 == 0
}

impl Seed {
    /// The material seed that a raw supply draw gives.
    pub open spec fn material_of(raw_supply: usize, max_values: usize) -> Seed {
        Seed::Material { supply: bounded(raw_supply, max_values) as usize }
    }

    /// The step that three raw draws give when the coin fell to a product.
    pub open spec fn product_step(
        counts: EngineCounts,
        raw_amount: usize,
        raw_index: usize,
        raw_priority: usize,
        max_values: usize,
    ) -> Step {
        if counts.materials == 0 {
            Step::Skip
        } else {
            Step::Issue(
                Seed::Product(
                    ProductRequest::synthesized(
                        counts,
                        raw_amount,
                        raw_index,
                        raw_priority,
                        max_values,
                    ),
                ),
            )
        }
    }

    /// Builds a material seed from a raw supply draw.
    pub fn material(raw_supply: usize, max_values: usize) -> (seed: Seed)
        requires
            max_values > 0,
        ensures
            seed == Seed::material_of(raw_supply, max_values),
            seed matches Seed::Material { supply } && supply < max_values,
    {
        Seed::Material { supply: bound(raw_supply, max_values) }
    }

    /// Builds the step for a product from the raw draws: a product bound
    /// to an existing material, or nothing where no material exists.
    pub fn product(
        counts: EngineCounts,
        raw_amount: usize,
        raw_index: usize,
        raw_priority: usize,
        max_values: usize,
    ) -> (step: Step)
        requires
            counts.materials > 0 ==> max_values > 0 && counts.products < usize::MAX,
        ensures
            step == Seed::product_step(counts, raw_amount, raw_index, raw_priority, max_values),
            step.follows(counts, max_values),
    {
        if counts.materials == 0 {
            Step::Skip
        } else {
            Step::Issue(
                Seed::Product(
                    ProductRequest::synthesize(
                        counts,
                        raw_amount,
                        raw_index,
                        raw_priority,
                        max_values,
                    ),
                ),
            )
        }
    }
}

impl Step {
    /// Whether the step may come from a seeding step against the counts:
    /// a seed that fits, or a skip where no material exists. A product is
    /// seeded only where a material exists.
    pub open spec fn follows(self, counts: EngineCounts, max_values: usize) -> bool {
        match self {
            Step::Issue(Seed::Material { supply }) => supply < max_values,
            Step::Issue(Seed::Product(p)) => counts.materials > 0 && p.fits(counts, max_values),
            Step::Skip => counts.materials == 0,
            Step::Done => false,
        }
    }
}

impl Bootstrap {
    /// Whether the state can be stepped: while seeding steps are ahead, its
    /// magnitude bound is not zero.
    pub open spec fn wf(self) -> bool {
        self.remaining > 0 ==> self.max_values > 0
    }

    /// Whether the next step draws from the stream: the first material is
    /// out and a seeding step is ahead.
    pub open spec fn seeding(self) -> bool {
        !self.fresh && self.remaining > 0
    }

    /// The number of steps that still hand out something other than
    /// `Done`.
    pub open spec fn pending(self) -> nat {
        if self.fresh {
            (self.remaining + 1) as nat
        } else {
            self.remaining as nat
        }
    }

    /// The state after a step.
    pub open spec fn advanced(self) -> Bootstrap {
        if self.fresh {
            Bootstrap { fresh: false, remaining: self.remaining, max_values: self.max_values }
        } else if self.remaining > 0 {
            Bootstrap {
                fresh: false,
                remaining: (self.remaining - 1) as usize,
                max_values: self.max_values,
            }
        } else {
            self
        }
    }

    /// The state after a number of steps.
    pub open spec fn advanced_by(self, steps: nat) -> Bootstrap
        decreases steps,
    {
        if steps == 0 {
            self
        } else {
            self.advanced().advanced_by((steps - 1) as nat)
        }
    }

    /// What the next step hands out for the observed counts and the values
    /// it takes from the stream.
    pub open spec fn stepped(self, counts: EngineCounts, toss: Toss) -> Step {
        if self.fresh {
            Step::Issue(Seed::Material { supply: FIRST_SUPPLY })
        } else if self.remaining == 0 {
            Step::Done
        } else if seeds_material(toss.coin) {
            Step::Issue(Seed::material_of(toss.first, self.max_values))
        } else {
            Seed::product_step(counts, toss.first, toss.second, toss.third, self.max_values)
        }
    }

    /// Takes the next step on recorded draws in place of a stream.
    ///
    /// The first step hands out the first material, with its fixed supply.
    /// Each of the seeding steps reads the coin and hands out a material
    /// with a bounded supply or a product bound to an existing material.
    /// After the last one every step is `Done`, and the state stays.
    pub fn replay(&mut self, counts: EngineCounts, toss: Toss) -> (step: Step)
        requires
            old(self).wf(),
            old(self).seeding() && !seeds_material(toss.coin) && counts.materials > 0
                ==> counts.products < usize::MAX,
        ensures
            *final(self) == old(self).advanced(),
            final(self).wf(),
            step == old(self).stepped(counts, toss),
            step is Done <==> old(self).pending() == 0,
            old(self).seeding() ==> step.follows(counts, old(self).max_values),
    {
        if self.fresh {
            self.fresh = false;
            return Step::Issue(Seed::Material { supply: FIRST_SUPPLY });
        }
        if self.remaining == 0 {
            return Step::Done;
        }
        self.remaining = self.remaining - 1;
        if flip(toss.coin) {
            Step::Issue(Seed::material(toss.first, self.max_values))
        } else {
            Seed::product(counts, toss.first, toss.second, toss.third, self.max_values)
        }
    }

    /// Takes the next step, drawing from the stream what a seeding step
    /// needs: the coin, then one value for a material or three for a
    /// product. Whatever is drawn, the step is the one that `replay` gives
    /// for the drawn values.
    pub fn next(&mut self, counts: EngineCounts, rng: &mut ThreadRng) -> (step: Step)
        requires
            old(self).wf(),
            old(self).seeding() && counts.materials > 0 ==> counts.products < usize::MAX,
        ensures
            *final(self) == old(self).advanced(),
            final(self).wf(),
            exists|toss: Toss| step == #[trigger] old(self).stepped(counts, toss),
            old(self).fresh ==> step == Step::Issue(Seed::Material { supply: FIRST_SUPPLY }),
            step is Done <==> old(self).pending() == 0,
            old(self).seeding() ==> step.follows(counts, old(self).max_values),
    {
        let toss = if !self.fresh && self.remaining > 0 {
            draw_toss(rng)
        } else {
            Toss { coin: 0, first: 0, second: 0, third: 0 }
        };
        self.replay(counts, toss)
    }
}

/// Takes from the stream the values of one seeding step: the coin, then
/// one value where it fell to a material and three where it fell to a
/// product. The two values that a material does not read are zero.
fn draw_toss(rng: &mut ThreadRng) -> (toss: Toss)
    ensures
        seeds_material(toss.coin) ==> toss.second == 0 && toss.third == 0,
{
    let coin: u8 = draw_u8(rng);
    let first: usize = draw_usize(rng);
    if flip(coin) {
        Toss { coin, first, second: 0, third: 0 }
    } else {
        let second: usize = draw_usize(rng);
        let third: usize = draw_usize(rng);
        Toss { coin, first, second, third }
    }
}

/// Starts a bootstrap for a magnitude bound and a cycle bound.
///
/// A cycle bound up to ten is the number of seeding steps. A larger one is
/// replaced by a draw below it. The first material comes before them. Only
/// seeding steps use the magnitude bound: it may be zero where none is
/// asked for.
pub fn init(rng: &mut ThreadRng, max_values: usize, cycles: usize) -> (bootstrap: Bootstrap)
    requires
        cycles > 0 ==> max_values > 0,
    ensures
        bootstrap.wf(),
        bootstrap.fresh,
        bootstrap.max_values == max_values,
        bootstrap.remaining <= cycles,
        cycles <= PLAIN_CYCLES ==> bootstrap.remaining == cycles,
        cycles > PLAIN_CYCLES ==> bootstrap.remaining < cycles,
{
    let remaining: usize = if cycles > PLAIN_CYCLES {
        let raw: usize = draw_usize(rng);
        count_steps(cycles, raw)
    } else {
        cycles
    };
    Bootstrap { fresh: true, remaining, max_values }
}

} // verus!
