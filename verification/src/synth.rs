//! The argument synthesizer: from raw draws to the bounded arguments of one
//! engine call.
//!
//! Every function here takes the raw draws as arguments, so what it returns
//! is fixed by its inputs. Amounts are whole numbers: a raw draw reduced
//! below the caller's magnitude bound, then scaled down by a divisor that
//! keeps consumption small beside supply. Identifiers are positions in the
//! engine's collections, picked below the observed count.

use crate::catalog::EngineCounts;
use vstd::prelude::*;

verus! {

/// The divisor applied to the amount of material that a product or a
/// variant consumes per unit.
pub const CONSUMPTION_DIVISOR: usize = 32;

/// The divisor applied to the quantity of an order.
pub const ORDER_DIVISOR: usize = 48;

/// The number of priority classes of a product.
pub const PRIORITY_CLASSES: usize = 4;

/// A raw draw reduced below the magnitude bound.
pub open spec fn bounded(raw: usize, max_values: usize) -> int {
    raw as int % max_values as int
}

/// A raw draw reduced below the magnitude bound and scaled down.
pub open spec fn scaled(raw: usize, max_values: usize, divisor: usize) -> int {
    bounded(raw, max_values) / divisor as int
}

/// The largest value that `scaled` reaches under a magnitude bound.
pub open spec fn scaled_limit(max_values: usize, divisor: usize) -> int {
    (max_values as int - 1) / divisor as int
}

/// The position that a raw draw picks in a collection of `count` items.
pub open spec fn picked(raw: usize, count: usize) -> int {
    raw as int % count as int
}

/// Reduces a raw draw below the magnitude bound.
pub fn bound(raw: usize, max_values: usize) -> (value: usize)
    requires
        max_values > 0,
    ensures
        value == bounded(raw, max_values),
        value < max_values,
{
    raw % max_values
}

/// Picks a position in a collection that is not empty.
pub fn pick(raw: usize, count: usize) -> (index: usize)
    requires
        count > 0,
    ensures
        index == picked(raw, count),
        index < count,
{
    raw % count
}

/// The arguments of a call that creates a material.
#[derive(Clone, Copy, Debug, PartialEq, Eq)]
pub struct MaterialRequest {
    /// A fresh token under which the new material is reported.
    pub token: u16,
    /// The supply that the material starts with.
    pub supply: usize,
}

/// The arguments of a call that creates a product.
#[derive(Clone, Copy, Debug, PartialEq, Eq)]
pub struct ProductRequest {
    /// The existing material that the product consumes.
    pub material_id: usize,
    /// How much of the material one unit consumes.
    pub material_amount: usize,
    /// The priority class.
    pub priority: usize,
    /// The size of the product collection once the product is in it.
    pub position: usize,
}

/// The arguments of a call that orders a product.
#[derive(Clone, Copy, Debug, PartialEq, Eq)]
pub struct OrderRequest {
    /// The existing product that is ordered.
    pub product_id: usize,
    /// How many units are ordered.
    pub amount: usize,
}

/// The arguments of a call that attaches a variant to a product.
#[derive(Clone, Copy, Debug, PartialEq, Eq)]
pub struct VariantRequest {
    /// The existing product that gets the variant.
    pub product_id: usize,
    /// The existing material that the variant consumes.
    pub material_id: usize,
    /// How much of the material one unit consumes.
    pub material_amount: usize,
}

/// The arguments of a call that overwrites a material's supply.
#[derive(Clone, Copy, Debug, PartialEq, Eq)]
pub struct SupplyRequest {
    /// The existing material whose supply is set.
    pub material_id: usize,
    /// The new supply.
    pub supply: usize,
}

impl MaterialRequest {
    /// The request that a token and a raw supply draw give.
    pub open spec fn synthesized(token: u16, raw_supply: usize, max_values: usize) -> Self {
        MaterialRequest { token, supply: bounded(raw_supply, max_values) as usize }
    }

    /// Whether the request could have been synthesized under the bound.
    pub open spec fn fits(self, max_values: usize) -> bool {
        self.supply < max_values
    }

    /// Builds the request from a token and a raw supply draw.
    pub fn synthesize(token: u16, raw_supply: usize, max_values: usize) -> (request: Self)
        requires
            max_values > 0,
        ensures
            request == Self::synthesized(token, raw_supply, max_values),
            request.fits(max_values),
    {
        MaterialRequest { token, supply: bound(raw_supply, max_values) }
    }
}

impl ProductRequest {
    /// The request that three raw draws give against the observed counts.
    pub open spec fn synthesized(
        counts: EngineCounts,
        raw_amount: usize,
        raw_index: usize,
        raw_priority: usize,
        max_values: usize,
    ) -> Self {
        ProductRequest {
            material_id: picked(raw_index, counts.materials) as usize,
            material_amount: scaled(raw_amount, max_values, CONSUMPTION_DIVISOR) as usize,
            priority: picked(raw_priority, PRIORITY_CLASSES) as usize,
            position: (counts.products + 1) as usize,
        }
    }

    /// Whether the request could have been synthesized against the counts
    /// and under the bound.
    pub open spec fn fits(self, counts: EngineCounts, max_values: usize) -> bool {
        &&& self.material_id < counts.materials
        &&& self.material_amount <= scaled_limit(max_values, CONSUMPTION_DIVISOR)
        &&& self.priority < PRIORITY_CLASSES
        &&& self.position == counts.products + 1
    }

    /// Builds the request from the raw draws, in the order in which they
    /// are taken from the stream: amount, material, priority.
    pub fn synthesize(
        counts: EngineCounts,
        raw_amount: usize,
        raw_index: usize,
        raw_priority: usize,
        max_values: usize,
    ) -> (request: Self)
        requires
            max_values > 0,
            counts.materials > 0,
            counts.products < usize::MAX,
        ensures
            request == Self::synthesized(counts, raw_amount, raw_index, raw_priority, max_values),
            request.fits(counts, max_values),
    {
        ProductRequest {
            material_id: pick(raw_index, counts.materials),
            material_amount: bound(raw_amount, max_values) / CONSUMPTION_DIVISOR,
            priority: pick(raw_priority, PRIORITY_CLASSES),
            position: counts.products + 1,
        }
    }
}

impl OrderRequest {
    /// The request that two raw draws give against the observed counts.
    pub open spec fn synthesized(
        counts: EngineCounts,
        raw_amount: usize,
        raw_index: usize,
        max_values: usize,
    ) -> Self {
        OrderRequest {
            product_id: picked(raw_index, counts.products) as usize,
            amount: scaled(raw_amount, max_values, ORDER_DIVISOR) as usize,
        }
    }

    /// Whether the request could have been synthesized against the counts
    /// and under the bound.
    pub open spec fn fits(self, counts: EngineCounts, max_values: usize) -> bool {
        &&& self.product_id < counts.products
        &&& self.amount <= scaled_limit(max_values, ORDER_DIVISOR)
    }

    /// Builds the request from the raw draws, in the order in which they
    /// are taken from the stream: quantity, product.
    pub fn synthesize(
        counts: EngineCounts,
        raw_amount: usize,
        raw_index: usize,
        max_values: usize,
    ) -> (request: Self)
        requires
            max_values > 0,
            counts.products > 0,
        ensures
            request == Self::synthesized(counts, raw_amount, raw_index, max_values),
            request.fits(counts, max_values),
    {
        OrderRequest {
            product_id: pick(raw_index, counts.products),
            amount: bound(raw_amount, max_values) / ORDER_DIVISOR,
        }
    }
}

impl VariantRequest {
    /// The request that three raw draws give against the observed counts.
    pub open spec fn synthesized(
        counts: EngineCounts,
        raw_product: usize,
        raw_material: usize,
        raw_amount: usize,
        max_values: usize,
    ) -> Self {
        VariantRequest {
            product_id: picked(raw_product, counts.products) as usize,
            material_id: picked(raw_material, counts.materials) as usize,
            material_amount: scaled(raw_amount, max_values, CONSUMPTION_DIVISOR) as usize,
        }
    }

    /// Whether the request could have been synthesized against the counts
    /// and under the bound.
    pub open spec fn fits(self, counts: EngineCounts, max_values: usize) -> bool {
        &&& self.product_id < counts.products
        &&& self.material_id < counts.materials
        &&& self.material_amount <= scaled_limit(max_values, CONSUMPTION_DIVISOR)
    }

    /// Builds the request from the raw draws, in the order in which they
    /// are taken from the stream: product, material, amount.
    pub fn synthesize(
        counts: EngineCounts,
        raw_product: usize,
        raw_material: usize,
        raw_amount: usize,
        max_values: usize,
    ) -> (request: Self)
        requires
            max_values > 0,
            counts.products > 0,
            counts.materials > 0,
        ensures
            request == Self::synthesized(counts, raw_product, raw_material, raw_amount, max_values),
            request.fits(counts, max_values),
    {
        VariantRequest {
            product_id: pick(raw_product, counts.products),
            material_id: pick(raw_material, counts.materials),
            material_amount: bound(raw_amount, max_values) / CONSUMPTION_DIVISOR,
        }
    }
}

impl SupplyRequest {
    /// The request that two raw draws give against the observed counts.
    pub open spec fn synthesized(
        counts: EngineCounts,
        raw_supply: usize,
        raw_index: usize,
        max_values: usize,
    ) -> Self {
        SupplyRequest {
            material_id: picked(raw_index, counts.materials) as usize,
            supply: bounded(raw_supply, max_values) as usize,
        }
    }

    /// Whether the request could have been synthesized against the counts
    /// and under the bound.
    pub open spec fn fits(self, counts: EngineCounts, max_values: usize) -> bool {
        &&& self.material_id < counts.materials
        &&& self.supply < max_values
    }

    /// Builds the request from the raw draws, in the order in which they
    /// are taken from the stream: supply, material.
    pub fn synthesize(
        counts: EngineCounts,
        raw_supply: usize,
        raw_index: usize,
        max_values: usize,
    ) -> (request: Self)
        requires
            max_values > 0,
            counts.materials > 0,
        ensures
            request == Self::synthesized(counts, raw_supply, raw_index, max_values),
            request.fits(counts, max_values),
    {
        SupplyRequest {
            material_id: pick(raw_index, counts.materials),
            supply: bound(raw_supply, max_values),
        }
    }
}

} // verus!
