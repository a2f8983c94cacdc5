//! The order of resource quantities.

use crate::quantity::ResourceQuantity;
use core::cmp::Ordering;
use vstd::prelude::*;

verus! {

/// The place of a quantity's kind in the order: memory first, then CPU.
pub open spec fn kind_rank(q: ResourceQuantity) -> int {
    match q {
        ResourceQuantity::Memory { .. } => 0,
        ResourceQuantity::Cpu { .. } => 1,
    }
}

/// How `a` stands to `b`: by kind first, then by magnitude.
pub open spec fn quantity_order(a: ResourceQuantity, b: ResourceQuantity) -> Ordering {
    if kind_rank(a) < kind_rank(b) {
        Ordering::Less
    } else if kind_rank(a) > kind_rank(b) {
        Ordering::Greater
    } else if a.magnitude() < b.magnitude() {
        Ordering::Less
    } else if a.magnitude() > b.magnitude() {
        Ordering::Greater
    } else {
        Ordering::Equal
    }
}

fn order_magnitudes(a: u64, b: u64) -> (r: Ordering)
    ensures
        r == if a < b {
            Ordering::Less
        } else if a > b {
            Ordering::Greater
        } else {
            Ordering::Equal
        },
{
    if a < b {
        Ordering::Less
    } else if a > b {
        Ordering::Greater
    } else {
        Ordering::Equal
    }
}

impl PartialOrd for ResourceQuantity {
    fn partial_cmp(&self, other: &Self) -> (r: Option<Ordering>) {
        match (self, other) {
            (ResourceQuantity::Memory { bytes: a }, ResourceQuantity::Memory { bytes: b }) => Some(
                order_magnitudes(*a, *b),
            ),
            (ResourceQuantity::Cpu { vcpu: a }, ResourceQuantity::Cpu { vcpu: b }) => Some(
                order_magnitudes(*a, *b),
            ),
            (ResourceQuantity::Memory { .. }, ResourceQuantity::Cpu { .. }) => Some(Ordering::Less),
            (ResourceQuantity::Cpu { .. }, ResourceQuantity::Memory { .. }) => Some(
                Ordering::Greater,
            ),
        }
    }
}

impl vstd::std_specs::cmp::PartialOrdSpecImpl for ResourceQuantity {
    open spec fn obeys_partial_cmp_spec() -> bool {
        true
    }

    open spec fn partial_cmp_spec(&self, other: &Self) -> Option<Ordering> {
        Some(quantity_order(*self, *other))
    }
}

/// Quantities of one kind are totally ordered by their magnitude: two of them
/// compare as their magnitudes do, and equal ones are the same quantity.
pub proof fn lemma_order_within_kind(a: ResourceQuantity, b: ResourceQuantity)
    requires
        kind_rank(a) == kind_rank(b),
    ensures
        quantity_order(a, b) == Ordering::Less <==> a.magnitude() < b.magnitude(),
        quantity_order(a, b) == Ordering::Greater <==> a.magnitude() > b.magnitude(),
        quantity_order(a, b) == Ordering::Equal <==> a == b,
{
}

/// The order is antisymmetric and transitive over all quantities.
pub proof fn lemma_order_is_total(a: ResourceQuantity, b: ResourceQuantity, c: ResourceQuantity)
    ensures
        quantity_order(a, b) == Ordering::Less <==> quantity_order(b, a) == Ordering::Greater,
        quantity_order(a, b) == Ordering::Equal <==> a == b,
        quantity_order(a, b) == Ordering::Less && quantity_order(b, c) == Ordering::Less
            ==> quantity_order(a, c) == Ordering::Less,
{
}

} // verus!
