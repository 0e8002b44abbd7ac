use vstd::prelude::*;

verus! {

/// Phylum-level grouping of classes.
pub trait Phylum {}

/// Class-level grouping of orders.
pub trait Class {}

/// Order-level grouping of families.
pub trait Order {}

/// Family-level grouping of genera.
pub trait Family {}

/// Grouping of species.
pub trait Genus {}

/// Grouping for an animal.
pub trait Species {}

} // verus!
