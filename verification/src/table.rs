//! What the table of routes holds.
use crate::update::Cidr;
use vstd::prelude::*;

verus! {

/// A route in the table.
pub struct RibNode {
    pub nlri: Cidr,
    /// Whether the route was selected.
    pub loc: bool,
}

} // verus!
