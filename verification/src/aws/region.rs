//! The regions in which resources can be placed.

use crate::ir::{Expr, ExprView};
use vstd::prelude::*;

verus! {

/// A region of the provider.
#[derive(Debug, Clone, Copy, PartialEq, Eq, Structural)]
pub enum Region {
    UsWest2,
    UsEast1,
}

impl Region {
    /// The identifier of the region.
    pub open spec fn spec_name(&self) -> Seq<char> {
        match self {
            Region::UsWest2 => "us-west-2"@,
            Region::UsEast1 => "us-east-1"@,
        }
    }

    /// The identifier of the region, as the provider spells it.
    pub fn to_string(&self) -> (name: String)
        ensures
            name@ == self.spec_name(),
    {
        match self {
            Region::UsWest2 => String::from_str("us-west-2"),
            Region::UsEast1 => String::from_str("us-east-1"),
        }
    }
}

/// What the conversion gives is stated by the `ensures` of `from` itself.
impl vstd::std_specs::convert::FromSpecImpl<Region> for Expr {
    open spec fn obeys_from_spec() -> bool {
        false
    }

    open spec fn from_spec(region: Region) -> Expr {
        arbitrary()
    }
}

impl From<Region> for Expr {
    /// The region's identifier as a literal string.
    fn from(region: Region) -> (expr: Expr)
        ensures
            expr@ == ExprView::String(region.spec_name()),
    {
        Expr::String(region.to_string())
    }
}

} // verus!
