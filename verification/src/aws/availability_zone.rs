//! The availability zones in which a subnet can be placed.

use vstd::prelude::*;

verus! {

/// An availability zone of the provider.
#[derive(Debug, Clone, Copy, PartialEq, Eq, Structural)]
pub enum AvailabilityZone {
    UsEast1a,
    UsEast1b,
    UsEast1c,
}

impl AvailabilityZone {
    /// The identifier of the zone.
    pub open spec fn spec_name(&self) -> Seq<char> {
        match self {
            AvailabilityZone::UsEast1a => "us-east-1a"@,
            AvailabilityZone::UsEast1b => "us-east-1b"@,
            AvailabilityZone::UsEast1c => "us-east-1c"@,
        }
    }

    /// The identifier of the zone, as the provider spells it.
    pub fn to_string(&self) -> (name: String)
        ensures
            name@ == self.spec_name(),
    {
        match self {
            AvailabilityZone::UsEast1a => String::from_str("us-east-1a"),
            AvailabilityZone::UsEast1b => String::from_str("us-east-1b"),
            AvailabilityZone::UsEast1c => String::from_str("us-east-1c"),
        }
    }
}

} // verus!
