//! A discrete elevation: the index of one layer of the world.

use vstd::prelude::*;
use vstd::std_specs::convert::FromSpecImpl;
use vstd::std_specs::ops::{AddSpecImpl, SubSpecImpl};

verus! {

/// The elevation of one layer. Heights are totally ordered by `value`.
#[derive(Debug, Copy, Clone, PartialEq, Eq, Structural, Hash, PartialOrd, Ord)]
pub struct Height {
    pub value: usize,
}

impl From<Height> for usize {
    fn from(value: Height) -> (r: usize) {
        value.value
    }
}

impl FromSpecImpl<Height> for usize {
    open spec fn obeys_from_spec() -> bool {
        true
    }

    open spec fn from_spec(value: Height) -> usize {
        value.value
    }
}

impl From<Height> for u32 {
    fn from(value: Height) -> (r: u32) {
        value.value as u32
    }
}

impl FromSpecImpl<Height> for u32 {
    open spec fn obeys_from_spec() -> bool {
        true
    }

    open spec fn from_spec(value: Height) -> u32 {
        value.value as u32
    }
}

impl core::ops::Sub<Height> for Height {
    type Output = Height;

    fn sub(self, rhs: Height) -> (r: Height) {
        let value: usize = self.value - rhs.value;
        Height { value }
    }
}

impl SubSpecImpl<Height> for Height {
    open spec fn obeys_sub_spec() -> bool {
        true
    }

    open spec fn sub_req(self, rhs: Height) -> bool {
        rhs.value <= self.value
    }

    open spec fn sub_spec(self, rhs: Height) -> Height {
        Height { value: (self.value - rhs.value) as usize }
    }
}

impl core::ops::Add<Height> for Height {
    type Output = Height;

    fn add(self, rhs: Height) -> (r: Height) {
        let value: usize = self.value + rhs.value;
        Height { value }
    }
}

impl AddSpecImpl<Height> for Height {
    open spec fn obeys_add_spec() -> bool {
        true
    }

    open spec fn add_req(self, rhs: Height) -> bool {
        self.value + rhs.value <= usize::MAX
    }

    open spec fn add_spec(self, rhs: Height) -> Height {
        Height { value: (self.value + rhs.value) as usize }
    }
}

} // verus!
