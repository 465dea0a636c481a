//! The aggregates of a coffee shop: a registry of canisters, the stock of
//! coffee beans, and purchase logs.
use vstd::prelude::*;

pub mod canister_list;
pub mod purchase_log;
pub mod stock;

verus! {

/// The brand of a coffee bean.
#[derive(Debug, Clone)]
pub struct Brand(pub String);

impl View for Brand {
    type V = Seq<char>;

    open spec fn view(&self) -> Seq<char> {
        self.0@
    }
}

impl Brand {
    /// An exact copy of the brand.
    pub fn duplicate(&self) -> (r: Brand)
        ensures
            r == *self,
    {
        Brand(self.0.clone())
    }
}

impl PartialEq for Brand {
    fn eq(&self, other: &Brand) -> (r: bool) {
        self.0 == other.0
    }
}

impl vstd::std_specs::cmp::PartialEqSpecImpl for Brand {
    open spec fn obeys_eq_spec() -> bool {
        true
    }

    open spec fn eq_spec(&self, other: &Brand) -> bool {
        self@ == other@
    }
}

impl Eq for Brand {

}

/// The roast level of a coffee bean.
#[derive(Debug, Copy, Clone, PartialEq, Eq, Structural)]
pub struct Roast(pub u8);

/// A weight in grams.
#[derive(Debug, Copy, Clone, PartialEq, Eq, Structural)]
pub struct Gram(pub u32);

} // verus!
