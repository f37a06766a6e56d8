//! Coffee with condiments: each condiment adds to the cost and to the
//! description.
//!
//! Costs are fixed-point: a `u64` counts cents, so `199` is `1.99`.
use vstd::prelude::*;
use vstd::string::StringExecFns;

verus! {

/// A coffee: it has a cost and a description.
pub trait Coffee {
    /// Whether the cost can be computed: it fits a `u64`.
    spec fn wf(&self) -> bool;

    /// The cost in cents.
    spec fn price(&self) -> int;

    /// The description, as characters.
    spec fn label(&self) -> Seq<char>;

    /// The cost in cents.
    fn cost(&self) -> (cost: u64)
        requires
            self.wf(),
        ensures
            cost == self.price(),
    ;

    /// The description.
    fn description(&self) -> (description: String)
        ensures
            description@ == self.label(),
    ;
}

/// An espresso, at 1.99.
#[derive(Debug)]
pub struct Espresso;

impl Coffee for Espresso {
    open spec fn wf(&self) -> bool {
        true
    }

    open spec fn price(&self) -> int {
        199
    }

    open spec fn label(&self) -> Seq<char> {
        "Espresso"@
    }

    fn cost(&self) -> (cost: u64) {
        199
    }

    fn description(&self) -> (description: String) {
        "Espresso".to_string()
    }
}

/// The house blend, at 0.89.
#[derive(Debug)]
pub struct HouseBlend;

impl Coffee for HouseBlend {
    open spec fn wf(&self) -> bool {
        true
    }

    open spec fn price(&self) -> int {
        89
    }

    open spec fn label(&self) -> Seq<char> {
        "House Blend Coffee"@
    }

    fn cost(&self) -> (cost: u64) {
        89
    }

    fn description(&self) -> (description: String) {
        "House Blend Coffee".to_string()
    }
}

/// A coffee with one more condiment.
#[derive(Debug)]
pub struct CondimentDecorator<C> {
    pub coffee: C,
    pub condiment: String,
    pub condiment_cost: u64,
}

impl<C: Coffee> CondimentDecorator<C> {
    /// Whether a condiment of `condiment_cost` cents can go on `coffee`: the
    /// coffee has a cost and the sum fits a `u64`.
    pub open spec fn fits(coffee: &C, condiment_cost: u64) -> bool {
        coffee.wf() && coffee.price() + condiment_cost <= u64::MAX
    }

    /// Tests whether a condiment of `condiment_cost` cents can go on
    /// `coffee`.
    pub fn can_add(coffee: &C, condiment_cost: u64) -> (fits: bool)
        requires
            coffee.wf(),
        ensures
            fits == Self::fits(coffee, condiment_cost),
    {
        coffee.cost().checked_add(condiment_cost).is_some()
    }

    /// `coffee` with the condiment `condiment`, which costs `condiment_cost`
    /// cents.
    pub fn new(coffee: C, condiment: &str, condiment_cost: u64) -> (decorated: Self)
        requires
            Self::fits(&coffee, condiment_cost),
        ensures
            decorated.wf(),
            decorated.coffee == coffee,
            decorated.condiment@ == condiment@,
            decorated.condiment_cost == condiment_cost,
    {
        CondimentDecorator { coffee, condiment: condiment.to_string(), condiment_cost }
    }
}

impl<C: Coffee> Coffee for CondimentDecorator<C> {
    open spec fn wf(&self) -> bool {
        self.coffee.wf() && self.coffee.price() + self.condiment_cost <= u64::MAX
    }

    open spec fn price(&self) -> int {
        self.coffee.price() + self.condiment_cost
    }

    open spec fn label(&self) -> Seq<char> {
        self.coffee.label() + ", "@ + self.condiment@
    }

    fn cost(&self) -> (cost: u64) {
        self.coffee.cost() + self.condiment_cost
    }

    fn description(&self) -> (description: String) {
        let mut description = self.coffee.description();
        description.append(", ");
        description.append(self.condiment.as_str());
        description
    }
}

} // verus!
