//! A coffee machine: each factory makes one kind of coffee.
use vstd::prelude::*;

verus! {

/// A coffee that can be brewed.
pub trait Coffee {
    /// The line that brewing gives.
    spec fn brewing_line(&self) -> Seq<char>;

    /// Brews the coffee and returns the line that says so.
    fn brew(&self) -> (line: String)
        ensures
            line@ == self.brewing_line(),
    ;
}

/// An espresso.
#[derive(Debug)]
pub struct Espresso;

impl Coffee for Espresso {
    open spec fn brewing_line(&self) -> Seq<char> {
        "Brewing Espresso"@
    }

    fn brew(&self) -> (line: String) {
        "Brewing Espresso".to_string()
    }
}

/// A cappuccino.
#[derive(Debug)]
pub struct Cappuccino;

impl Coffee for Cappuccino {
    open spec fn brewing_line(&self) -> Seq<char> {
        "Brewing Cappuccino"@
    }

    fn brew(&self) -> (line: String) {
        "Brewing Cappuccino".to_string()
    }
}

/// A latte.
#[derive(Debug)]
pub struct Latte;

impl Coffee for Latte {
    open spec fn brewing_line(&self) -> Seq<char> {
        "Brewing Latte"@
    }

    fn brew(&self) -> (line: String) {
        "Brewing Latte".to_string()
    }
}

/// Makes coffee of one kind.
pub trait CoffeeFactory {
    /// The coffee this factory makes.
    type Product: Coffee;

    /// Makes a coffee.
    fn create_coffee(&self) -> (coffee: Self::Product);
}

/// Makes espresso.
#[derive(Debug)]
pub struct EspressoFactory;

impl CoffeeFactory for EspressoFactory {
    type Product = Espresso;

    fn create_coffee(&self) -> (coffee: Espresso)
        ensures
            coffee == Espresso,
    {
        Espresso
    }
}

/// Makes cappuccino.
#[derive(Debug)]
pub struct CappuccinoFactory;

impl CoffeeFactory for CappuccinoFactory {
    type Product = Cappuccino;

    fn create_coffee(&self) -> (coffee: Cappuccino)
        ensures
            coffee == Cappuccino,
    {
        Cappuccino
    }
}

/// Makes latte.
#[derive(Debug)]
pub struct LatteFactory;

impl CoffeeFactory for LatteFactory {
    type Product = Latte;

    fn create_coffee(&self) -> (coffee: Latte)
        ensures
            coffee == Latte,
    {
        Latte
    }
}

} // verus!
