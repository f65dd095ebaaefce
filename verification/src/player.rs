//! The player's ledger: cash, and how many of each fruit the player holds.

use crate::fruit::Fruit;
use std::collections::HashMap;
use vstd::prelude::*;

verus! {

broadcast use vstd::std_specs::hash::group_hash_axioms;

/// What a player has: cash, and a count for every kind of fruit.
pub struct Ledger {
    pub cash: nat,
    pub stock: Map<Fruit, nat>,
}

impl Ledger {
    /// The ledger at the start of a game: the starting cash and no fruit.
    pub open spec fn opening(cash: nat) -> Ledger {
        Ledger { cash, stock: Map::total(|fruit: Fruit| 0nat) }
    }

    /// How many of a fruit the player holds.
    pub open spec fn amount(self, fruit: Fruit) -> nat {
        self.stock[fruit]
    }

    /// Whether the cash is enough to pay a price.
    pub open spec fn affords(self, price: nat) -> bool {
        price <= self.cash
    }

    /// The ledger after one `fruit` was bought at `price`.
    pub open spec fn bought(self, fruit: Fruit, price: nat) -> Ledger {
        Ledger {
            cash: (self.cash - price) as nat,
            stock: self.stock.insert(fruit, self.stock[fruit] + 1),
        }
    }

    /// The ledger after one `fruit` was sold at `price`.
    pub open spec fn sold(self, fruit: Fruit, price: nat) -> Ledger {
        Ledger {
            cash: self.cash + price,
            stock: self.stock.insert(fruit, (self.stock[fruit] - 1) as nat),
        }
    }
}

/// A player, with cash and an inventory of fruit.
pub struct Player {
    cash: u32,
    inventory: HashMap<u32, u32>,
}

/// The count that an inventory has for a fruit, under the position of the fruit as its
/// key; a fruit without an entry counts as 0.
spec fn count_in(inventory: Map<u32, u32>, fruit: Fruit) -> nat {
    if inventory.contains_key(fruit.spec_index() as u32) {
        inventory[fruit.spec_index() as u32] as nat
    } else {
        0
    }
}

impl View for Player {
    type V = Ledger;

    closed spec fn view(&self) -> Ledger {
        Ledger {
            cash: self.cash as nat,
            stock: Map::total(|fruit: Fruit| count_in(self.inventory@, fruit)),
        }
    }
}

impl Player {
    /// Makes a player with the given cash and none of any fruit.
    pub fn new(starting_cash: u32) -> (player: Player)
        ensures
            player@ == Ledger::opening(starting_cash as nat),
    {
        let mut inventory: HashMap<u32, u32> = HashMap::new();
        let kinds = Fruit::all();
        let mut i: usize = 0;
        while i < kinds.len()
            invariant
                i <= kinds.len(),
                kinds@ == Fruit::spec_all(),
                forall|key: u32| inventory@.contains_key(key) ==> inventory@[key] == 0,
            decreases kinds.len() - i,
        {
            inventory.insert(kinds[i].index(), 0);
            i += 1;
        }
        let player = Player { cash: starting_cash, inventory };
        assert(player@.stock =~= Ledger::opening(starting_cash as nat).stock);
        player
    }

    /// Buys one `fruit` at `price`: takes the price from the cash and adds one to the count
    /// of the fruit. Returns `None`, and changes nothing, if the cash does not cover the
    /// price; else it returns what it was given.
    pub fn buy_offer(&mut self, fruit: Fruit, price: u32) -> (bought: Option<(Fruit, u32)>)
        requires
            old(self)@.affords(price as nat) ==> old(self)@.amount(fruit) < u32::MAX,
        ensures
            old(self)@.affords(price as nat) ==> bought == Some((fruit, price)) && final(self)@
                == old(self)@.bought(fruit, price as nat),
            !old(self)@.affords(price as nat) ==> bought is None && final(self)@ == old(self)@,
    {
        if price > self.cash {
            return None;
        }
        self.cash = self.cash - price;
        let amount = self.get_amount_of_fruit(fruit);
        let new_amount = amount + 1;
        self.inventory.insert(fruit.index(), new_amount);
        assert(self@.stock =~= old(self)@.bought(fruit, price as nat).stock);
        Some((fruit, price))
    }

    /// Sells one `fruit` at `price`: adds the price to the cash and takes one from the
    /// count of the fruit. Returns `None`, and changes nothing, if the player holds none of
    /// the fruit; else it returns what it was given.
    pub fn sell_offer(&mut self, fruit: Fruit, price: u32) -> (sold: Option<(Fruit, u32)>)
        requires
            old(self)@.amount(fruit) >= 1 ==> old(self)@.cash + price <= u32::MAX,
        ensures
            old(self)@.amount(fruit) >= 1 ==> sold == Some((fruit, price)) && final(self)@ == old(
                self,
            )@.sold(fruit, price as nat),
            old(self)@.amount(fruit) == 0 ==> sold is None && final(self)@ == old(self)@,
    {
        let amount = self.get_amount_of_fruit(fruit);
        if amount == 0 {
            return None;
        }
        self.cash = self.cash + price;
        let new_amount = amount - 1;
        self.inventory.insert(fruit.index(), new_amount);
        assert(self@.stock =~= old(self)@.sold(fruit, price as nat).stock);
        Some((fruit, price))
    }

    pub fn get_cash(&self) -> (cash: u32)
        ensures
            cash == self@.cash,
    {
        self.cash
    }

    /// Returns how many of a fruit the player holds.
    pub fn get_amount_of_fruit(&self, fruit: Fruit) -> (amount: u32)
        ensures
            amount == self@.amount(fruit),
    {
        let key = fruit.index();
        match self.inventory.get(&key) {
            None => 0,
            Some(amount) => *amount,
        }
    }
}

} // verus!
