//! The kinds of fruit on sale, and the offers that the store makes of them.

pub mod fruit_offer_controller;
pub mod fruit_store;

use crate::chance::random_in_range;
use crate::clock::now_millis;
use vstd::prelude::*;

verus! {

/// The five kinds of fruit that the store trades in.
#[derive(Clone, Copy, Debug, PartialEq, Eq, Structural, Hash)]
pub enum Fruit {
    Apples,
    Banana,
    Coconut,
    DragonFruit,
    Elderberry,
}

/// How many kinds of fruit there are.
pub const FRUIT_KINDS: u32 = 5;

impl Fruit {
    /// The position of a kind in the fixed order of the kinds.
    pub open spec fn spec_index(self) -> nat {
        match self {
            Fruit::Apples => 0,
            Fruit::Banana => 1,
            Fruit::Coconut => 2,
            Fruit::DragonFruit => 3,
            Fruit::Elderberry => 4,
        }
    }

    /// The kind at a position. Every position behind the last kind gives the last kind.
    pub open spec fn spec_from_index(index: nat) -> Fruit {
        if index == 0 {
            Fruit::Apples
        } else if index == 1 {
            Fruit::Banana
        } else if index == 2 {
            Fruit::Coconut
        } else if index == 3 {
            Fruit::DragonFruit
        } else {
            Fruit::Elderberry
        }
    }

    /// The kinds in their fixed order.
    pub open spec fn spec_all() -> Seq<Fruit> {
        seq![Fruit::Apples, Fruit::Banana, Fruit::Coconut, Fruit::DragonFruit, Fruit::Elderberry]
    }

    /// Returns the position of the kind in the fixed order of the kinds.
    pub fn index(self) -> (index: u32)
        ensures
            index == self.spec_index(),
            index < FRUIT_KINDS,
    {
        match self {
            Fruit::Apples => 0,
            Fruit::Banana => 1,
            Fruit::Coconut => 2,
            Fruit::DragonFruit => 3,
            Fruit::Elderberry => 4,
        }
    }

    /// Returns the kind at a position; a position behind the last kind gives the last kind.
    pub fn from_index(index: u32) -> (fruit: Fruit)
        ensures
            fruit == Fruit::spec_from_index(index as nat),
    {
        match index {
            0 => Fruit::Apples,
            1 => Fruit::Banana,
            2 => Fruit::Coconut,
            3 => Fruit::DragonFruit,
            _ => Fruit::Elderberry,
        }
    }

    /// Returns every kind once, in the fixed order.
    pub fn all() -> (kinds: [Fruit; 5])
        ensures
            kinds@ == Fruit::spec_all(),
    {
        let kinds = [
            Fruit::Apples,
            Fruit::Banana,
            Fruit::Coconut,
            Fruit::DragonFruit,
            Fruit::Elderberry,
        ];
        assert(kinds@ =~= Fruit::spec_all());
        kinds
    }

    /// Picks a kind at random: the kind at a position drawn from all the positions.
    /// Any kind may come, so nothing is promised of the result.
    pub fn random() -> (fruit: Fruit) {
        let roll = random_in_range(0, FRUIT_KINDS);
        Fruit::from_index(roll)
    }
}

/// What an offer says: one fruit at one price, from a moment on and for a time.
pub struct OfferView {
    /// The kind of fruit on offer.
    pub fruit: Fruit,
    /// The price of one fruit.
    pub price: nat,
    /// When the offer was made, in milliseconds of the clock.
    pub start: nat,
    /// How long the offer lasts, in milliseconds.
    pub duration_ms: nat,
    /// The place of the offer among the offers of a game, counted from 0.
    pub id: nat,
}

impl OfferView {
    /// The time that has passed since the offer was made, at the moment `now`. There is
    /// none to tell for a moment that lies before the offer.
    pub open spec fn elapsed_at(self, now: nat) -> Option<nat> {
        if now >= self.start {
            Some((now - self.start) as nat)
        } else {
            None
        }
    }

    /// The time that the offer still has after `elapsed` milliseconds; never less
    /// than one millisecond, also when the offer is over.
    pub open spec fn remaining_after(self, elapsed: nat) -> nat {
        if elapsed >= self.duration_ms {
            1
        } else {
            (self.duration_ms - elapsed) as nat
        }
    }
}

/// A fruit offer consists of one fruit and one price. It expires when its duration is over.
#[derive(Clone, Copy, Debug, PartialEq, Eq, Structural, Hash)]
pub struct FruitOffer {
    fruit: Fruit,
    price: u32,
    start: u64,
    duration_ms: u32,
    id: u32,
}

impl View for FruitOffer {
    type V = OfferView;

    closed spec fn view(&self) -> OfferView {
        OfferView {
            fruit: self.fruit,
            price: self.price as nat,
            start: self.start as nat,
            duration_ms: self.duration_ms as nat,
            id: self.id as nat,
        }
    }
}

impl FruitOffer {
    /// Makes the offer with the given id: `price` for one `fruit`, from the moment `start`
    /// on and for `duration_ms` milliseconds.
    pub fn new(fruit: Fruit, price: u32, start: u64, duration_ms: u32, id: u32) -> (offer:
        FruitOffer)
        ensures
            offer@ == (OfferView {
                fruit,
                price: price as nat,
                start: start as nat,
                duration_ms: duration_ms as nat,
                id: id as nat,
            }),
    {
        FruitOffer { fruit, price, start, duration_ms, id }
    }

    pub fn get_fruit(&self) -> (fruit: Fruit)
        ensures
            fruit == self@.fruit,
    {
        self.fruit
    }

    pub fn get_price(&self) -> (price: u32)
        ensures
            price == self@.price,
    {
        self.price
    }

    pub fn get_id(&self) -> (id: u32)
        ensures
            id == self@.id,
    {
        self.id
    }

    /// Returns the moment at which the offer was made.
    pub fn get_start(&self) -> (start: u64)
        ensures
            start == self@.start,
    {
        self.start
    }

    /// Returns how long the offer lasts.
    pub fn get_duration_ms(&self) -> (duration_ms: u32)
        ensures
            duration_ms == self@.duration_ms,
    {
        self.duration_ms
    }

    /// Returns the milliseconds between the making of the offer and the moment `now`, and
    /// `None` for a moment before the offer, from which no time can be told.
    pub fn millis_since_offer_at(&self, now: u64) -> (elapsed: Option<u64>)
        ensures
            match elapsed {
                Some(millis) => self@.elapsed_at(now as nat) == Some(millis as nat),
                None => self@.elapsed_at(now as nat) is None,
            },
    {
        if now >= self.start {
            Some(now - self.start)
        } else {
            None
        }
    }

    /// Returns the milliseconds since the offer was made, by the system clock, and `None`
    /// where the clock reads a moment before the offer.
    pub fn millis_since_offer(&self) -> (elapsed: Option<u64>)
        ensures
            exists|now: nat|
                match elapsed {
                    Some(millis) => self@.elapsed_at(now) == Some(millis as nat),
                    None => self@.elapsed_at(now) is None,
                },
    {
        let now = now_millis();
        let elapsed = self.millis_since_offer_at(now);
        assert(match elapsed {
            Some(millis) => self@.elapsed_at(now as nat) == Some(millis as nat),
            None => self@.elapsed_at(now as nat) is None,
        });
        elapsed
    }

    /// Returns the milliseconds that the offer still has after `elapsed` of them: the
    /// duration less what has elapsed, and 1 once nothing is left.
    pub fn remaining_millis(&self, elapsed: u64) -> (remaining: u32)
        ensures
            remaining == self@.remaining_after(elapsed as nat),
            remaining >= 1,
            self@.duration_ms >= 1 ==> remaining <= self@.duration_ms,
    {
        if elapsed >= self.duration_ms as u64 {
            1
        } else {
            self.duration_ms - (elapsed as u32)
        }
    }
}

} // verus!
