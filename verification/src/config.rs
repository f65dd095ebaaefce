//! Fixed settings of the game.

use crate::fruit::Fruit;
use std::ops::Range;
use vstd::prelude::*;

verus! {

/// The fixed settings of the game.
pub struct Config {}

impl Config {
    /// How much cash a player starts with.
    pub const STARTING_CASH: u32 = 50;

    /// How many offers the store makes before the game ends.
    pub const AMOUNT_OF_OFFERS: u32 = 100;

    /// How long a key may go unconfirmed before it counts as released.
    pub const KEY_RELEASE_MILLIS: u32 = 500;

    /// The shortest time an offer lasts.
    pub const OFFER_DURATION_MIN_MILLIS: u32 = 2300;

    /// The end, not itself reached, of the times an offer lasts.
    pub const OFFER_DURATION_MAX_MILLIS: u32 = 5400;

    /// The length of one short wait between two looks at the shared signals.
    pub const POLL_INTERVAL_MILLIS: u32 = 10;

    /// The prices a fruit can cost: `start` is the lowest, `end` the first that is too high.
    pub open spec fn price_range(fruit: Fruit) -> Range<u32> {
        match fruit {
            Fruit::Apples => Range { start: 3, end: 10 },
            Fruit::Banana => Range { start: 1, end: 4 },
            Fruit::Coconut => Range { start: 3, end: 7 },
            Fruit::DragonFruit => Range { start: 10, end: 31 },
            Fruit::Elderberry => Range { start: 1, end: 11 },
        }
    }

    /// The prices of a fruit as they are shown to the player: `start` is the lowest, and
    /// `end` the highest, one below the end of the price range.
    pub open spec fn shown_range(fruit: Fruit) -> Range<u32> {
        Range {
            start: Config::price_range(fruit).start,
            end: (Config::price_range(fruit).end - 1) as u32,
        }
    }

    /// Whether a price is one that the fruit can cost.
    pub open spec fn price_allowed(fruit: Fruit, price: nat) -> bool {
        Config::price_range(fruit).start <= price < Config::price_range(fruit).end
    }

    /// Whether an offer may last that long.
    pub open spec fn duration_allowed(duration_ms: nat) -> bool {
        Config::OFFER_DURATION_MIN_MILLIS <= duration_ms < Config::OFFER_DURATION_MAX_MILLIS
    }

    /// Returns the price range of a fruit.
    pub fn range_for_fruit(fruit: &Fruit) -> (range: Range<u32>)
        ensures
            range == Config::price_range(*fruit),
            range.start < range.end,
    {
        match fruit {
            Fruit::Apples => 3..10,
            Fruit::Banana => 1..4,
            Fruit::Coconut => 3..7,
            Fruit::DragonFruit => 10..31,
            Fruit::Elderberry => 1..11,
        }
    }

    /// Returns the lowest and the highest price of a fruit, as they are shown to the player:
    /// the range of the fruit with its end moved down by one.
    pub fn shown_range_for_fruit(fruit: &Fruit) -> (shown: Range<u32>)
        ensures
            shown == Config::shown_range(*fruit),
            shown.start == Config::price_range(*fruit).start,
            shown.end == Config::price_range(*fruit).end - 1,
    {
        let range = Config::range_for_fruit(fruit);
        Range { start: range.start, end: range.end - 1 }
    }
}

} // verus!
