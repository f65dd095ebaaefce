//! The decisions of the main loop.
//!
//! The loop itself belongs to whoever drives the game: it asks the store for a new offer
//! and the keyboard for a key, hands what it got to the game, and shows what the game
//! reports. The game holds the current offer, the player and the key-repeat filter, and
//! decides what an offer or a key does to them.

use crate::clock::now_millis;
use crate::config::Config;
use crate::console::input::PlayerInteractions;
use crate::console::key_handling::{FilterState, KeyHeldController};
use crate::console::output::offers_left;
use crate::fruit::fruit_offer_controller::FruitOfferController;
use crate::fruit::{Fruit, FruitOffer};
use crate::player::{Ledger, Player};
use vstd::prelude::*;

verus! {

/// What a tick of the loop did, for the screen and for the signals of the game.
#[derive(Clone, Copy, Debug, PartialEq, Eq, Structural)]
pub enum TickOutcome {
    /// Nothing happened.
    Quiet,
    /// The held key was found released.
    Released,
    /// The player bought one fruit of the current offer.
    Bought,
    /// The player tried to buy, and the cash does not cover the price.
    InsufficientFunds,
    /// The player sold one fruit at the current offer.
    Sold,
    /// The player tried to sell, and holds none of the fruit.
    NotInInventory,
    /// The player asked for the next offer.
    SkipRequested,
    /// The player asked to end the game.
    ExitRequested,
    /// The player asked what the fruit on offer can cost, from `lowest` to `highest`.
    Info { fruit: Fruit, lowest: u32, highest: u32 },
}

/// How much of the time of the current offer is left, in milliseconds.
#[derive(Clone, Copy, Debug, PartialEq, Eq, Structural)]
pub struct Timeout {
    pub remaining_ms: u32,
    pub duration_ms: u32,
}

/// What a tick of the loop reports: the time left of the offer, where it can be told, and
/// what the tick did.
#[derive(Clone, Copy, Debug, PartialEq, Eq, Structural)]
pub struct TickReport {
    pub timeout: Option<Timeout>,
    pub outcome: TickOutcome,
}

/// What the screen shows of a new offer.
#[derive(Clone, Copy, Debug, PartialEq, Eq, Structural)]
pub struct OfferNotice {
    pub fruit: Fruit,
    pub price: u32,
    pub offers_left: u32,
}

/// The state of a game: the current offer, the player's ledger and the key-repeat filter.
pub struct GameState {
    pub offer: Option<FruitOffer>,
    pub ledger: Ledger,
    pub keys: FilterState,
}

impl GameState {
    /// A game before its first offer.
    pub open spec fn initial(cash: nat) -> GameState {
        GameState { offer: None, ledger: Ledger::opening(cash), keys: FilterState::Idle }
    }

    /// The game after a new offer came in: the offer replaces the current one.
    pub open spec fn with_offer(self, offer: FruitOffer) -> GameState {
        GameState { offer: Some(offer), ..self }
    }

    /// The interaction that a tick performs: what the filter hands on of the key. Without
    /// an offer, or without a key, there is none.
    pub open spec fn emitted(self, key: Option<PlayerInteractions>) -> Option<
        PlayerInteractions,
    > {
        match (self.offer, key) {
            (Some(offer), Some(event)) => self.keys.emitted(event, offer@.id),
            _ => None,
        }
    }

    /// The filter after it was given the key of a tick at the moment `now`.
    pub open spec fn keys_after_key(self, key: Option<PlayerInteractions>, now: nat)
        -> FilterState {
        match (self.offer, key) {
            (Some(offer), Some(event)) => self.keys.after_event(event, offer@.id, now),
            _ => self.keys,
        }
    }

    /// Whether the numbers of the ledger stay within the machine's limits in a tick with
    /// the given key: a purchase must not take the count of the fruit beyond `u32::MAX`,
    /// nor a sale the cash.
    pub open spec fn fits(self, key: Option<PlayerInteractions>) -> bool {
        match (self.offer, self.emitted(key)) {
            (Some(offer), Some(PlayerInteractions::Buy)) => self.ledger.affords(offer@.price)
                ==> self.ledger.amount(offer@.fruit) < u32::MAX,
            (Some(offer), Some(PlayerInteractions::Sell)) => self.ledger.amount(offer@.fruit) >= 1
                ==> self.ledger.cash + offer@.price <= u32::MAX,
            _ => true,
        }
    }

    /// The time left of the current offer at the moment `now`, and the whole time of the
    /// offer. There is none to tell without an offer, or at a moment before the offer.
    pub open spec fn timeout_at(self, now: nat) -> Option<(nat, nat)> {
        match self.offer {
            Some(offer) => match offer@.elapsed_at(now) {
                Some(elapsed) => Some((offer@.remaining_after(elapsed), offer@.duration_ms)),
                None => None,
            },
            None => None,
        }
    }

    /// What a tick with the given key does at the moment `now`.
    pub open spec fn outcome(self, key: Option<PlayerInteractions>, now: nat) -> TickOutcome {
        match self.offer {
            None => TickOutcome::Quiet,
            Some(offer) => match self.emitted(key) {
                None => if self.keys_after_key(key, now).release_due(now) {
                    TickOutcome::Released
                } else {
                    TickOutcome::Quiet
                },
                Some(PlayerInteractions::Buy) => if self.ledger.affords(offer@.price) {
                    TickOutcome::Bought
                } else {
                    TickOutcome::InsufficientFunds
                },
                Some(PlayerInteractions::Sell) => if self.ledger.amount(offer@.fruit) >= 1 {
                    TickOutcome::Sold
                } else {
                    TickOutcome::NotInInventory
                },
                Some(PlayerInteractions::NextOffer) => TickOutcome::SkipRequested,
                Some(PlayerInteractions::Exit) => TickOutcome::ExitRequested,
                Some(PlayerInteractions::Info) => TickOutcome::Info {
                    fruit: offer@.fruit,
                    lowest: Config::shown_range(offer@.fruit).start,
                    highest: Config::shown_range(offer@.fruit).end,
                },
            },
        }
    }

    /// The ledger after a tick with the given outcome: a purchase and a sale change it,
    /// nothing else does.
    pub open spec fn ledger_after(self, outcome: TickOutcome) -> Ledger {
        match (self.offer, outcome) {
            (Some(offer), TickOutcome::Bought) => self.ledger.bought(offer@.fruit, offer@.price),
            (Some(offer), TickOutcome::Sold) => self.ledger.sold(offer@.fruit, offer@.price),
            _ => self.ledger,
        }
    }

    /// The game after a tick with the given key at the moment `now`. The offer stays; the
    /// filter takes in the key, and where nothing is performed it is checked for a
    /// released key.
    pub open spec fn after_tick(self, key: Option<PlayerInteractions>, now: nat) -> GameState {
        GameState {
            offer: self.offer,
            ledger: self.ledger_after(self.outcome(key, now)),
            keys: if self.offer.is_some() && self.emitted(key) is None {
                self.keys_after_key(key, now).after_check(now)
            } else {
                self.keys_after_key(key, now)
            },
        }
    }
}

/// A game in progress: the current offer, the player and the key-repeat filter.
pub struct Game {
    offers: FruitOfferController,
    player: Player,
    keys: KeyHeldController,
}

impl View for Game {
    type V = GameState;

    closed spec fn view(&self) -> GameState {
        GameState { offer: self.offers@, ledger: self.player@, keys: self.keys@ }
    }
}

impl Game {
    /// Begins a game: no offer yet, a player with the given cash, and no key held.
    pub fn new(starting_cash: u32) -> (game: Game)
        ensures
            game@ == GameState::initial(starting_cash as nat),
    {
        Game {
            offers: FruitOfferController::new(),
            player: Player::new(starting_cash),
            keys: KeyHeldController::new(),
        }
    }

    /// Returns whether the game has an offer to act on.
    pub fn has_offer(&self) -> (has: bool)
        ensures
            has == self@.offer.is_some(),
    {
        self.offers.has_offer()
    }

    /// Returns a copy of the current offer, if there is one.
    pub fn current_offer(&self) -> (offer: Option<FruitOffer>)
        ensures
            offer == self@.offer,
    {
        self.offers.get_offer()
    }

    /// Returns the player.
    pub fn player(&self) -> (player: &Player)
        ensures
            player@ == self@.ledger,
    {
        &self.player
    }

    /// Takes in a new offer from the store. It replaces the current offer; the player and
    /// the filter stay as they are. Returns what the screen shows of the offer.
    pub fn receive_offer(&mut self, offer: &FruitOffer) -> (notice: OfferNotice)
        requires
            offer@.id < Config::AMOUNT_OF_OFFERS,
        ensures
            final(self)@ == old(self)@.with_offer(*offer),
            notice.fruit == offer@.fruit,
            notice.price == offer@.price,
            notice.offers_left == Config::AMOUNT_OF_OFFERS - offer@.id - 1,
    {
        self.offers.set_offer(offer);
        OfferNotice {
            fruit: offer.get_fruit(),
            price: offer.get_price(),
            offers_left: offers_left(offer.get_id()),
        }
    }

    /// Returns whether a tick with the given key keeps the numbers of the ledger within
    /// the machine's limits, and so may be taken.
    pub fn fits(&self, key: Option<PlayerInteractions>) -> (fits: bool)
        ensures
            fits == self@.fits(key),
    {
        let offer = match self.offers.get_offer() {
            None => {
                return true;
            },
            Some(offer) => offer,
        };
        let event = match key {
            None => {
                return true;
            },
            Some(event) => event,
        };
        match self.keys.peek(event, offer.get_id()) {
            Some(PlayerInteractions::Buy) => offer.get_price() > self.player.get_cash()
                || self.player.get_amount_of_fruit(offer.get_fruit()) < u32::MAX,
            Some(PlayerInteractions::Sell) => self.player.get_amount_of_fruit(offer.get_fruit())
                == 0 || offer.get_price() <= u32::MAX - self.player.get_cash(),
            _ => true,
        }
    }

    /// Takes one tick of the loop at the moment `now`, with the key that the keyboard
    /// gave, if it gave one. Without an offer nothing happens. With one, the key goes
    /// through the key-repeat filter, bound to the id of the offer. What the filter hands
    /// on is performed: a purchase or a sale on the player's ledger at the price of the
    /// offer, the rest as a report to the loop. Where nothing is performed, the filter is
    /// checked for a released key.
    pub fn tick_at(&mut self, key: Option<PlayerInteractions>, now: u64) -> (report: TickReport)
        requires
            old(self)@.fits(key),
        ensures
            report.outcome == old(self)@.outcome(key, now as nat),
            match report.timeout {
                Some(timeout) => old(self)@.timeout_at(now as nat) == Some(
                    (timeout.remaining_ms as nat, timeout.duration_ms as nat),
                ),
                None => old(self)@.timeout_at(now as nat) is None,
            },
            final(self)@ == old(self)@.after_tick(key, now as nat),
    {
        let offer = match self.offers.get_offer() {
            None => {
                return TickReport { timeout: None, outcome: TickOutcome::Quiet };
            },
            Some(offer) => offer,
        };
        let timeout = match offer.millis_since_offer_at(now) {
            None => None,
            Some(elapsed) => Some(
                Timeout {
                    remaining_ms: offer.remaining_millis(elapsed),
                    duration_ms: offer.get_duration_ms(),
                },
            ),
        };
        let emitted = self.keys.filter_option_interaction_at(key, offer.get_id(), now);
        let outcome = match emitted {
            None => {
                if self.keys.cancel_if_elapsed_at(now) {
                    TickOutcome::Released
                } else {
                    TickOutcome::Quiet
                }
            },
            Some(PlayerInteractions::Buy) => {
                match self.player.buy_offer(offer.get_fruit(), offer.get_price()) {
                    None => TickOutcome::InsufficientFunds,
                    Some(_) => TickOutcome::Bought,
                }
            },
            Some(PlayerInteractions::Sell) => {
                match self.player.sell_offer(offer.get_fruit(), offer.get_price()) {
                    None => TickOutcome::NotInInventory,
                    Some(_) => TickOutcome::Sold,
                }
            },
            Some(PlayerInteractions::NextOffer) => TickOutcome::SkipRequested,
            Some(PlayerInteractions::Exit) => TickOutcome::ExitRequested,
            Some(PlayerInteractions::Info) => {
                let fruit = offer.get_fruit();
                let shown = Config::shown_range_for_fruit(&fruit);
                TickOutcome::Info { fruit, lowest: shown.start, highest: shown.end }
            },
        };
        TickReport { timeout, outcome }
    }

    /// Takes one tick of the loop at the moment that the system clock shows.
    pub fn tick(&mut self, key: Option<PlayerInteractions>) -> (report: TickReport)
        requires
            old(self)@.fits(key),
        ensures
            exists|now: nat|
                {
                    &&& report.outcome == old(self)@.outcome(key, now)
                    &&& match report.timeout {
                        Some(timeout) => old(self)@.timeout_at(now) == Some(
                            (timeout.remaining_ms as nat, timeout.duration_ms as nat),
                        ),
                        None => old(self)@.timeout_at(now) is None,
                    }
                    &&& final(self)@ == old(self)@.after_tick(key, now)
                },
    {
        let now = now_millis();
        let report = self.tick_at(key, now);
        assert({
            &&& report.outcome == old(self)@.outcome(key, now as nat)
            &&& match report.timeout {
                Some(timeout) => old(self)@.timeout_at(now as nat) == Some(
                    (timeout.remaining_ms as nat, timeout.duration_ms as nat),
                ),
                None => old(self)@.timeout_at(now as nat) is None,
            }
            &&& self@ == old(self)@.after_tick(key, now as nat)
        });
        report
    }
}

} // verus!
