use fruit_store::config::Config;
use fruit_store::fruit::fruit_store::{FruitStore, OfferDraw, StoreAction, StoreDecision};
use fruit_store::fruit::{Fruit, FruitOffer};

fn draw(duration_ms: u32) -> OfferDraw {
    OfferDraw { fruit: Fruit::Banana, price: 2, duration_ms, start: 7 }
}

fn published(action: StoreAction) -> FruitOffer {
    match action {
        StoreAction::Publish(offer) => offer,
        other => panic!("expected an offer, got {:?}", other),
    }
}

#[test]
fn new_store_is_alive_and_has_published_nothing() {
    let store = FruitStore::new();
    assert!(store.is_alive());
    assert_eq!(store.published(), 0);
}

#[test]
fn first_step_publishes_offer_zero() {
    let mut store = FruitStore::new();
    let offer = published(store.step_with(true, false, draw(30)));
    assert_eq!(offer, FruitOffer::new(Fruit::Banana, 2, 7, 30, 0));
    assert_eq!(store.published(), 1);
    assert!(store.is_alive());
}

#[test]
fn first_offer_is_published_even_when_stopped() {
    let mut store = FruitStore::new();
    assert_eq!(store.decide(false, false), StoreDecision::Publish);
    let offer = published(store.step_with(false, true, draw(30)));
    assert_eq!(offer.get_id(), 0);
    assert_eq!(store.step_with(false, false, draw(30)), StoreAction::Stop);
    assert!(!store.is_alive());
}

#[test]
fn store_waits_in_polls_until_the_offer_is_over() {
    let mut store = FruitStore::new();
    published(store.step_with(true, false, draw(25)));
    assert_eq!(store.step_with(true, false, draw(40)), StoreAction::Wait);
    assert_eq!(store.step_with(true, false, draw(40)), StoreAction::Wait);
    assert_eq!(store.step_with(true, false, draw(40)), StoreAction::Wait);
    let next = published(store.step_with(true, false, draw(40)));
    assert_eq!(next, FruitOffer::new(Fruit::Banana, 2, 7, 40, 1));
    assert_eq!(store.published(), 2);
}

#[test]
fn wait_ends_when_duration_is_a_multiple_of_the_poll() {
    let mut store = FruitStore::new();
    published(store.step_with(true, false, draw(20)));
    assert_eq!(store.step_with(true, false, draw(20)), StoreAction::Wait);
    assert_eq!(store.step_with(true, false, draw(20)), StoreAction::Wait);
    assert_eq!(published(store.step_with(true, false, draw(20))).get_id(), 1);
}

#[test]
fn offer_without_duration_is_followed_at_once() {
    let mut store = FruitStore::new();
    published(store.step_with(true, false, draw(0)));
    assert_eq!(published(store.step_with(true, true, draw(0))).get_id(), 1);
}

#[test]
fn stop_signal_ends_the_store_during_a_wait() {
    let mut store = FruitStore::new();
    published(store.step_with(true, false, draw(100)));
    assert_eq!(store.step_with(true, false, draw(100)), StoreAction::Wait);
    assert_eq!(store.step_with(false, false, draw(100)), StoreAction::Stop);
    assert!(!store.is_alive());
    assert_eq!(store.published(), 1);
}

#[test]
fn stop_signal_wins_over_skip() {
    let mut store = FruitStore::new();
    published(store.step_with(true, false, draw(100)));
    assert_eq!(store.decide(false, true), StoreDecision::Stop);
    assert_eq!(store.step_with(false, true, draw(100)), StoreAction::Stop);
    assert!(!store.is_alive());
}

#[test]
fn stop_signal_ends_the_store_after_a_wait() {
    let mut store = FruitStore::new();
    published(store.step_with(true, false, draw(10)));
    assert_eq!(store.step_with(true, false, draw(10)), StoreAction::Wait);
    assert_eq!(store.step_with(false, false, draw(10)), StoreAction::Stop);
    assert!(!store.is_alive());
}

#[test]
fn skip_ends_the_wait_and_the_next_offer_follows() {
    let mut store = FruitStore::new();
    published(store.step_with(true, false, draw(5_000)));
    assert_eq!(store.step_with(true, false, draw(5_000)), StoreAction::Wait);
    assert_eq!(store.step_with(true, true, draw(5_000)), StoreAction::SkipTaken);
    assert!(store.is_alive());
    assert_eq!(store.published(), 1);
    let next = published(store.step_with(true, false, draw(3_000)));
    assert_eq!(next.get_id(), 1);
    assert_eq!(next.get_duration_ms(), 3_000);
}

#[test]
fn skip_is_not_looked_at_once_the_wait_is_over() {
    let mut store = FruitStore::new();
    published(store.step_with(true, false, draw(10)));
    assert_eq!(store.step_with(true, false, draw(10)), StoreAction::Wait);
    assert_eq!(store.decide(true, true), StoreDecision::Publish);
}

#[test]
fn ids_count_up_from_zero_without_gaps() {
    let mut store = FruitStore::new();
    let mut ids = Vec::new();
    let mut steps = 0u32;
    while store.is_alive() {
        steps += 1;
        assert!(steps < 1_000);
        let skip = steps % 3 == 0;
        if let StoreAction::Publish(offer) = store.step_with(true, skip, draw(35)) {
            ids.push(offer.get_id());
        }
    }
    let expected: Vec<u32> = (0..Config::AMOUNT_OF_OFFERS).collect();
    assert_eq!(ids, expected);
}

#[test]
fn quiet_store_publishes_every_offer_and_ends() {
    let mut store = FruitStore::new();
    let mut count = 0u32;
    let mut waits = 0u32;
    let mut steps = 0u32;
    loop {
        steps += 1;
        match store.step_with(true, false, draw(20)) {
            StoreAction::Publish(offer) => {
                assert_eq!(offer.get_id(), count);
                count += 1;
            },
            StoreAction::Wait => waits += 1,
            StoreAction::SkipTaken => panic!("no skip was asked for"),
            StoreAction::Stop => break,
        }
    }
    assert_eq!(count, Config::AMOUNT_OF_OFFERS);
    assert_eq!(waits, 2 * Config::AMOUNT_OF_OFFERS);
    assert_eq!(steps, 3 * Config::AMOUNT_OF_OFFERS + 1);
    assert!(!store.is_alive());
    assert_eq!(store.published(), Config::AMOUNT_OF_OFFERS);
}

#[test]
fn finished_store_publishes_nothing_more() {
    let mut store = FruitStore::new();
    while store.is_alive() {
        store.step_with(true, true, draw(50));
    }
    assert_eq!(store.published(), Config::AMOUNT_OF_OFFERS);
    for _ in 0..50 {
        assert_eq!(store.step_with(true, false, draw(50)), StoreAction::Stop);
        assert_eq!(store.step(true, true), StoreAction::Stop);
        assert!(!store.is_alive());
        assert_eq!(store.published(), Config::AMOUNT_OF_OFFERS);
    }
}

#[test]
fn skip_on_the_last_offer_ends_the_store() {
    let mut store = FruitStore::new();
    while store.published() < Config::AMOUNT_OF_OFFERS {
        store.step_with(true, true, draw(50));
    }
    assert!(store.is_alive());
    assert_eq!(store.step_with(true, true, draw(50)), StoreAction::SkipTaken);
    assert!(!store.is_alive());
    assert_eq!(store.step_with(true, false, draw(50)), StoreAction::Stop);
}

#[test]
fn gone_receiver_ends_the_store() {
    let mut store = FruitStore::new();
    published(store.step_with(true, false, draw(100)));
    store.receiver_gone();
    assert!(!store.is_alive());
    assert_eq!(store.published(), 1);
    assert_eq!(store.step_with(true, false, draw(100)), StoreAction::Stop);
}

#[test]
fn decide_agrees_with_step() {
    let mut store = FruitStore::new();
    let signals = [(true, false), (true, true), (true, false), (true, false), (false, false)];
    for (running, skip) in signals {
        let decision = store.decide(running, skip);
        let action = store.step_with(running, skip, draw(15));
        let matching = match (decision, action) {
            (StoreDecision::Publish, StoreAction::Publish(_)) => true,
            (StoreDecision::Wait, StoreAction::Wait) => true,
            (StoreDecision::SkipTaken, StoreAction::SkipTaken) => true,
            (StoreDecision::Stop, StoreAction::Stop) => true,
            _ => false,
        };
        assert!(matching);
    }
}

#[test]
fn drawn_prices_lie_in_the_range_of_the_fruit() {
    for fruit in Fruit::all() {
        let range = Config::range_for_fruit(&fruit);
        for _ in 0..500 {
            let price = FruitStore::price_for_fruit(&fruit);
            assert!(range.contains(&price));
        }
    }
}

#[test]
fn drawn_prices_vary() {
    let range = Config::range_for_fruit(&Fruit::DragonFruit);
    let mut lowest = u32::MAX;
    let mut highest = 0;
    for _ in 0..2_000 {
        let price = FruitStore::price_for_fruit(&Fruit::DragonFruit);
        lowest = lowest.min(price);
        highest = highest.max(price);
    }
    assert_eq!(lowest, range.start);
    assert_eq!(highest, range.end - 1);
}

#[test]
fn drawn_offers_are_within_the_settings() {
    for _ in 0..500 {
        let draw = OfferDraw::random();
        assert!(Config::range_for_fruit(&draw.fruit).contains(&draw.price));
        assert!(draw.duration_ms >= Config::OFFER_DURATION_MIN_MILLIS);
        assert!(draw.duration_ms < Config::OFFER_DURATION_MAX_MILLIS);
        assert!(draw.start > 1_500_000_000_000);
    }
}

#[test]
fn drawn_durations_vary() {
    let mut lowest = u32::MAX;
    let mut highest = 0;
    for _ in 0..500 {
        let draw = OfferDraw::random();
        lowest = lowest.min(draw.duration_ms);
        highest = highest.max(draw.duration_ms);
    }
    assert!(lowest < highest);
}

#[test]
fn store_with_random_offers_keeps_to_the_settings() {
    let mut store = FruitStore::new();
    let mut next_id = 0;
    while store.is_alive() {
        match store.step(true, true) {
            StoreAction::Publish(offer) => {
                assert_eq!(offer.get_id(), next_id);
                next_id += 1;
                assert!(Config::range_for_fruit(&offer.get_fruit()).contains(&offer.get_price()));
                assert!(offer.get_duration_ms() >= Config::OFFER_DURATION_MIN_MILLIS);
                assert!(offer.get_duration_ms() < Config::OFFER_DURATION_MAX_MILLIS);
            },
            StoreAction::SkipTaken => {},
            other => panic!("unexpected {:?}", other),
        }
    }
    assert_eq!(next_id, Config::AMOUNT_OF_OFFERS);
}

#[test]
fn store_left_alone_with_random_offers_ends_after_the_last() {
    let mut store = FruitStore::new();
    let mut count = 0;
    let mut steps = 0u32;
    while store.is_alive() {
        steps += 1;
        assert!(steps <= 54_101);
        if let StoreAction::Publish(_) = store.step(true, false) {
            count += 1;
        }
    }
    assert_eq!(count, Config::AMOUNT_OF_OFFERS);
    assert_eq!(store.step(true, false), StoreAction::Stop);
}
