use fruit_store::config::Config;
use fruit_store::console::input::PlayerInteractions;
use fruit_store::console::key_handling::{KeyHeld, KeyHeldController};

fn held(controller: &KeyHeldController) -> KeyHeld {
    match controller.current() {
        Some(held) => held,
        None => panic!("the filter holds no key"),
    }
}

#[test]
fn new_filter_is_idle() {
    let controller = KeyHeldController::new();
    assert_eq!(controller.current(), None);
}

#[test]
fn first_buy_emits_and_begins_a_hold() {
    let mut controller = KeyHeldController::new();
    let emitted = controller.filter_interaction_at(PlayerInteractions::Buy, 5, 1_000);
    assert_eq!(emitted, Some(PlayerInteractions::Buy));
    let hold = held(&controller);
    assert_eq!(hold.get_interaction(), PlayerInteractions::Buy);
    assert_eq!(hold.get_offer_id(), 5);
    assert_eq!(hold.get_started(), 1_000);
    assert_eq!(hold.get_last(), 1_000);
}

#[test]
fn held_key_on_same_offer_keeps_emitting() {
    let mut controller = KeyHeldController::new();
    controller.filter_interaction_at(PlayerInteractions::Sell, 5, 1_000);
    let emitted = controller.filter_interaction_at(PlayerInteractions::Sell, 5, 1_030);
    assert_eq!(emitted, Some(PlayerInteractions::Sell));
    let hold = held(&controller);
    assert_eq!(hold.get_offer_id(), 5);
    assert_eq!(hold.get_started(), 1_000);
    assert_eq!(hold.get_last(), 1_030);
}

#[test]
fn held_key_is_suppressed_on_the_next_offer() {
    let mut controller = KeyHeldController::new();
    controller.filter_interaction_at(PlayerInteractions::Buy, 5, 1_000);
    let emitted = controller.filter_interaction_at(PlayerInteractions::Buy, 6, 1_040);
    assert_eq!(emitted, None);
    let hold = held(&controller);
    assert_eq!(hold.get_interaction(), PlayerInteractions::Buy);
    assert_eq!(hold.get_offer_id(), 5);
    assert_eq!(hold.get_started(), 1_000);
    assert_eq!(hold.get_last(), 1_040);
}

#[test]
fn suppressed_key_stays_suppressed_while_held() {
    let mut controller = KeyHeldController::new();
    controller.filter_interaction_at(PlayerInteractions::Buy, 5, 1_000);
    for step in 1..20u64 {
        let emitted = controller.filter_interaction_at(PlayerInteractions::Buy, 6, 1_000 + 30 * step);
        assert_eq!(emitted, None);
        assert!(!controller.cancel_if_elapsed_at(1_000 + 30 * step + 10));
    }
}

#[test]
fn released_key_acts_on_the_new_offer() {
    let mut controller = KeyHeldController::new();
    controller.filter_interaction_at(PlayerInteractions::Buy, 5, 1_000);
    assert_eq!(controller.filter_interaction_at(PlayerInteractions::Buy, 6, 1_040), None);
    assert!(controller.cancel_if_elapsed_at(1_541));
    let emitted = controller.filter_interaction_at(PlayerInteractions::Buy, 6, 1_600);
    assert_eq!(emitted, Some(PlayerInteractions::Buy));
    assert_eq!(held(&controller).get_offer_id(), 6);
    assert_eq!(held(&controller).get_started(), 1_600);
}

#[test]
fn another_kind_replaces_the_hold_and_emits() {
    let mut controller = KeyHeldController::new();
    controller.filter_interaction_at(PlayerInteractions::Buy, 5, 1_000);
    let emitted = controller.filter_interaction_at(PlayerInteractions::Sell, 6, 1_020);
    assert_eq!(emitted, Some(PlayerInteractions::Sell));
    let hold = held(&controller);
    assert_eq!(hold.get_interaction(), PlayerInteractions::Sell);
    assert_eq!(hold.get_offer_id(), 6);
    assert_eq!(hold.get_started(), 1_020);
    assert_eq!(hold.get_last(), 1_020);
}

#[test]
fn one_shot_kinds_always_emit() {
    for kind in [PlayerInteractions::NextOffer, PlayerInteractions::Exit, PlayerInteractions::Info] {
        let mut controller = KeyHeldController::new();
        assert_eq!(controller.filter_interaction_at(kind, 5, 1_000), Some(kind));
        assert_eq!(controller.filter_interaction_at(kind, 5, 1_010), Some(kind));
        assert_eq!(controller.filter_interaction_at(kind, 6, 1_020), Some(kind));
        let hold = held(&controller);
        assert_eq!(hold.get_offer_id(), 6);
        assert_eq!(hold.get_started(), 1_020);
    }
}

#[test]
fn first_buy_emits_whatever_was_held_before() {
    let before = [
        None,
        Some(PlayerInteractions::Sell),
        Some(PlayerInteractions::NextOffer),
        Some(PlayerInteractions::Exit),
        Some(PlayerInteractions::Info),
    ];
    for prior in before {
        let mut controller = KeyHeldController::new();
        if let Some(kind) = prior {
            controller.filter_interaction_at(kind, 3, 500);
        }
        assert_eq!(
            controller.filter_interaction_at(PlayerInteractions::Buy, 4, 600),
            Some(PlayerInteractions::Buy)
        );
    }
}

#[test]
fn no_event_leaves_the_filter_alone() {
    let mut controller = KeyHeldController::new();
    assert_eq!(controller.filter_option_interaction_at(None, 5, 1_000), None);
    assert_eq!(controller.current(), None);
    controller.filter_option_interaction_at(Some(PlayerInteractions::Buy), 5, 1_000);
    let before = controller.current();
    assert_eq!(controller.filter_option_interaction_at(None, 6, 9_000), None);
    assert_eq!(controller.current(), before);
}

#[test]
fn option_filter_matches_plain_filter() {
    let mut plain = KeyHeldController::new();
    let mut wrapped = KeyHeldController::new();
    let events = [
        (PlayerInteractions::Buy, 1u32),
        (PlayerInteractions::Buy, 1),
        (PlayerInteractions::Buy, 2),
        (PlayerInteractions::Info, 2),
        (PlayerInteractions::Sell, 2),
        (PlayerInteractions::Sell, 3),
    ];
    let mut now = 100u64;
    for (kind, offer) in events {
        now += 25;
        assert_eq!(
            plain.filter_interaction_at(kind, offer, now),
            wrapped.filter_option_interaction_at(Some(kind), offer, now)
        );
        assert_eq!(plain.current(), wrapped.current());
    }
}

#[test]
fn release_waits_for_the_threshold() {
    let threshold = Config::KEY_RELEASE_MILLIS as u64;
    assert_eq!(threshold, 500);
    let mut controller = KeyHeldController::new();
    controller.filter_interaction_at(PlayerInteractions::Buy, 5, 1_000);
    assert!(!controller.cancel_if_elapsed_at(1_000));
    assert!(!controller.cancel_if_elapsed_at(1_000 + threshold));
    assert!(controller.current().is_some());
    assert!(controller.cancel_if_elapsed_at(1_000 + threshold + 1));
    assert_eq!(controller.current(), None);
}

#[test]
fn release_is_reported_exactly_once() {
    let mut controller = KeyHeldController::new();
    controller.filter_interaction_at(PlayerInteractions::Buy, 5, 1_000);
    controller.filter_interaction_at(PlayerInteractions::Buy, 5, 1_200);
    assert!(!controller.cancel_if_elapsed_at(1_600));
    assert!(controller.cancel_if_elapsed_at(1_701));
    assert!(!controller.cancel_if_elapsed_at(1_702));
    assert!(!controller.cancel_if_elapsed_at(99_999));
    assert_eq!(controller.current(), None);
}

#[test]
fn idle_filter_releases_nothing() {
    let mut controller = KeyHeldController::new();
    assert!(!controller.cancel_if_elapsed_at(0));
    assert!(!controller.cancel_if_elapsed_at(u64::MAX));
}

#[test]
fn clock_before_the_last_sighting_releases_nothing() {
    let mut controller = KeyHeldController::new();
    controller.filter_interaction_at(PlayerInteractions::Buy, 5, 10_000);
    assert!(!controller.cancel_if_elapsed_at(2_000));
    assert!(controller.current().is_some());
}

#[test]
fn key_held_expires_after_the_threshold() {
    let mut hold = KeyHeld::new(PlayerInteractions::Sell, 8, 2_000);
    assert!(!hold.can_be_canceled_at(2_500));
    assert!(hold.can_be_canceled_at(2_501));
    hold.update_last_at(2_400);
    assert_eq!(hold.get_last(), 2_400);
    assert_eq!(hold.get_started(), 2_000);
    assert!(!hold.can_be_canceled_at(2_900));
    assert!(hold.can_be_canceled_at(2_901));
    assert!(!hold.can_be_canceled_at(0));
}

#[test]
fn peek_tells_what_the_filter_would_emit() {
    let mut controller = KeyHeldController::new();
    assert_eq!(controller.peek(PlayerInteractions::Buy, 5), Some(PlayerInteractions::Buy));
    controller.filter_interaction_at(PlayerInteractions::Buy, 5, 1_000);
    let before = controller.current();
    assert_eq!(controller.peek(PlayerInteractions::Buy, 5), Some(PlayerInteractions::Buy));
    assert_eq!(controller.peek(PlayerInteractions::Buy, 6), None);
    assert_eq!(controller.peek(PlayerInteractions::Sell, 6), Some(PlayerInteractions::Sell));
    assert_eq!(controller.current(), before);
}

#[test]
fn clock_filter_emits_as_the_timed_one() {
    let mut controller = KeyHeldController::new();
    assert_eq!(
        controller.filter_interaction(PlayerInteractions::Buy, 5),
        Some(PlayerInteractions::Buy)
    );
    assert_eq!(
        controller.filter_option_interaction(Some(PlayerInteractions::Buy), 5),
        Some(PlayerInteractions::Buy)
    );
    assert_eq!(controller.filter_option_interaction(Some(PlayerInteractions::Buy), 6), None);
    assert_eq!(controller.filter_option_interaction(None, 6), None);
    let hold = held(&controller);
    assert_eq!(hold.get_offer_id(), 5);
    assert!(hold.get_started() <= hold.get_last());
    assert!(!controller.cancel_if_elapsed());
    assert!(controller.current().is_some());
}

#[test]
fn clock_hold_is_fresh_when_just_seen() {
    let mut controller = KeyHeldController::new();
    controller.filter_interaction(PlayerInteractions::Sell, 1);
    let mut hold = held(&controller);
    assert!(!hold.can_be_canceled());
    hold.update_last();
    assert!(hold.get_last() >= hold.get_started());
    let mut stale = KeyHeld::new(PlayerInteractions::Sell, 1, 1);
    assert!(stale.can_be_canceled());
    stale.update_last();
    assert!(!stale.can_be_canceled());
}

#[test]
fn keys_stand_for_interactions() {
    assert_eq!(PlayerInteractions::from_key('b'), Some(PlayerInteractions::Buy));
    assert_eq!(PlayerInteractions::from_key('s'), Some(PlayerInteractions::Sell));
    assert_eq!(PlayerInteractions::from_key('q'), Some(PlayerInteractions::Exit));
    assert_eq!(PlayerInteractions::from_key('e'), Some(PlayerInteractions::Exit));
    assert_eq!(PlayerInteractions::from_key('c'), Some(PlayerInteractions::Exit));
    assert_eq!(PlayerInteractions::from_key('n'), Some(PlayerInteractions::NextOffer));
    assert_eq!(PlayerInteractions::from_key('i'), Some(PlayerInteractions::Info));
    assert_eq!(PlayerInteractions::from_key('x'), None);
    assert_eq!(PlayerInteractions::from_key('B'), None);
    assert_eq!(PlayerInteractions::from_key(' '), None);
}

#[test]
fn only_buy_and_sell_repeat() {
    assert!(PlayerInteractions::Buy.is_repeatable());
    assert!(PlayerInteractions::Sell.is_repeatable());
    assert!(!PlayerInteractions::NextOffer.is_repeatable());
    assert!(!PlayerInteractions::Exit.is_repeatable());
    assert!(!PlayerInteractions::Info.is_repeatable());
}
