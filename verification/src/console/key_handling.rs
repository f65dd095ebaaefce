//! The key-repeat filter.
//!
//! A key that is held down arrives as a rapid stream of equal interactions. The filter
//! binds such a hold to the offer on which it began, so that a key still held when the
//! offer is replaced does not act on the offer that follows.

use crate::clock::now_millis;
use crate::config::Config;
use crate::console::input::PlayerInteractions;
use vstd::prelude::*;

verus! {

/// A key that is being held: what it does, on which offer the hold began, and when it was
/// first and last seen, in milliseconds of the clock.
pub struct Hold {
    pub kind: PlayerInteractions,
    pub offer_id: nat,
    pub started_at: nat,
    pub last_at: nat,
}

/// The state of the filter: no key is held, or one is.
pub enum FilterState {
    Idle,
    Held(Hold),
}

impl Hold {
    /// The hold that a first press of a key begins.
    pub open spec fn fresh(kind: PlayerInteractions, offer_id: nat, now: nat) -> Hold {
        Hold { kind, offer_id, started_at: now, last_at: now }
    }

    /// The same hold, seen again at the moment `now`.
    pub open spec fn refreshed(self, now: nat) -> Hold {
        Hold { last_at: now, ..self }
    }

    /// Whether the key has gone unseen for longer than the release threshold at the
    /// moment `now`. A moment before the last sighting releases nothing.
    pub open spec fn release_due(self, now: nat) -> bool {
        now - self.last_at > Config::KEY_RELEASE_MILLIS
    }
}

impl FilterState {
    /// Whether an incoming interaction goes on with the hold that the filter is in: it
    /// is of the kind that is held, and that kind repeats.
    pub open spec fn repeats(self, event: PlayerInteractions) -> bool {
        self matches FilterState::Held(hold) && hold.kind == event && event.spec_is_repeatable()
    }

    /// Whether the filter lets an incoming interaction through while the offer with
    /// `offer_id` is shown. Only a repeat of a hold that began on another offer is kept back.
    pub open spec fn emits(self, event: PlayerInteractions, offer_id: nat) -> bool {
        match self {
            FilterState::Held(hold) if self.repeats(event) => hold.offer_id == offer_id,
            _ => true,
        }
    }

    /// What the filter hands on for an incoming interaction.
    pub open spec fn emitted(self, event: PlayerInteractions, offer_id: nat) -> Option<
        PlayerInteractions,
    > {
        if self.emits(event, offer_id) {
            Some(event)
        } else {
            None
        }
    }

    /// The state after an interaction came in at the moment `now`, while the offer with
    /// `offer_id` is shown.
    pub open spec fn after_event(self, event: PlayerInteractions, offer_id: nat, now: nat)
        -> FilterState {
        match self {
            FilterState::Held(hold) if self.repeats(event) => FilterState::Held(
                hold.refreshed(now),
            ),
            _ => FilterState::Held(Hold::fresh(event, offer_id, now)),
        }
    }

    /// Whether the check at the moment `now` finds the held key released.
    pub open spec fn release_due(self, now: nat) -> bool {
        self matches FilterState::Held(hold) && hold.release_due(now)
    }

    /// The state after the check for a released key at the moment `now`.
    pub open spec fn after_check(self, now: nat) -> FilterState {
        if self.release_due(now) {
            FilterState::Idle
        } else {
            self
        }
    }
}

/// The interaction that the player performed last, and the times of the key that did it.
#[derive(Clone, Copy, Debug, PartialEq, Eq, Structural, Hash)]
pub struct KeyHeld {
    last_interaction: PlayerInteractions,
    started: u64,
    last: u64,
    offer_id: u32,
}

impl View for KeyHeld {
    type V = Hold;

    closed spec fn view(&self) -> Hold {
        Hold {
            kind: self.last_interaction,
            offer_id: self.offer_id as nat,
            started_at: self.started as nat,
            last_at: self.last as nat,
        }
    }
}

impl KeyHeld {
    /// Begins a hold: the key was pressed at the moment `now`, on the offer `offer_id`.
    pub fn new(interaction: PlayerInteractions, offer_id: u32, now: u64) -> (held: KeyHeld)
        ensures
            held@ == Hold::fresh(interaction, offer_id as nat, now as nat),
    {
        KeyHeld { last_interaction: interaction, started: now, last: now, offer_id }
    }

    /// Returns the interaction that the held key performs.
    pub fn get_interaction(&self) -> (kind: PlayerInteractions)
        ensures
            kind == self@.kind,
    {
        self.last_interaction
    }

    /// Returns the id of the offer on which the hold began.
    pub fn get_offer_id(&self) -> (offer_id: u32)
        ensures
            offer_id == self@.offer_id,
    {
        self.offer_id
    }

    /// Returns the moment at which the hold began.
    pub fn get_started(&self) -> (started: u64)
        ensures
            started == self@.started_at,
    {
        self.started
    }

    /// Returns the moment at which the key was last seen pressed.
    pub fn get_last(&self) -> (last: u64)
        ensures
            last == self@.last_at,
    {
        self.last
    }

    /// Records that the key was seen pressed at the moment `now`.
    pub fn update_last_at(&mut self, now: u64)
        ensures
            final(self)@ == old(self)@.refreshed(now as nat),
    {
        self.last = now;
    }

    /// Records that the key is seen pressed now, by the system clock.
    pub fn update_last(&mut self)
        ensures
            exists|now: nat| final(self)@ == old(self)@.refreshed(now),
    {
        let now = now_millis();
        self.update_last_at(now);
        assert(self@ == old(self)@.refreshed(now as nat));
    }

    /// Checks whether the key has expired at the moment `now` and can be removed: whether
    /// it was last seen longer ago than the release threshold.
    pub fn can_be_canceled_at(&self, now: u64) -> (expired: bool)
        ensures
            expired == self@.release_due(now as nat),
    {
        now > self.last && now - self.last > Config::KEY_RELEASE_MILLIS as u64
    }

    /// Checks whether the key has expired by now, on the system clock.
    pub fn can_be_canceled(&self) -> (expired: bool)
        ensures
            exists|now: nat| expired == self@.release_due(now),
    {
        let now = now_millis();
        let expired = self.can_be_canceled_at(now);
        assert(expired == self@.release_due(now as nat));
        expired
    }
}

/// Keeps track of the last interaction which the player performed and uses it to decide
/// whether the current interaction is performed. This keeps the player from acting on the
/// newest offer by mistake when the old offer expires under a held key.
pub struct KeyHeldController {
    current: Option<KeyHeld>,
}

impl View for KeyHeldController {
    type V = FilterState;

    closed spec fn view(&self) -> FilterState {
        match self.current {
            None => FilterState::Idle,
            Some(held) => FilterState::Held(held@),
        }
    }
}

impl KeyHeldController {
    pub fn new() -> (controller: KeyHeldController)
        ensures
            controller@ == FilterState::Idle,
    {
        KeyHeldController { current: None }
    }

    /// Returns the hold that the filter is in, if it is in one.
    pub fn current(&self) -> (current: Option<KeyHeld>)
        ensures
            match current {
                None => self@ == FilterState::Idle,
                Some(held) => self@ == FilterState::Held(held@),
            },
    {
        self.current
    }

    /// Returns what the filter would hand on for an interaction while the offer with the
    /// id `offer` is shown, and leaves the filter as it is.
    pub fn peek(&self, interaction: PlayerInteractions, offer: u32) -> (emitted: Option<
        PlayerInteractions,
    >)
        ensures
            emitted == self@.emitted(interaction, offer as nat),
    {
        match self.current {
            Some(held) => {
                if held.get_interaction() == interaction && interaction.is_repeatable()
                    && held.get_offer_id() != offer {
                    None
                } else {
                    Some(interaction)
                }
            },
            None => Some(interaction),
        }
    }

    /// Releases the held key if it was not seen pressed within the release threshold before
    /// the moment `now`, and returns whether it did.
    pub fn cancel_if_elapsed_at(&mut self, now: u64) -> (released: bool)
        ensures
            released == old(self)@.release_due(now as nat),
            final(self)@ == old(self)@.after_check(now as nat),
    {
        match self.current {
            None => {},
            Some(held) => {
                if held.can_be_canceled_at(now) {
                    self.current = None;
                    return true;
                }
            },
        }
        false
    }

    /// Releases the held key if it was not seen pressed within the release threshold before
    /// now, on the system clock, and returns whether it did.
    pub fn cancel_if_elapsed(&mut self) -> (released: bool)
        ensures
            exists|now: nat|
                released == old(self)@.release_due(now) && final(self)@ == old(self)@.after_check(
                    now,
                ),
    {
        let now = now_millis();
        let released = self.cancel_if_elapsed_at(now);
        assert(released == old(self)@.release_due(now as nat) && self@ == old(
            self,
        )@.after_check(now as nat));
        released
    }

    /// Passes what the input gave, if it gave anything, through the filter at the moment
    /// `now`, while the offer with the id `offer` is shown. Without an interaction the
    /// filter stays as it is.
    pub fn filter_option_interaction_at(
        &mut self,
        interaction: Option<PlayerInteractions>,
        offer: u32,
        now: u64,
    ) -> (emitted: Option<PlayerInteractions>)
        ensures
            match interaction {
                None => emitted is None && final(self)@ == old(self)@,
                Some(event) => emitted == old(self)@.emitted(event, offer as nat) && final(self)@
                    == old(self)@.after_event(event, offer as nat, now as nat),
            },
    {
        match interaction {
            None => None,
            Some(event) => self.filter_interaction_at(event, offer, now),
        }
    }

    /// Decides at the moment `now` whether an interaction is performed, while the offer with
    /// the id `offer` is shown. A repeat of the held buy or sell key goes through on the
    /// offer on which the hold began and is kept back on any other; either way the key
    /// counts as seen. Every other interaction goes through and begins a hold of its own.
    pub fn filter_interaction_at(&mut self, interaction: PlayerInteractions, offer: u32, now: u64)
        -> (emitted: Option<PlayerInteractions>)
        ensures
            emitted == old(self)@.emitted(interaction, offer as nat),
            final(self)@ == old(self)@.after_event(interaction, offer as nat, now as nat),
    {
        match self.current {
            Some(held) => {
                if held.get_interaction() == interaction && interaction.is_repeatable() {
                    let mut seen = held;
                    seen.update_last_at(now);
                    self.current = Some(seen);
                    if seen.get_offer_id() == offer {
                        return Some(interaction);
                    } else {
                        return None;
                    }
                }
            },
            None => {},
        }
        self.current = Some(KeyHeld::new(interaction, offer, now));
        Some(interaction)
    }

    /// Passes what the input gave through the filter, at the moment that the system clock
    /// shows. What is handed on does not depend on the clock.
    pub fn filter_option_interaction(
        &mut self,
        interaction: Option<PlayerInteractions>,
        offer: u32,
    ) -> (emitted: Option<PlayerInteractions>)
        ensures
            match interaction {
                None => emitted is None && final(self)@ == old(self)@,
                Some(event) => emitted == old(self)@.emitted(event, offer as nat) && exists|
                    now: nat,
                | final(self)@ == old(self)@.after_event(event, offer as nat, now),
            },
    {
        match interaction {
            None => None,
            Some(event) => self.filter_interaction(event, offer),
        }
    }

    /// Decides whether an interaction is performed, at the moment that the system clock
    /// shows. What is handed on does not depend on the clock.
    pub fn filter_interaction(&mut self, interaction: PlayerInteractions, offer: u32) -> (emitted:
        Option<PlayerInteractions>)
        ensures
            emitted == old(self)@.emitted(interaction, offer as nat),
            exists|now: nat| final(self)@ == old(self)@.after_event(interaction, offer as nat, now),
    {
        let now = now_millis();
        let emitted = self.filter_interaction_at(interaction, offer, now);
        assert(self@ == old(self)@.after_event(interaction, offer as nat, now as nat));
        emitted
    }
}

/// A hold that began on another offer does not act on the offer shown: a repeat of the
/// held buy or sell key hands nothing on, and changes nothing in the filter but the moment
/// at which the key was last seen.
pub proof fn lemma_stale_hold_is_suppressed(
    hold: Hold,
    event: PlayerInteractions,
    offer_id: nat,
    now: nat,
)
    requires
        hold.kind == event,
        event.spec_is_repeatable(),
        hold.offer_id != offer_id,
    ensures
        FilterState::Held(hold).emitted(event, offer_id) is None,
        FilterState::Held(hold).after_event(event, offer_id, now) == FilterState::Held(
            Hold { last_at: now, ..hold },
        ),
{
}

/// A repeat of the held buy or sell key on the offer on which the hold began goes through.
pub proof fn lemma_hold_on_same_offer_emits(hold: Hold, event: PlayerInteractions, now: nat)
    requires
        hold.kind == event,
        event.spec_is_repeatable(),
    ensures
        FilterState::Held(hold).emitted(event, hold.offer_id) == Some(event),
        FilterState::Held(hold).after_event(event, hold.offer_id, now) == FilterState::Held(
            Hold { last_at: now, ..hold },
        ),
{
}

/// The first press of a key always goes through: an interaction that does not go on with
/// a hold, because no key is held, another kind is held, or the kind happens once, is
/// handed on whatever the offer and the state, and begins a hold of its own.
pub proof fn lemma_first_press_emits(
    state: FilterState,
    event: PlayerInteractions,
    offer_id: nat,
    now: nat,
)
    requires
        state is Idle || state->Held_0.kind != event || !event.spec_is_repeatable(),
    ensures
        state.emitted(event, offer_id) == Some(event),
        state.after_event(event, offer_id, now) == FilterState::Held(
            Hold { kind: event, offer_id, started_at: now, last_at: now },
        ),
{
}

/// A held key that was last seen longer ago than the release threshold is released by the
/// next check, and the release is reported once: after it the filter is idle, and no later
/// check reports a release or changes the filter until a key is pressed again.
pub proof fn lemma_release_reported_once(hold: Hold, now: nat, later: nat)
    requires
        now - hold.last_at > Config::KEY_RELEASE_MILLIS,
    ensures
        FilterState::Held(hold).release_due(now),
        FilterState::Held(hold).after_check(now) == FilterState::Idle,
        !FilterState::Idle.release_due(later),
        FilterState::Idle.after_check(later) == FilterState::Idle,
{
}

/// A check within the release threshold of the last sighting leaves the hold as it is.
pub proof fn lemma_check_keeps_fresh_hold(hold: Hold, now: nat)
    requires
        now - hold.last_at <= Config::KEY_RELEASE_MILLIS,
    ensures
        !FilterState::Held(hold).release_due(now),
        FilterState::Held(hold).after_check(now) == FilterState::Held(hold),
{
}

} // verus!
