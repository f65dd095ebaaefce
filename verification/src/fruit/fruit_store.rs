//! The fruit store: the maker of the offers.
//!
//! The store makes a fixed number of offers, one after the other. Each offer is published
//! and then left standing for its duration, in short waits between which the store looks at
//! two signals: one that the game is still running, one that the player asked for the next
//! offer. The store itself only decides; whoever drives it publishes, sleeps and keeps the
//! signals.

use crate::chance::random_in_range;
use crate::clock::now_millis;
use crate::config::Config;
use crate::fruit::{Fruit, FruitOffer, OfferView};
use vstd::prelude::*;

verus! {

/// Where the store stands between two steps.
pub enum StorePhase {
    /// The next step publishes an offer.
    Ready,
    /// An offer is out, and has been left standing for `slept_ms` of its `duration_ms`.
    Waiting { slept_ms: nat, duration_ms: nat },
    /// The store has ended, and makes no more offers.
    Finished,
}

/// The state of the store: how many offers it has published, and where it stands.
pub struct StoreState {
    pub published: nat,
    pub phase: StorePhase,
}

/// What the store decides in a step.
#[derive(Clone, Copy, Debug, PartialEq, Eq, Structural)]
pub enum StoreDecision {
    /// Publish a new offer.
    Publish,
    /// Sleep for one poll interval.
    Wait,
    /// Give up the rest of the wait as the player asked, and take the request back.
    SkipTaken,
    /// End, and report that the store is no longer alive.
    Stop,
}

/// What chance and the clock gave for a new offer.
#[derive(Clone, Copy, Debug, PartialEq, Eq, Structural)]
pub struct OfferDraw {
    pub fruit: Fruit,
    pub price: u32,
    pub duration_ms: u32,
    pub start: u64,
}

/// What the store asks of its driver after a step.
#[derive(Clone, Copy, Debug, PartialEq, Eq, Structural)]
pub enum StoreAction {
    /// Send this offer to the game.
    Publish(FruitOffer),
    /// Sleep for one poll interval.
    Wait,
    /// Take back the player's request for the next offer.
    SkipTaken,
    /// Report that the store is no longer alive, and end.
    Stop,
}

/// What an action says, with the offer by what it says.
pub enum StoreActionView {
    Publish(OfferView),
    Wait,
    SkipTaken,
    Stop,
}

impl View for StoreAction {
    type V = StoreActionView;

    open spec fn view(&self) -> StoreActionView {
        match *self {
            StoreAction::Publish(offer) => StoreActionView::Publish(offer@),
            StoreAction::Wait => StoreActionView::Wait,
            StoreAction::SkipTaken => StoreActionView::SkipTaken,
            StoreAction::Stop => StoreActionView::Stop,
        }
    }
}

impl OfferDraw {
    /// Whether the price is one that the fruit can cost, and the duration one that an
    /// offer can last.
    pub open spec fn allowed(self) -> bool {
        &&& Config::price_allowed(self.fruit, self.price as nat)
        &&& Config::duration_allowed(self.duration_ms as nat)
    }

    /// The offer with the given id that is made of what was drawn.
    pub open spec fn offer(self, id: nat) -> OfferView {
        OfferView {
            fruit: self.fruit,
            price: self.price as nat,
            start: self.start as nat,
            duration_ms: self.duration_ms as nat,
            id,
        }
    }

    /// Draws a fruit, a price from the price range of that fruit and a duration from the
    /// range of the durations, and reads the clock.
    pub fn random() -> (draw: OfferDraw)
        ensures
            draw.allowed(),
    {
        let fruit = Fruit::random();
        let price = FruitStore::price_for_fruit(&fruit);
        let duration_ms = random_in_range(
            Config::OFFER_DURATION_MIN_MILLIS,
            Config::OFFER_DURATION_MAX_MILLIS,
        );
        OfferDraw { fruit, price, duration_ms, start: now_millis() }
    }
}

impl StoreState {
    /// The store before its first step.
    pub open spec fn initial() -> StoreState {
        StoreState { published: 0, phase: StorePhase::Ready }
    }

    /// What holds of every state that the store can be in: it has published no more
    /// offers than a game has, it is about to publish only while offers are left, and it
    /// waits only on an offer that it has published.
    pub open spec fn wf(self) -> bool {
        &&& self.published <= Config::AMOUNT_OF_OFFERS
        &&& self.phase is Ready ==> self.published < Config::AMOUNT_OF_OFFERS
        &&& self.phase is Waiting ==> self.published >= 1
    }

    /// Whether the store is still at work.
    pub open spec fn alive(self) -> bool {
        !(self.phase is Finished)
    }

    /// What the store decides in a step, given the two signals as they stand.
    pub open spec fn decision(self, running: bool, skip_requested: bool) -> StoreDecision {
        match self.phase {
            StorePhase::Ready => StoreDecision::Publish,
            StorePhase::Finished => StoreDecision::Stop,
            StorePhase::Waiting { slept_ms, duration_ms } => {
                if !running {
                    StoreDecision::Stop
                } else if slept_ms < duration_ms {
                    if skip_requested {
                        StoreDecision::SkipTaken
                    } else {
                        StoreDecision::Wait
                    }
                } else if self.published < Config::AMOUNT_OF_OFFERS {
                    StoreDecision::Publish
                } else {
                    StoreDecision::Stop
                }
            },
        }
    }

    /// The state after a step. `duration_ms` is the duration of the offer that the step
    /// publishes, if it publishes one.
    pub open spec fn after(self, running: bool, skip_requested: bool, duration_ms: nat)
        -> StoreState {
        match self.decision(running, skip_requested) {
            StoreDecision::Publish => StoreState {
                published: self.published + 1,
                phase: StorePhase::Waiting { slept_ms: 0, duration_ms },
            },
            StoreDecision::Wait => StoreState {
                published: self.published,
                phase: StorePhase::Waiting {
                    slept_ms: self.phase->slept_ms + Config::POLL_INTERVAL_MILLIS as nat,
                    duration_ms: self.phase->duration_ms,
                },
            },
            StoreDecision::SkipTaken => StoreState {
                published: self.published,
                phase: if self.published < Config::AMOUNT_OF_OFFERS {
                    StorePhase::Ready
                } else {
                    StorePhase::Finished
                },
            },
            StoreDecision::Stop => StoreState {
                published: self.published,
                phase: StorePhase::Finished,
            },
        }
    }

    /// What the store asks for in a step. The offer that it publishes is made of `draw` and
    /// has the number of the offers before it as its id.
    pub open spec fn action(self, running: bool, skip_requested: bool, draw: OfferDraw)
        -> StoreActionView {
        match self.decision(running, skip_requested) {
            StoreDecision::Publish => StoreActionView::Publish(draw.offer(self.published)),
            StoreDecision::Wait => StoreActionView::Wait,
            StoreDecision::SkipTaken => StoreActionView::SkipTaken,
            StoreDecision::Stop => StoreActionView::Stop,
        }
    }
}

enum Phase {
    Ready,
    Waiting { slept_ms: u64, duration_ms: u32 },
    Finished,
}

/// The fruit store makes a new offer when the last one has expired. It ends when it has
/// made as many offers as a game has, or when it sees that the game no longer runs.
pub struct FruitStore {
    published: u32,
    phase: Phase,
}

impl View for FruitStore {
    type V = StoreState;

    closed spec fn view(&self) -> StoreState {
        StoreState {
            published: self.published as nat,
            phase: match self.phase {
                Phase::Ready => StorePhase::Ready,
                Phase::Waiting { slept_ms, duration_ms } => StorePhase::Waiting {
                    slept_ms: slept_ms as nat,
                    duration_ms: duration_ms as nat,
                },
                Phase::Finished => StorePhase::Finished,
            },
        }
    }
}

impl FruitStore {
    #[verifier::type_invariant]
    closed spec fn inv(self) -> bool {
        self@.wf()
    }

    pub fn new() -> (store: FruitStore)
        ensures
            store@ == StoreState::initial(),
    {
        FruitStore { published: 0, phase: Phase::Ready }
    }

    /// Returns whether the store is still at work. Once it is not, it stays so.
    pub fn is_alive(&self) -> (alive: bool)
        ensures
            alive == self@.alive(),
    {
        match self.phase {
            Phase::Finished => false,
            _ => true,
        }
    }

    /// Returns how many offers the store has published.
    pub fn published(&self) -> (published: u32)
        ensures
            published == self@.published,
            published <= Config::AMOUNT_OF_OFFERS,
            self@.wf(),
    {
        proof {
            use_type_invariant(self);
        }
        self.published
    }

    /// Draws a price for a fruit from the price range of that fruit.
    pub fn price_for_fruit(fruit: &Fruit) -> (price: u32)
        ensures
            Config::price_allowed(*fruit, price as nat),
    {
        let range = Config::range_for_fruit(fruit);
        random_in_range(range.start, range.end)
    }

    /// Returns what the store does in its next step, given the two signals.
    pub fn decide(&self, running: bool, skip_requested: bool) -> (decision: StoreDecision)
        ensures
            decision == self@.decision(running, skip_requested),
    {
        match self.phase {
            Phase::Ready => StoreDecision::Publish,
            Phase::Finished => StoreDecision::Stop,
            Phase::Waiting { slept_ms, duration_ms } => {
                if !running {
                    StoreDecision::Stop
                } else if slept_ms < duration_ms as u64 {
                    if skip_requested {
                        StoreDecision::SkipTaken
                    } else {
                        StoreDecision::Wait
                    }
                } else if self.published < Config::AMOUNT_OF_OFFERS {
                    StoreDecision::Publish
                } else {
                    StoreDecision::Stop
                }
            },
        }
    }

    /// Publishes the offer made of `draw`, in a step that is to publish.
    fn publish(&mut self, running: bool, skip_requested: bool, draw: OfferDraw) -> (action:
        StoreAction)
        requires
            old(self)@.decision(running, skip_requested) == StoreDecision::Publish,
        ensures
            action@ == old(self)@.action(running, skip_requested, draw),
            final(self)@ == old(self)@.after(running, skip_requested, draw.duration_ms as nat),
    {
        proof {
            use_type_invariant(&*self);
        }
        let offer = FruitOffer::new(
            draw.fruit,
            draw.price,
            draw.start,
            draw.duration_ms,
            self.published,
        );
        *self = FruitStore {
            published: self.published + 1,
            phase: Phase::Waiting { slept_ms: 0, duration_ms: draw.duration_ms },
        };
        StoreAction::Publish(offer)
    }

    /// Takes a step that publishes nothing.
    fn pass(&mut self, running: bool, skip_requested: bool) -> (action: StoreAction)
        requires
            old(self)@.decision(running, skip_requested) != StoreDecision::Publish,
        ensures
            forall|draw: OfferDraw|
                action@ == #[trigger] old(self)@.action(running, skip_requested, draw),
            forall|duration_ms: nat|
                final(self)@ == #[trigger] old(self)@.after(running, skip_requested, duration_ms),
    {
        proof {
            use_type_invariant(&*self);
        }
        match self.decide(running, skip_requested) {
            StoreDecision::Wait => {
                match self.phase {
                    Phase::Waiting { slept_ms, duration_ms } => {
                        *self = FruitStore {
                            published: self.published,
                            phase: Phase::Waiting {
                                slept_ms: slept_ms + Config::POLL_INTERVAL_MILLIS as u64,
                                duration_ms,
                            },
                        };
                    },
                    _ => {},
                }
                StoreAction::Wait
            },
            StoreDecision::SkipTaken => {
                let phase = if self.published < Config::AMOUNT_OF_OFFERS {
                    Phase::Ready
                } else {
                    Phase::Finished
                };
                *self = FruitStore { published: self.published, phase };
                StoreAction::SkipTaken
            },
            _ => {
                *self = FruitStore { published: self.published, phase: Phase::Finished };
                StoreAction::Stop
            },
        }
    }

    /// Takes one step of the store, given the two signals as they stand and what was drawn
    /// for the offer, should the step publish one. The store publishes its first offer at
    /// once. While an offer stands, it ends if the game no longer runs, gives up the wait
    /// if the player asked for the next offer, and else waits one poll interval. When the
    /// time of the offer is over, it ends if the game no longer runs or no offer is left,
    /// and else publishes the next one.
    pub fn step_with(&mut self, running: bool, skip_requested: bool, draw: OfferDraw) -> (action:
        StoreAction)
        ensures
            action@ == old(self)@.action(running, skip_requested, draw),
            final(self)@ == old(self)@.after(running, skip_requested, draw.duration_ms as nat),
            old(self)@.wf(),
            final(self)@.wf(),
    {
        proof {
            use_type_invariant(&*self);
        }
        match self.decide(running, skip_requested) {
            StoreDecision::Publish => self.publish(running, skip_requested, draw),
            _ => self.pass(running, skip_requested),
        }
    }

    /// Takes one step of the store, given the two signals as they stand. An offer that
    /// the step publishes has the number of the offers before it as its id, a fruit drawn
    /// from all the kinds, a price drawn from the range of that fruit, a duration drawn
    /// from the range of the durations, and the moment that the clock shows as its start.
    pub fn step(&mut self, running: bool, skip_requested: bool) -> (action: StoreAction)
        ensures
            exists|draw: OfferDraw|
                draw.allowed() && action@ == #[trigger] old(self)@.action(
                    running,
                    skip_requested,
                    draw,
                ) && final(self)@ == old(self)@.after(
                    running,
                    skip_requested,
                    draw.duration_ms as nat,
                ),
            action@ matches StoreActionView::Publish(offer) ==> {
                &&& offer.id == old(self)@.published
                &&& Config::price_allowed(offer.fruit, offer.price)
                &&& Config::duration_allowed(offer.duration_ms)
            },
            old(self)@.wf(),
            final(self)@.wf(),
    {
        proof {
            use_type_invariant(&*self);
        }
        match self.decide(running, skip_requested) {
            StoreDecision::Publish => {
                let draw = OfferDraw::random();
                self.publish(running, skip_requested, draw)
            },
            _ => {
                let action = self.pass(running, skip_requested);
                proof {
                    let draw = OfferDraw {
                        fruit: Fruit::Apples,
                        price: 3,
                        duration_ms: Config::OFFER_DURATION_MIN_MILLIS,
                        start: 0,
                    };
                    assert(draw.allowed());
                    assert(action@ == old(self)@.action(running, skip_requested, draw));
                }
                action
            },
        }
    }

    /// Ends the store because the game no longer takes its offers.
    pub fn receiver_gone(&mut self)
        ensures
            !final(self)@.alive(),
            final(self)@.published == old(self)@.published,
    {
        proof {
            use_type_invariant(&*self);
        }
        *self = FruitStore { published: self.published, phase: Phase::Finished };
    }
}

/// The signals as they stand at one step of the store, and the duration of the offer that
/// the step publishes, if it publishes one.
pub struct StoreInput {
    pub running: bool,
    pub skip_requested: bool,
    pub duration_ms: nat,
}

impl StoreInput {
    /// Whether the step sees the game running and no request for the next offer, and
    /// draws a duration that an offer can last.
    pub open spec fn quiet(self) -> bool {
        self.running && !self.skip_requested && Config::duration_allowed(self.duration_ms)
    }
}

/// The most short waits that an offer can be left standing for.
pub open spec fn max_polls() -> nat {
    ((Config::OFFER_DURATION_MAX_MILLIS - 1 + Config::POLL_INTERVAL_MILLIS - 1)
        / Config::POLL_INTERVAL_MILLIS as int) as nat
}

/// The short waits that are left of an offer of which `slept_ms` of `duration_ms` are over.
pub open spec fn polls_left(slept_ms: nat, duration_ms: nat) -> nat {
    if slept_ms >= duration_ms {
        0
    } else {
        ((duration_ms - slept_ms + Config::POLL_INTERVAL_MILLIS - 1)
            / Config::POLL_INTERVAL_MILLIS as int) as nat
    }
}

/// A number of steps within which a store that is left alone has ended.
pub open spec fn quiet_run_bound() -> nat {
    StoreState::initial().steps_left()
}

impl StoreState {
    /// The state after one step for each of the inputs, in their order.
    pub open spec fn run(self, inputs: Seq<StoreInput>) -> StoreState
        decreases inputs.len(),
    {
        if inputs.len() == 0 {
            self
        } else {
            self.after(inputs[0].running, inputs[0].skip_requested, inputs[0].duration_ms).run(
                inputs.drop_first(),
            )
        }
    }

    /// The ids of the offers that the store publishes in one step for each of the inputs,
    /// in the order in which it publishes them.
    pub open spec fn published_ids(self, inputs: Seq<StoreInput>) -> Seq<nat>
        decreases inputs.len(),
    {
        if inputs.len() == 0 {
            Seq::empty()
        } else {
            let rest = self.after(
                inputs[0].running,
                inputs[0].skip_requested,
                inputs[0].duration_ms,
            ).published_ids(inputs.drop_first());
            if self.decision(inputs[0].running, inputs[0].skip_requested)
                == StoreDecision::Publish {
                seq![self.published] + rest
            } else {
                rest
            }
        }
    }

    /// Whether the offer that the store waits on, if it waits on one, has a duration that
    /// an offer can last.
    pub open spec fn paced(self) -> bool {
        self.phase matches StorePhase::Waiting { slept_ms, duration_ms }
            ==> Config::duration_allowed(duration_ms)
    }

    /// Whether the store has ended only after the last offer of the game.
    pub open spec fn sold_out_if_over(self) -> bool {
        !self.alive() ==> self.published == Config::AMOUNT_OF_OFFERS
    }

    /// A number of steps within which the store has ended, if it is left alone.
    pub open spec fn steps_left(self) -> nat {
        let later = ((Config::AMOUNT_OF_OFFERS - self.published) * (max_polls() + 1)) as nat;
        match self.phase {
            StorePhase::Finished => 0,
            StorePhase::Ready => 1 + later,
            StorePhase::Waiting { slept_ms, duration_ms } => polls_left(slept_ms, duration_ms) + 1
                + later,
        }
    }
}

/// A step keeps the store well-formed, and publishes at most the one offer that comes
/// next: the count of the published offers goes up by one in a step that publishes, and
/// stays in every other.
pub proof fn lemma_step_counts_one(
    state: StoreState,
    running: bool,
    skip_requested: bool,
    duration_ms: nat,
)
    requires
        state.wf(),
    ensures
        state.after(running, skip_requested, duration_ms).wf(),
        state.after(running, skip_requested, duration_ms).published == state.published + (if state.decision(
            running,
            skip_requested,
        ) == StoreDecision::Publish {
            1nat
        } else {
            0nat
        }),
{
}

/// The ids of the offers count up without a gap: whatever the signals and the durations,
/// the offers that the store publishes in a run of steps have the ids that follow on the
/// offers published before, each one more than the last, and there are never more offers
/// than a game has. From the first step of a store these are the ids 0, 1, 2 and so on.
pub proof fn lemma_ids_count_up(state: StoreState, inputs: Seq<StoreInput>)
    requires
        state.wf(),
    ensures
        state.run(inputs).wf(),
        state.published <= state.run(inputs).published <= Config::AMOUNT_OF_OFFERS,
        state.published_ids(inputs).len() == state.run(inputs).published - state.published,
        forall|i: int|
            0 <= i < state.published_ids(inputs).len() ==> #[trigger] state.published_ids(
                inputs,
            )[i] == state.published + i,
    decreases inputs.len(),
{
    if inputs.len() > 0 {
        let next = state.after(inputs[0].running, inputs[0].skip_requested, inputs[0].duration_ms);
        lemma_step_counts_one(
            state,
            inputs[0].running,
            inputs[0].skip_requested,
            inputs[0].duration_ms,
        );
        lemma_ids_count_up(next, inputs.drop_first());
    }
}

/// A store that has ended stays so: whatever the signals, it never comes alive again and
/// publishes no further offer.
pub proof fn lemma_finished_store_stays_finished(state: StoreState, inputs: Seq<StoreInput>)
    requires
        !state.alive(),
    ensures
        state.run(inputs) == state,
        state.published_ids(inputs).len() == 0,
    decreases inputs.len(),
{
    if inputs.len() > 0 {
        lemma_finished_store_stays_finished(state, inputs.drop_first());
    }
}

/// One step of a store that is left alone brings it nearer to its end, and it ends only
/// when every offer of the game is out.
proof fn lemma_quiet_step(state: StoreState, input: StoreInput)
    requires
        state.wf(),
        state.paced(),
        state.sold_out_if_over(),
        input.quiet(),
    ensures
        state.after(input.running, input.skip_requested, input.duration_ms).wf(),
        state.after(input.running, input.skip_requested, input.duration_ms).paced(),
        state.after(input.running, input.skip_requested, input.duration_ms).sold_out_if_over(),
        state.alive() ==> state.after(
            input.running,
            input.skip_requested,
            input.duration_ms,
        ).steps_left() < state.steps_left(),
        !state.alive() ==> state.after(input.running, input.skip_requested, input.duration_ms)
            == state,
{
    let next = state.after(input.running, input.skip_requested, input.duration_ms);
    let poll = Config::POLL_INTERVAL_MILLIS as int;
    assert(max_polls() == 540);
    assert(polls_left(0, input.duration_ms) <= 540) by {
        assert((input.duration_ms + poll - 1) / poll <= 540);
    }
    let left = Config::AMOUNT_OF_OFFERS - state.published;
    let each = max_polls() + 1;
    assert(left * each >= 0 && (left > 0 ==> left * each == (left - 1) * each + each
        && (left - 1) * each >= 0)) by (nonlinear_arith)
        requires
            left >= 0,
            each >= 0,
    ;
    match state.phase {
        StorePhase::Waiting { slept_ms, duration_ms } => {
            if slept_ms < duration_ms {
                assert(next.phase == StorePhase::Waiting {
                    slept_ms: slept_ms + poll as nat,
                    duration_ms,
                });
                assert(polls_left(slept_ms + poll as nat, duration_ms) + 1 == polls_left(
                    slept_ms,
                    duration_ms,
                )) by {
                    let left = duration_ms - slept_ms;
                    assert((left + poll - 1) / poll == (left - 1) / poll + 1);
                    if slept_ms + poll < duration_ms {
                        assert((left - poll + poll - 1) / poll == (left - 1) / poll);
                    } else {
                        assert((left - 1) / poll == 0);
                    }
                }
            }
        },
        _ => {},
    }
}

/// A run of steps of a store that is left alone ends it within the steps that are left.
proof fn lemma_quiet_run(state: StoreState, inputs: Seq<StoreInput>)
    requires
        state.wf(),
        state.paced(),
        state.sold_out_if_over(),
        forall|i: int| 0 <= i < inputs.len() ==> (#[trigger] inputs[i]).quiet(),
    ensures
        state.run(inputs).sold_out_if_over(),
        inputs.len() >= state.steps_left() ==> !state.run(inputs).alive(),
    decreases inputs.len(),
{
    if inputs.len() > 0 {
        let next = state.after(inputs[0].running, inputs[0].skip_requested, inputs[0].duration_ms);
        let rest = inputs.drop_first();
        assert(inputs[0].quiet());
        lemma_quiet_step(state, inputs[0]);
        assert forall|i: int| 0 <= i < rest.len() implies (#[trigger] rest[i]).quiet() by {
            assert(rest[i] == inputs[i + 1]);
        }
        lemma_quiet_run(next, rest);
    }
}

/// A store that is left alone publishes every offer of the game and then ends: if every
/// step of a run from the first sees the game running and no request for the next offer,
/// then a store that has ended has published exactly as many offers as a game has, with
/// the ids from 0 on, and it has ended once the run is `quiet_run_bound()` steps long.
pub proof fn lemma_quiet_store_sells_out(inputs: Seq<StoreInput>)
    requires
        forall|i: int| 0 <= i < inputs.len() ==> (#[trigger] inputs[i]).quiet(),
    ensures
        !StoreState::initial().run(inputs).alive() ==> {
            &&& StoreState::initial().run(inputs).published == Config::AMOUNT_OF_OFFERS
            &&& StoreState::initial().published_ids(inputs) =~= Seq::new(
                Config::AMOUNT_OF_OFFERS as nat,
                |i: int| i as nat,
            )
        },
        inputs.len() >= quiet_run_bound() ==> !StoreState::initial().run(inputs).alive(),
{
    lemma_quiet_run(StoreState::initial(), inputs);
    lemma_ids_count_up(StoreState::initial(), inputs);
}

} // verus!
