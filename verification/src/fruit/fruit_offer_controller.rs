//! The holder of the current offer.

use crate::fruit::FruitOffer;
use vstd::prelude::*;

verus! {

/// Keeps the current offer and hands out copies of it, so that the offer can be read many
/// times without asking the store again.
pub struct FruitOfferController {
    offer: Option<FruitOffer>,
}

impl View for FruitOfferController {
    type V = Option<FruitOffer>;

    closed spec fn view(&self) -> Option<FruitOffer> {
        self.offer
    }
}

impl FruitOfferController {
    pub fn new() -> (controller: FruitOfferController)
        ensures
            controller@ is None,
    {
        FruitOfferController { offer: None }
    }

    /// Returns whether an offer has ever been set.
    pub fn has_offer(&self) -> (has: bool)
        ensures
            has == self@.is_some(),
    {
        match self.offer {
            None => false,
            Some(_) => true,
        }
    }

    /// Replaces the held offer with the given one, whatever was held before.
    pub fn set_offer(&mut self, offer: &FruitOffer)
        ensures
            final(self)@ == Some(*offer),
    {
        self.offer = Some(*offer);
    }

    /// Returns `None` if no offer was ever set, and else a copy of the current offer.
    pub fn get_offer(&self) -> (offer: Option<FruitOffer>)
        ensures
            offer == self@,
    {
        match &self.offer {
            None => None,
            Some(offer) => Some(
                FruitOffer::new(
                    offer.get_fruit(),
                    offer.get_price(),
                    offer.get_start(),
                    offer.get_duration_ms(),
                    offer.get_id(),
                ),
            ),
        }
    }
}

} // verus!
