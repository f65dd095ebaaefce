//! The interactions a player can perform, and the keys that stand for them.

use vstd::prelude::*;

verus! {

/// All interactions a player can perform.
#[derive(Clone, Copy, Debug, PartialEq, Eq, Structural, Hash)]
pub enum PlayerInteractions {
    /// Key `b`: buy the current offer.
    Buy,
    /// Key `s`: sell at the current offer.
    Sell,
    /// Key `n`: go to the next offer at once.
    NextOffer,
    /// Keys `q`, `e` and `c`: end the game.
    Exit,
    /// Key `i`: show the price range of the fruit on offer.
    Info,
}

impl PlayerInteractions {
    /// The interaction that a key stands for, if it stands for one.
    pub open spec fn spec_from_key(key: char) -> Option<PlayerInteractions> {
        if key == 'b' {
            Some(PlayerInteractions::Buy)
        } else if key == 's' {
            Some(PlayerInteractions::Sell)
        } else if key == 'q' || key == 'e' || key == 'c' {
            Some(PlayerInteractions::Exit)
        } else if key == 'n' {
            Some(PlayerInteractions::NextOffer)
        } else if key == 'i' {
            Some(PlayerInteractions::Info)
        } else {
            None
        }
    }

    /// Whether holding the key down performs the interaction again and again: true of
    /// buying and selling, false of the interactions that happen once.
    pub open spec fn spec_is_repeatable(self) -> bool {
        self == PlayerInteractions::Buy || self == PlayerInteractions::Sell
    }

    /// Returns the interaction that a key stands for, and `None` for any other key.
    pub fn from_key(key: char) -> (interaction: Option<PlayerInteractions>)
        ensures
            interaction == PlayerInteractions::spec_from_key(key),
    {
        match key {
            'b' => Some(PlayerInteractions::Buy),
            's' => Some(PlayerInteractions::Sell),
            'q' | 'e' | 'c' => Some(PlayerInteractions::Exit),
            'n' => Some(PlayerInteractions::NextOffer),
            'i' => Some(PlayerInteractions::Info),
            _ => None,
        }
    }

    /// Returns whether the interaction repeats while its key is held down.
    #[verifier::when_used_as_spec(spec_is_repeatable)]
    pub fn is_repeatable(self) -> (repeatable: bool)
        ensures
            repeatable == self.spec_is_repeatable(),
    {
        match self {
            PlayerInteractions::Buy => true,
            PlayerInteractions::Sell => true,
            _ => false,
        }
    }
}

} // verus!
