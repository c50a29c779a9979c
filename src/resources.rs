//! The card entity and its ownership tags.
use vstd::prelude::*;
use crate::geometry::Vec3;

verus! {

/// Tag of a card that belongs to the player.
#[derive(Clone, Copy, Debug, PartialEq, Eq, Structural)]
pub struct PlayerOwned;

/// Tag of a card that belongs to the opponent.
#[derive(Clone, Copy, Debug, PartialEq, Eq, Structural)]
pub struct EnemyOwned;

/// Which side a card belongs to.
#[derive(Clone, Copy, Debug, PartialEq, Eq, Structural)]
pub enum Owner {
    Player(PlayerOwned),
    Enemy(EnemyOwned),
}

/// The horizontal direction in which a card's face points; it always stands upright.
#[derive(Clone, Copy, Debug, PartialEq, Eq, Structural)]
pub struct Heading {
    pub x: i64,
    pub z: i64,
}

/// One physical card on the table.
///
/// `hovered` and `selected` are set by the picking collaborator; this library reads
/// both and clears `selected` when a drag ends.
#[derive(Clone, Copy, Debug, PartialEq, Eq, Structural)]
pub struct Card {
    pub translation: Vec3,
    pub heading: Heading,
    pub owner: Owner,
    pub pickable: bool,
    pub hovered: bool,
    pub selected: bool,
}

impl Card {
    /// Its position lies within the world's bounds.
    pub open spec fn well_formed(self) -> bool {
        self.translation.in_world()
    }

    pub open spec fn player_owned(self) -> bool {
        self.owner is Player
    }

    pub fn is_player_owned(&self) -> (r: bool)
        ensures
            r == self.player_owned(),
    {
        match self.owner {
            Owner::Player(_) => true,
            Owner::Enemy(_) => false,
        }
    }
}

/// The cards that the player holds.
#[derive(Clone, Debug)]
pub struct PlayerHand {
    pub cards: Vec<Card>,
}

impl PlayerHand {
    pub fn new() -> (r: PlayerHand)
        ensures
            r.cards@.len() == 0,
    {
        PlayerHand { cards: Vec::new() }
    }
}

} // verus!
