//! Static card attributes: factions, kinds, kind masks, owners, visibility.

use vstd::prelude::*;

verus! {

/// The factions a card may belong to; `Neutral` is the faction of cards with
/// no ally affiliation.
#[derive(Copy, Clone, Debug, Default, PartialEq, Eq, Structural, Hash)]
pub enum CardFaction {
    Blob,
    MachineCult,
    #[default]
    Neutral,
    TradeFederation,
    StarEmpire,
}

/// What a card is: a ship (discarded at end of turn) or a base or outpost
/// that stays in play with the given starting life.
#[derive(Copy, Clone, Debug, Default, PartialEq, Eq, Structural, Hash)]
pub enum CardKinds {
    #[default]
    Ship,
    Base(u32),
    Outpost(u32),
}

/// A filter over card kinds, used by selections and purchase conditions.
#[derive(Copy, Clone, Debug, Default, PartialEq, Eq, Structural)]
pub enum KindMask {
    #[default]
    Any,
    Ships,
    Bases,
    Outposts,
    NonShip,
    NonBase,
    NonOutpost,
    NoKinds,
}

/// Whether a card is shown face up.
#[derive(Copy, Clone, Debug, Default, PartialEq, Eq, Structural)]
pub enum CardVisibility {
    #[default]
    Hidden,
    Visible,
}

/// Who holds a card: the market, or one of the players.
#[derive(Copy, Clone, Debug, Default, PartialEq, Eq, Structural, Hash)]
pub enum CardOwners {
    #[default]
    Market,
    Player(u8),
}

/// Whether a card kind passes a kind mask.
pub open spec fn spec_in_mask(k: CardKinds, mask: KindMask) -> bool {
    match k {
        CardKinds::Ship => mask == KindMask::Any || mask == KindMask::NonBase
            || mask == KindMask::NonOutpost || mask == KindMask::Ships,
        CardKinds::Base(_) => mask == KindMask::Any || mask == KindMask::NonShip
            || mask == KindMask::NonOutpost || mask == KindMask::Bases,
        CardKinds::Outpost(_) => mask == KindMask::Any || mask == KindMask::NonBase
            || mask == KindMask::NonShip || mask == KindMask::Outposts,
    }
}

impl CardKinds {
    /// Whether this kind passes the mask.
    pub fn in_mask(&self, mask: KindMask) -> (r: bool)
        ensures
            r == spec_in_mask(*self, mask),
    {
        match self {
            CardKinds::Ship => match mask {
                KindMask::Any | KindMask::NonBase | KindMask::NonOutpost
                    | KindMask::Ships => true,
                KindMask::NonShip | KindMask::Bases | KindMask::Outposts
                    | KindMask::NoKinds => false,
            },
            CardKinds::Base(_) => match mask {
                KindMask::Any | KindMask::NonShip | KindMask::NonOutpost
                    | KindMask::Bases => true,
                KindMask::NonBase | KindMask::Ships | KindMask::Outposts
                    | KindMask::NoKinds => false,
            },
            CardKinds::Outpost(_) => match mask {
                KindMask::Any | KindMask::NonBase | KindMask::NonShip
                    | KindMask::Outposts => true,
                KindMask::NonOutpost | KindMask::Bases | KindMask::Ships
                    | KindMask::NoKinds => false,
            },
        }
    }

    /// The starting life of a base or outpost; ships have none.
    pub fn starting_life(&self) -> (r: u32)
        ensures
            r == spec_starting_life(*self),
    {
        match self {
            CardKinds::Ship => 0,
            CardKinds::Base(life) => *life,
            CardKinds::Outpost(life) => *life,
        }
    }

    /// Whether this kind is a ship.
    pub fn is_ship(&self) -> (r: bool)
        ensures
            r == (*self is Ship),
    {
        match self {
            CardKinds::Ship => true,
            _ => false,
        }
    }
}

/// The starting life carried by a base or outpost kind (zero for ships).
pub open spec fn spec_starting_life(k: CardKinds) -> u32 {
    match k {
        CardKinds::Ship => 0,
        CardKinds::Base(life) => life,
        CardKinds::Outpost(life) => life,
    }
}

} // verus!
