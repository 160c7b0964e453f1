//! The board model: an arena of card instances addressed by stable integer
//! handles, grouped into per-owner zones, plus the issued zone transitions
//! that an external animation collaborator completes.

use vstd::prelude::*;
use crate::actions::{cleared, spec_cleared, CardActions};
use crate::cards::{CardKinds, CardOwners, CardVisibility};
use crate::stacks::Stacks;
use crate::tracker::CardFactions;

verus! {

/// An immutable per-card definition, as produced by the external loader of
/// the declarative card files.
#[derive(Copy, Clone, Debug)]
pub struct CardDef {
    pub kind: CardKinds,
    pub factions: CardFactions,
    pub cost: u8,
    /// The unique recycling card that returns to the joker deck instead of
    /// the scrapyard.
    pub joker: bool,
    pub actions: CardActions,
}

/// A runtime card instance: its static attributes plus its current location
/// and per-turn interaction state.
#[derive(Copy, Clone, Debug)]
pub struct CardInstance {
    pub kind: CardKinds,
    pub factions: CardFactions,
    pub cost: u8,
    pub joker: bool,
    pub actions: CardActions,
    pub owner: CardOwners,
    pub stack: Stacks,
    pub index: usize,
    pub visibility: CardVisibility,
    /// Remaining life of a base or outpost; zero for ships.
    pub base_life: u32,
    pub selectable: bool,
    pub selected: bool,
}

/// A zone transition issued to the external animation collaborator: the card
/// will resolve to this (owner, zone, index, visibility) once the move
/// completes.
#[derive(Copy, Clone, Debug, PartialEq, Eq, Structural)]
pub struct StartTransition {
    pub card: usize,
    pub owner: CardOwners,
    pub stack: Stacks,
    pub index: usize,
    pub visibility: CardVisibility,
}

/// Whether the card sits in the given owner's zone.
pub open spec fn spec_in_zone(c: CardInstance, owner: CardOwners, stack: Stacks) -> bool {
    c.owner == owner && c.stack == stack
}

/// Whether some card occupies the given index of the owner's zone.
pub open spec fn spec_slot_occupied(
    cards: Seq<CardInstance>,
    owner: CardOwners,
    stack: Stacks,
    slot: usize,
) -> bool {
    exists|i: int| 0 <= i < cards.len() && spec_in_zone(cards[i], owner, stack)
        && cards[i].index == slot
}

/// Whether the owner's zone holds any card.
pub fn zone_has(cards: &Vec<CardInstance>, owner: CardOwners, stack: Stacks) -> (r: bool)
    ensures
        r == exists|i: int| 0 <= i < cards@.len() && spec_in_zone(cards@[i], owner, stack),
{
    let mut i: usize = 0;
    while i < cards.len()
        invariant
            i <= cards@.len(),
            forall|j: int| 0 <= j < i ==> !spec_in_zone(cards@[j], owner, stack),
        decreases cards@.len() - i,
    {
        if cards[i].owner == owner && cards[i].stack == stack {
            return true;
        }
        i = i + 1;
    }
    false
}

/// The first card sitting at the given index of the owner's zone, if any.
pub fn find_in_zone_at(
    cards: &Vec<CardInstance>,
    owner: CardOwners,
    stack: Stacks,
    slot: usize,
) -> (r: Option<usize>)
    ensures
        match r {
            Some(i) => 0 <= i < cards@.len() && spec_in_zone(cards@[i as int], owner, stack)
                && cards@[i as int].index == slot
                && forall|j: int| 0 <= j < i ==> !(spec_in_zone(cards@[j], owner, stack)
                    && cards@[j].index == slot),
            None => !spec_slot_occupied(cards@, owner, stack, slot),
        },
{
    let mut i: usize = 0;
    while i < cards.len()
        invariant
            i <= cards@.len(),
            forall|j: int| 0 <= j < i ==> !(spec_in_zone(cards@[j], owner, stack)
                && cards@[j].index == slot),
        decreases cards@.len() - i,
    {
        if cards[i].owner == owner && cards[i].stack == stack && cards[i].index == slot {
            return Some(i);
        }
        i = i + 1;
    }
    None
}

/// The lowest free slot of the owner's zone. On a board where every index up
/// to the arena size is taken (which a well-formed board cannot reach), the
/// search stops one past the arena size.
pub fn lowest_free_index(cards: &Vec<CardInstance>, owner: CardOwners, stack: Stacks)
    -> (r: usize)
    requires
        cards@.len() < usize::MAX,
    ensures
        forall|k: int| 0 <= k < r ==> #[trigger] spec_slot_occupied(cards@, owner, stack, k as usize),
        r <= cards@.len() + 1,
        r <= cards@.len() ==> !spec_slot_occupied(cards@, owner, stack, r),
        r == spec_lowest_free(cards@, owner, stack),
{
    let mut r: usize = 0;
    loop
        invariant
            cards@.len() < usize::MAX,
            r <= cards@.len() + 1,
            forall|k: int| 0 <= k < r ==> #[trigger] spec_slot_occupied(cards@, owner, stack, k as usize),
            spec_lowest_free(cards@, owner, stack) == spec_free_from(
                cards@,
                owner,
                stack,
                r,
                (cards@.len() + 1 - r) as nat,
            ),
        decreases cards@.len() + 1 - r,
    {
        if r > cards.len() {
            return r;
        }
        match find_in_zone_at(cards, owner, stack, r) {
            Some(_) => {
                r = r + 1;
            },
            None => {
                return r;
            },
        }
    }
}

/// The lowest free slot of the owner's zone, searched upward from `from`
/// with the given fuel.
pub open spec fn spec_free_from(
    cards: Seq<CardInstance>,
    owner: CardOwners,
    stack: Stacks,
    from: usize,
    fuel: nat,
) -> usize
    decreases fuel,
{
    if fuel == 0 {
        from
    } else if !spec_slot_occupied(cards, owner, stack, from) {
        from
    } else if from < usize::MAX {
        spec_free_from(cards, owner, stack, (from + 1) as usize, (fuel - 1) as nat)
    } else {
        from
    }
}

/// The lowest free slot of the owner's zone (one past the arena size on a
/// board where every index up to the arena size is taken, which a well-formed
/// board cannot reach).
pub open spec fn spec_lowest_free(
    cards: Seq<CardInstance>,
    owner: CardOwners,
    stack: Stacks,
) -> usize {
    spec_free_from(cards, owner, stack, 0, cards.len() + 1)
}

/// The last card (in handle order) sitting at the given index of the owner's
/// zone, if any: the pick the iteration order of the original queries yields.
pub open spec fn spec_last_at(
    cards: Seq<CardInstance>,
    n: int,
    owner: CardOwners,
    stack: Stacks,
    slot: usize,
) -> Option<usize>
    decreases n,
{
    if n <= 0 {
        None
    } else if spec_in_zone(cards[n - 1], owner, stack) && cards[n - 1].index == slot {
        Some((n - 1) as usize)
    } else {
        spec_last_at(cards, n - 1, owner, stack, slot)
    }
}

/// The handles of the owner's zone members below `n`, in handle order.
pub open spec fn spec_zone_members(
    cards: Seq<CardInstance>,
    n: int,
    owner: CardOwners,
    stack: Stacks,
) -> Seq<usize>
    decreases n,
{
    if n <= 0 {
        Seq::empty()
    } else if spec_in_zone(cards[n - 1], owner, stack) {
        spec_zone_members(cards, n - 1, owner, stack).push((n - 1) as usize)
    } else {
        spec_zone_members(cards, n - 1, owner, stack)
    }
}

/// The fresh instance a definition spawns at the given place.
pub open spec fn spec_instance(
    def: CardDef,
    owner: CardOwners,
    stack: Stacks,
    index: usize,
    visibility: CardVisibility,
) -> CardInstance {
    CardInstance {
        kind: def.kind,
        factions: def.factions,
        cost: def.cost,
        joker: def.joker,
        actions: spec_cleared(def.actions),
        owner,
        stack,
        index,
        visibility,
        base_life: crate::cards::spec_starting_life(def.kind),
        selectable: false,
        selected: false,
    }
}

impl CardInstance {
    /// A fresh instance of the definition, placed at the given slot of the
    /// given owner's zone with unused abilities and full life.
    pub fn spawn(
        def: &CardDef,
        owner: CardOwners,
        stack: Stacks,
        index: usize,
        visibility: CardVisibility,
    ) -> (r: Self)
        ensures
            r == spec_instance(*def, owner, stack, index, visibility),
    {
        CardInstance {
            kind: def.kind,
            factions: def.factions,
            cost: def.cost,
            joker: def.joker,
            actions: cleared(def.actions),
            owner,
            stack,
            index,
            visibility,
            base_life: def.kind.starting_life(),
            selectable: false,
            selected: false,
        }
    }
}

} // verus!
