use vstd::prelude::*;

mod buff_card;
mod generic_minion;
mod generic_spell;
mod light_elemental;

pub use self::buff_card::BuffCard;
pub use self::generic_minion::GenericMinion;
pub use self::generic_spell::DamageSpellCard;
pub use self::light_elemental::LightElemental;

verus! {

/// The resource type that the game has. Cards require a certain amount of
/// resources to be played (see `Card::cost`).
#[derive(Debug, Clone, Copy, PartialEq, Eq, Structural)]
pub enum ResourceType {
    Red,
    Blue,
    White,
    Black,
}

/// Targets the player who plays the card.
pub const TARGET_SELF: u8 = 0b0001;

/// Targets the opponent.
pub const TARGET_OPPONENT: u8 = 0b0010;

/// Targets one of the player's own minions.
pub const TARGET_OWNMINION: u8 = 0b0100;

/// Targets one of the opponent's minions.
pub const TARGET_OPPONENTMINION: u8 = 0b1000;

/// Targets anything.
pub const TARGET_EVERYTHING: u8 = TARGET_SELF | TARGET_OPPONENT | TARGET_OWNMINION
    | TARGET_OPPONENTMINION;

/// What a card can target: an or-combination of the `TARGET_*` flags.
#[derive(Debug, Clone, Copy, PartialEq, Eq, Structural)]
pub struct TargetType {
    pub bits: u8,
}

/// The effect that a card has when it gets played.
#[derive(Debug, Clone, Copy, PartialEq, Eq, Structural)]
pub enum CardPlayEffect {
    /// The card gets summoned as a minion.
    SummonMinion,
    /// The card targets something: a combination of the player, the
    /// player's minions, the opponent's minions and the opponent.
    Target(TargetType),
}

/// The capabilities of a card: what the rest of the game may ask of it.
pub trait Card: Sized {
    /// The card's name.
    spec fn spec_name(&self) -> Seq<char>;

    /// The resources that playing the card takes.
    spec fn spec_cost(&self) -> Seq<(ResourceType, u8)>;

    /// The card's description; empty if it has none.
    spec fn spec_description(&self) -> Seq<char>;

    /// The card's attack, if it has one.
    spec fn spec_attack(&self) -> Option<u8>;

    /// The card's health, if it has one.
    spec fn spec_health(&self) -> Option<u8>;

    /// What happens when the card is played, in order of preference.
    spec fn spec_effects(&self) -> Seq<CardPlayEffect>;

    /// Get the name of the card.
    fn name(&self) -> (r: &str)
        ensures
            r@ == self.spec_name(),
    ;

    /// Get the description of the card; empty if it has none.
    fn description(&self) -> (r: &str)
        ensures
            r@ == self.spec_description(),
    ;

    /// Get the cost of the card.
    fn cost(&self) -> (r: Vec<(ResourceType, u8)>)
        ensures
            r@ == self.spec_cost(),
    ;

    /// Get the attack of the card, if any. Minions always have one.
    fn attack(&self) -> (r: Option<u8>)
        ensures
            r == self.spec_attack(),
    ;

    /// Get the health of the card, if any. Minions always have one.
    fn health(&self) -> (r: Option<u8>)
        ensures
            r == self.spec_health(),
    ;

    /// The health of the card, to change in place, if it has one. Changing
    /// it changes nothing else that the card shows but, where the attack
    /// follows the health, its attack.
    fn health_mut(&mut self) -> (r: Option<&mut u8>)
        ensures
            r is Some <==> old(self).spec_health() is Some,
            match r {
                Some(h) => {
                    &&& *h == old(self).spec_health().unwrap()
                    &&& final(self).spec_health() == Some(*final(h))
                    &&& final(self).spec_name() == old(self).spec_name()
                    &&& final(self).spec_description() == old(self).spec_description()
                    &&& final(self).spec_cost() == old(self).spec_cost()
                    &&& final(self).spec_effects() == old(self).spec_effects()
                },
                None => *final(self) == *old(self),
            },
    ;

    /// The effects that this card has when one tries to play it.
    fn play_effects(&self) -> (r: Vec<CardPlayEffect>)
        ensures
            r@ == self.spec_effects(),
    ;
}

/// A copy of a list of resource costs.
pub(crate) fn copy_cost(cost: &Vec<(ResourceType, u8)>) -> (r: Vec<(ResourceType, u8)>)
    ensures
        r@ == cost@,
{
    let mut r: Vec<(ResourceType, u8)> = Vec::new();
    let mut i: usize = 0;
    while i < cost.len()
        invariant
            i <= cost.len(),
            r@ == cost@.subrange(0, i as int),
        decreases cost.len() - i,
    {
        let item = cost[i];
        r.push(item);
        i = i + 1;
        proof {
            assert(r@ =~= cost@.subrange(0, i as int));
        }
    }
    proof {
        assert(r@ =~= cost@);
    }
    r
}

/// Every kind of card in the game.
pub enum CardKind {
    LightElemental(LightElemental),
    Buff(BuffCard),
    Minion(GenericMinion),
    DamageSpell(DamageSpellCard),
}

impl Card for CardKind {
    open spec fn spec_name(&self) -> Seq<char> {
        match self {
            CardKind::LightElemental(c) => c.spec_name(),
            CardKind::Buff(c) => c.spec_name(),
            CardKind::Minion(c) => c.spec_name(),
            CardKind::DamageSpell(c) => c.spec_name(),
        }
    }

    open spec fn spec_cost(&self) -> Seq<(ResourceType, u8)> {
        match self {
            CardKind::LightElemental(c) => c.spec_cost(),
            CardKind::Buff(c) => c.spec_cost(),
            CardKind::Minion(c) => c.spec_cost(),
            CardKind::DamageSpell(c) => c.spec_cost(),
        }
    }

    open spec fn spec_description(&self) -> Seq<char> {
        match self {
            CardKind::LightElemental(c) => c.spec_description(),
            CardKind::Buff(c) => c.spec_description(),
            CardKind::Minion(c) => c.spec_description(),
            CardKind::DamageSpell(c) => c.spec_description(),
        }
    }

    open spec fn spec_attack(&self) -> Option<u8> {
        match self {
            CardKind::LightElemental(c) => c.spec_attack(),
            CardKind::Buff(c) => c.spec_attack(),
            CardKind::Minion(c) => c.spec_attack(),
            CardKind::DamageSpell(c) => c.spec_attack(),
        }
    }

    open spec fn spec_health(&self) -> Option<u8> {
        match self {
            CardKind::LightElemental(c) => c.spec_health(),
            CardKind::Buff(c) => c.spec_health(),
            CardKind::Minion(c) => c.spec_health(),
            CardKind::DamageSpell(c) => c.spec_health(),
        }
    }

    open spec fn spec_effects(&self) -> Seq<CardPlayEffect> {
        match self {
            CardKind::LightElemental(c) => c.spec_effects(),
            CardKind::Buff(c) => c.spec_effects(),
            CardKind::Minion(c) => c.spec_effects(),
            CardKind::DamageSpell(c) => c.spec_effects(),
        }
    }

    fn name(&self) -> (r: &str) {
        match self {
            CardKind::LightElemental(c) => c.name(),
            CardKind::Buff(c) => c.name(),
            CardKind::Minion(c) => c.name(),
            CardKind::DamageSpell(c) => c.name(),
        }
    }

    fn description(&self) -> (r: &str) {
        match self {
            CardKind::LightElemental(c) => c.description(),
            CardKind::Buff(c) => c.description(),
            CardKind::Minion(c) => c.description(),
            CardKind::DamageSpell(c) => c.description(),
        }
    }

    fn cost(&self) -> (r: Vec<(ResourceType, u8)>) {
        match self {
            CardKind::LightElemental(c) => c.cost(),
            CardKind::Buff(c) => c.cost(),
            CardKind::Minion(c) => c.cost(),
            CardKind::DamageSpell(c) => c.cost(),
        }
    }

    fn attack(&self) -> (r: Option<u8>) {
        match self {
            CardKind::LightElemental(c) => c.attack(),
            CardKind::Buff(c) => c.attack(),
            CardKind::Minion(c) => c.attack(),
            CardKind::DamageSpell(c) => c.attack(),
        }
    }

    fn health(&self) -> (r: Option<u8>) {
        match self {
            CardKind::LightElemental(c) => c.health(),
            CardKind::Buff(c) => c.health(),
            CardKind::Minion(c) => c.health(),
            CardKind::DamageSpell(c) => c.health(),
        }
    }

    fn health_mut(&mut self) -> (r: Option<&mut u8>) {
        match self {
            CardKind::LightElemental(c) => c.health_mut(),
            CardKind::Buff(c) => c.health_mut(),
            CardKind::Minion(c) => c.health_mut(),
            CardKind::DamageSpell(c) => c.health_mut(),
        }
    }

    fn play_effects(&self) -> (r: Vec<CardPlayEffect>) {
        match self {
            CardKind::LightElemental(c) => c.play_effects(),
            CardKind::Buff(c) => c.play_effects(),
            CardKind::Minion(c) => c.play_effects(),
            CardKind::DamageSpell(c) => c.play_effects(),
        }
    }
}

impl CardKind {
    /// The two cards have the same capabilities.
    pub open spec fn same_card(self, other: CardKind) -> bool {
        &&& self.spec_name() == other.spec_name()
        &&& self.spec_description() == other.spec_description()
        &&& self.spec_cost() == other.spec_cost()
        &&& self.spec_attack() == other.spec_attack()
        &&& self.spec_health() == other.spec_health()
        &&& self.spec_effects() == other.spec_effects()
    }

    /// A copy of this card, with the same capabilities.
    pub fn clone_box(&self) -> (r: CardKind)
        ensures
            r.same_card(*self),
    {
        match self {
            CardKind::LightElemental(c) => c.clone_box(),
            CardKind::Buff(c) => c.clone_box(),
            CardKind::Minion(c) => c.clone_box(),
            CardKind::DamageSpell(c) => c.clone_box(),
        }
    }
}

} // verus!
