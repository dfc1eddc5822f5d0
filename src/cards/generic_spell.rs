use vstd::prelude::*;

use super::{Card, CardKind, CardPlayEffect, ResourceType, TargetType, TARGET_EVERYTHING};

verus! {

/// A spell that deals 3 damage to a targeted minion or player.
#[derive(Debug, Clone, Copy)]
pub struct DamageSpellCard {}

impl Card for DamageSpellCard {
    open spec fn spec_name(&self) -> Seq<char> {
        "Damage spell card"@
    }

    open spec fn spec_cost(&self) -> Seq<(ResourceType, u8)> {
        seq![(ResourceType::Red, 2u8)]
    }

    open spec fn spec_description(&self) -> Seq<char> {
        "Deal 3 damage to a target"@
    }

    open spec fn spec_attack(&self) -> Option<u8> {
        None
    }

    open spec fn spec_health(&self) -> Option<u8> {
        None
    }

    open spec fn spec_effects(&self) -> Seq<CardPlayEffect> {
        seq![CardPlayEffect::Target(TargetType { bits: TARGET_EVERYTHING })]
    }

    fn name(&self) -> (r: &str) {
        "Damage spell card"
    }

    fn description(&self) -> (r: &str) {
        "Deal 3 damage to a target"
    }

    fn cost(&self) -> (r: Vec<(ResourceType, u8)>) {
        let r = vec![(ResourceType::Red, 2u8)];
        proof {
            assert(r@ =~= self.spec_cost());
        }
        r
    }

    fn attack(&self) -> (r: Option<u8>) {
        None
    }

    fn health(&self) -> (r: Option<u8>) {
        None
    }

    fn health_mut(&mut self) -> (r: Option<&mut u8>) {
        None
    }

    fn play_effects(&self) -> (r: Vec<CardPlayEffect>) {
        let r = vec![CardPlayEffect::Target(TargetType { bits: TARGET_EVERYTHING })];
        proof {
            assert(r@ =~= self.spec_effects());
        }
        r
    }
}

impl DamageSpellCard {
    /// A copy of this card, held as a `CardKind`.
    pub fn clone_box(&self) -> (r: CardKind)
        ensures
            r.spec_name() == self.spec_name(),
            r.spec_description() == self.spec_description(),
            r.spec_cost() == self.spec_cost(),
            r.spec_attack() == self.spec_attack(),
            r.spec_health() == self.spec_health(),
            r.spec_effects() == self.spec_effects(),
    {
        CardKind::DamageSpell(DamageSpellCard {})
    }
}

} // verus!
