use vstd::prelude::*;

use super::{Card, CardKind, CardPlayEffect, ResourceType};

verus! {

/// A minion whose attack is always the same as its health.
#[derive(Debug, Clone, Copy)]
pub struct LightElemental {
    pub health: u8,
}

impl Card for LightElemental {
    open spec fn spec_name(&self) -> Seq<char> {
        "Light elemental"@
    }

    open spec fn spec_cost(&self) -> Seq<(ResourceType, u8)> {
        seq![(ResourceType::White, 2u8)]
    }

    open spec fn spec_description(&self) -> Seq<char> {
        "Will always have the same\nattack as health."@
    }

    open spec fn spec_attack(&self) -> Option<u8> {
        Some(self.health)
    }

    open spec fn spec_health(&self) -> Option<u8> {
        Some(self.health)
    }

    open spec fn spec_effects(&self) -> Seq<CardPlayEffect> {
        seq![CardPlayEffect::SummonMinion]
    }

    fn name(&self) -> (r: &str) {
        "Light elemental"
    }

    fn description(&self) -> (r: &str) {
        "Will always have the same\nattack as health."
    }

    fn cost(&self) -> (r: Vec<(ResourceType, u8)>) {
        let r = vec![(ResourceType::White, 2u8)];
        proof {
            assert(r@ =~= self.spec_cost());
        }
        r
    }

    fn attack(&self) -> (r: Option<u8>) {
        Some(self.health)
    }

    fn health(&self) -> (r: Option<u8>) {
        Some(self.health)
    }

    fn health_mut(&mut self) -> (r: Option<&mut u8>) {
        Some(&mut self.health)
    }

    fn play_effects(&self) -> (r: Vec<CardPlayEffect>) {
        let r = vec![CardPlayEffect::SummonMinion];
        proof {
            assert(r@ =~= self.spec_effects());
        }
        r
    }
}

impl LightElemental {
    /// A copy of this card, held as a `CardKind`.
    pub fn clone_box(&self) -> (r: CardKind)
        ensures
            r.spec_name() == self.spec_name(),
            r.spec_description() == self.spec_description(),
            r.spec_cost() == self.spec_cost(),
            r.spec_attack() == self.spec_attack(),
            r.spec_health() == self.spec_health(),
            r.spec_effects() == self.spec_effects(),
    {
        CardKind::LightElemental(LightElemental { health: self.health })
    }
}

} // verus!
