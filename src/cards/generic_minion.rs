use vstd::prelude::*;

use super::{copy_cost, Card, CardKind, CardPlayEffect, ResourceType};

verus! {

/// A minion with no special abilities: a name, attack, health and cost.
pub struct GenericMinion {
    pub name: String,
    pub attack: u8,
    pub health: u8,
    pub cost: Vec<(ResourceType, u8)>,
}

impl Card for GenericMinion {
    open spec fn spec_name(&self) -> Seq<char> {
        self.name@
    }

    open spec fn spec_cost(&self) -> Seq<(ResourceType, u8)> {
        self.cost@
    }

    open spec fn spec_description(&self) -> Seq<char> {
        ""@
    }

    open spec fn spec_attack(&self) -> Option<u8> {
        Some(self.attack)
    }

    open spec fn spec_health(&self) -> Option<u8> {
        Some(self.health)
    }

    open spec fn spec_effects(&self) -> Seq<CardPlayEffect> {
        seq![CardPlayEffect::SummonMinion]
    }

    fn name(&self) -> (r: &str) {
        self.name.as_str()
    }

    fn description(&self) -> (r: &str) {
        ""
    }

    fn cost(&self) -> (r: Vec<(ResourceType, u8)>) {
        copy_cost(&self.cost)
    }

    fn attack(&self) -> (r: Option<u8>) {
        Some(self.attack)
    }

    fn health(&self) -> (r: Option<u8>) {
        Some(self.health)
    }

    fn health_mut(&mut self) -> (r: Option<&mut u8>) {
        Some(&mut self.health)
    }

    fn play_effects(&self) -> (r: Vec<CardPlayEffect>) {
        let r = vec![CardPlayEffect::SummonMinion];
        proof {
            assert(r@ =~= self.spec_effects());
        }
        r
    }
}

impl GenericMinion {
    /// A copy of this card, held as a `CardKind`.
    pub fn clone_box(&self) -> (r: CardKind)
        ensures
            r.spec_name() == self.spec_name(),
            r.spec_description() == self.spec_description(),
            r.spec_cost() == self.spec_cost(),
            r.spec_attack() == self.spec_attack(),
            r.spec_health() == self.spec_health(),
            r.spec_effects() == self.spec_effects(),
    {
        CardKind::Minion(
            GenericMinion {
                name: self.name.clone(),
                attack: self.attack,
                health: self.health,
                cost: copy_cost(&self.cost),
            },
        )
    }
}

} // verus!
