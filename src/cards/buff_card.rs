use vstd::prelude::*;

use super::{Card, CardKind, CardPlayEffect, ResourceType, TargetType, TARGET_OPPONENTMINION, TARGET_OWNMINION};

verus! {

/// A buff card that gives a minion +1/+1. It can be cast on one's own
/// minions or on the opponent's.
#[derive(Debug, Clone, Copy)]
pub struct BuffCard {}

impl Card for BuffCard {
    open spec fn spec_name(&self) -> Seq<char> {
        "Buff card"@
    }

    open spec fn spec_cost(&self) -> Seq<(ResourceType, u8)> {
        seq![(ResourceType::White, 1u8)]
    }

    open spec fn spec_description(&self) -> Seq<char> {
        "Gives a minion +1/+1"@
    }

    open spec fn spec_attack(&self) -> Option<u8> {
        None
    }

    open spec fn spec_health(&self) -> Option<u8> {
        None
    }

    open spec fn spec_effects(&self) -> Seq<CardPlayEffect> {
        seq![CardPlayEffect::Target(TargetType { bits: TARGET_OWNMINION | TARGET_OPPONENTMINION })]
    }

    fn name(&self) -> (r: &str) {
        "Buff card"
    }

    fn description(&self) -> (r: &str) {
        "Gives a minion +1/+1"
    }

    fn cost(&self) -> (r: Vec<(ResourceType, u8)>) {
        let r = vec![(ResourceType::White, 1u8)];
        proof {
            assert(r@ =~= self.spec_cost());
        }
        r
    }

    fn attack(&self) -> (r: Option<u8>) {
        None
    }

    fn health(&self) -> (r: Option<u8>) {
        None
    }

    fn health_mut(&mut self) -> (r: Option<&mut u8>) {
        None
    }

    fn play_effects(&self) -> (r: Vec<CardPlayEffect>) {
        let r = vec![CardPlayEffect::Target(TargetType { bits: TARGET_OWNMINION | TARGET_OPPONENTMINION })];
        proof {
            assert(r@ =~= self.spec_effects());
        }
        r
    }
}

impl BuffCard {
    /// A copy of this card, held as a `CardKind`.
    pub fn clone_box(&self) -> (r: CardKind)
        ensures
            r.spec_name() == self.spec_name(),
            r.spec_description() == self.spec_description(),
            r.spec_cost() == self.spec_cost(),
            r.spec_attack() == self.spec_attack(),
            r.spec_health() == self.spec_health(),
            r.spec_effects() == self.spec_effects(),
    {
        CardKind::Buff(BuffCard {})
    }
}

} // verus!
