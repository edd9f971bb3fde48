use vstd::prelude::*;

use crate::ability::Ability;
use crate::ability_score::AbilityScore;

verus! {

/// The six ability scores of a creature, one per ability.
#[derive(Debug, Clone, PartialEq, Eq, Structural)]
pub struct Abilities {
    /// Physical might.
    pub strength: AbilityScore,
    /// Agility, reflexes, and balance.
    pub dexterity: AbilityScore,
    /// Health and stamina.
    pub constitution: AbilityScore,
    /// Reasoning and memory.
    pub intelligence: AbilityScore,
    /// Perceptiveness and mental fortitude.
    pub wisdom: AbilityScore,
    /// Confidence, poise, and charm.
    pub charisma: AbilityScore,
}

impl Abilities {
    /// The score stored in the slot of an ability.
    pub open spec fn spec_get(self, ability: Ability) -> AbilityScore {
        match ability {
            Ability::Strength => self.strength,
            Ability::Dexterity => self.dexterity,
            Ability::Constitution => self.constitution,
            Ability::Intelligence => self.intelligence,
            Ability::Wisdom => self.wisdom,
            Ability::Charisma => self.charisma,
        }
    }

    /// The slots paired with their abilities, in ability declaration order.
    pub open spec fn entries_spec(self) -> Seq<(Ability, AbilityScore)> {
        seq![
            (Ability::Strength, self.strength),
            (Ability::Dexterity, self.dexterity),
            (Ability::Constitution, self.constitution),
            (Ability::Intelligence, self.intelligence),
            (Ability::Wisdom, self.wisdom),
            (Ability::Charisma, self.charisma),
        ]
    }

    /// Creates a record with every slot at the conventional starting score
    /// of 10.
    pub fn new() -> (r: Self)
        ensures
            forall|a: Ability| r.spec_get(a).spec_value() == 10,
    {
        Self::with_uniform(AbilityScore::default())
    }

    /// Creates a record with every slot holding the given score.
    pub fn with_uniform(value: AbilityScore) -> (r: Self)
        ensures
            forall|a: Ability| r.spec_get(a) == value,
    {
        Self {
            strength: value,
            dexterity: value,
            constitution: value,
            intelligence: value,
            wisdom: value,
            charisma: value,
        }
    }

    /// Returns the score stored for the given ability.
    pub fn get(&self, ability: Ability) -> (r: AbilityScore)
        ensures
            r == self.spec_get(ability),
    {
        match ability {
            Ability::Strength => self.strength,
            Ability::Dexterity => self.dexterity,
            Ability::Constitution => self.constitution,
            Ability::Intelligence => self.intelligence,
            Ability::Wisdom => self.wisdom,
            Ability::Charisma => self.charisma,
        }
    }

    /// Replaces the score stored for the given ability, leaving the other
    /// slots as they were.
    pub fn set(&mut self, ability: Ability, value: AbilityScore)
        ensures
            final(self).spec_get(ability) == value,
            forall|a: Ability| a != ability ==> final(self).spec_get(a) == old(self).spec_get(a),
    {
        match ability {
            Ability::Strength => {
                self.strength = value;
            },
            Ability::Dexterity => {
                self.dexterity = value;
            },
            Ability::Constitution => {
                self.constitution = value;
            },
            Ability::Intelligence => {
                self.intelligence = value;
            },
            Ability::Wisdom => {
                self.wisdom = value;
            },
            Ability::Charisma => {
                self.charisma = value;
            },
        }
    }

    /// Returns every ability paired with its stored score, in ability
    /// declaration order.
    pub fn iter(&self) -> (r: Vec<(Ability, AbilityScore)>)
        ensures
            r@ == self.entries_spec(),
    {
        let mut v: Vec<(Ability, AbilityScore)> = Vec::new();
        v.push((Ability::Strength, self.strength));
        v.push((Ability::Dexterity, self.dexterity));
        v.push((Ability::Constitution, self.constitution));
        v.push((Ability::Intelligence, self.intelligence));
        v.push((Ability::Wisdom, self.wisdom));
        v.push((Ability::Charisma, self.charisma));
        proof {
            assert(v@ =~= self.entries_spec());
        }
        v
    }
}

impl Default for Abilities {
    /// The record with every slot at the conventional starting score of 10.
    fn default() -> (r: Self)
        ensures
            forall|a: Ability| r.spec_get(a).spec_value() == 10,
    {
        Self::new()
    }
}

} // verus!
