use vstd::prelude::*;

use crate::ability::Ability;
use crate::text::str_eq;

verus! {

/// The eighteen fixed areas of expertise a creature can be skilled in, each
/// tied to exactly one ability.
#[derive(Debug, Clone, Copy, PartialEq, Eq, Structural)]
pub enum Skill {
    /// Stay on your feet in a tricky situation, or perform a stunt.
    Acrobatics,
    /// Calm or train an animal.
    AnimalHandling,
    /// Recall lore about spells, magic items, and the planes.
    Arcana,
    /// Jump, swim, or break something through sheer might.
    Athletics,
    /// Tell a convincing lie, or wear a disguise convincingly.
    Deception,
    /// Recall lore about historical events, people, and cultures.
    History,
    /// Discern the mood and intentions of a person.
    Insight,
    /// Awe or threaten someone into doing what you want.
    Intimidation,
    /// Find obscure information, or deduce how something works.
    Investigation,
    /// Diagnose an illness, or stabilise the dying.
    Medicine,
    /// Recall lore about terrain, plants, animals, and weather.
    Nature,
    /// Notice something that is easy to miss.
    Perception,
    /// Act, tell a story, perform music, or dance.
    Performance,
    /// Honestly and graciously convince someone of something.
    Persuasion,
    /// Recall lore about gods, rituals, and holy symbols.
    Religion,
    /// Pick a pocket, or conceal a handheld object.
    SleightOfHand,
    /// Escape notice by moving quietly and hiding.
    Stealth,
    /// Follow tracks, forage, or avoid natural hazards.
    Survival,
}

impl Skill {
    /// Every variant, in declaration order.
    pub open spec fn all_spec() -> Seq<Skill> {
        seq![
            Skill::Acrobatics,
            Skill::AnimalHandling,
            Skill::Arcana,
            Skill::Athletics,
            Skill::Deception,
            Skill::History,
            Skill::Insight,
            Skill::Intimidation,
            Skill::Investigation,
            Skill::Medicine,
            Skill::Nature,
            Skill::Perception,
            Skill::Performance,
            Skill::Persuasion,
            Skill::Religion,
            Skill::SleightOfHand,
            Skill::Stealth,
            Skill::Survival,
        ]
    }

    /// Returns every variant, in declaration order.
    pub fn all() -> (r: Vec<Skill>)
        ensures
            r@ == Self::all_spec(),
    {
        let mut v: Vec<Skill> = Vec::new();
        v.push(Skill::Acrobatics);
        v.push(Skill::AnimalHandling);
        v.push(Skill::Arcana);
        v.push(Skill::Athletics);
        v.push(Skill::Deception);
        v.push(Skill::History);
        v.push(Skill::Insight);
        v.push(Skill::Intimidation);
        v.push(Skill::Investigation);
        v.push(Skill::Medicine);
        v.push(Skill::Nature);
        v.push(Skill::Perception);
        v.push(Skill::Performance);
        v.push(Skill::Persuasion);
        v.push(Skill::Religion);
        v.push(Skill::SleightOfHand);
        v.push(Skill::Stealth);
        v.push(Skill::Survival);
        proof {
            assert(v@ =~= Self::all_spec());
        }
        v
    }

    /// The display name of each variant.
    pub open spec fn name_spec(self) -> Seq<char> {
        match self {
            Skill::Acrobatics => "Acrobatics"@,
            Skill::AnimalHandling => "Animal Handling"@,
            Skill::Arcana => "Arcana"@,
            Skill::Athletics => "Athletics"@,
            Skill::Deception => "Deception"@,
            Skill::History => "History"@,
            Skill::Insight => "Insight"@,
            Skill::Intimidation => "Intimidation"@,
            Skill::Investigation => "Investigation"@,
            Skill::Medicine => "Medicine"@,
            Skill::Nature => "Nature"@,
            Skill::Perception => "Perception"@,
            Skill::Performance => "Performance"@,
            Skill::Persuasion => "Persuasion"@,
            Skill::Religion => "Religion"@,
            Skill::SleightOfHand => "Sleight of Hand"@,
            Skill::Stealth => "Stealth"@,
            Skill::Survival => "Survival"@,
        }
    }

    /// Returns the display name of the skill.
    pub fn name(&self) -> (r: &'static str)
        ensures
            r@ == self.name_spec(),
    {
        match *self {
            Skill::Acrobatics => "Acrobatics",
            Skill::AnimalHandling => "Animal Handling",
            Skill::Arcana => "Arcana",
            Skill::Athletics => "Athletics",
            Skill::Deception => "Deception",
            Skill::History => "History",
            Skill::Insight => "Insight",
            Skill::Intimidation => "Intimidation",
            Skill::Investigation => "Investigation",
            Skill::Medicine => "Medicine",
            Skill::Nature => "Nature",
            Skill::Perception => "Perception",
            Skill::Performance => "Performance",
            Skill::Persuasion => "Persuasion",
            Skill::Religion => "Religion",
            Skill::SleightOfHand => "Sleight of Hand",
            Skill::Stealth => "Stealth",
            Skill::Survival => "Survival",
        }
    }

    /// The ability that governs each skill.
    pub open spec fn ability_spec(self) -> Ability {
        match self {
            Skill::Acrobatics | Skill::SleightOfHand | Skill::Stealth => Ability::Dexterity,
            Skill::Athletics => Ability::Strength,
            Skill::AnimalHandling
            | Skill::Insight
            | Skill::Medicine
            | Skill::Perception
            | Skill::Survival => Ability::Wisdom,
            Skill::Arcana
            | Skill::History
            | Skill::Investigation
            | Skill::Nature
            | Skill::Religion => Ability::Intelligence,
            Skill::Deception | Skill::Intimidation | Skill::Performance | Skill::Persuasion => Ability::Charisma,
        }
    }

    /// Returns the ability that governs this skill.
    pub fn ability(&self) -> (r: Ability)
        ensures
            r == self.ability_spec(),
    {
        match *self {
            Skill::Acrobatics | Skill::SleightOfHand | Skill::Stealth => Ability::Dexterity,
            Skill::Athletics => Ability::Strength,
            Skill::AnimalHandling
            | Skill::Insight
            | Skill::Medicine
            | Skill::Perception
            | Skill::Survival => Ability::Wisdom,
            Skill::Arcana
            | Skill::History
            | Skill::Investigation
            | Skill::Nature
            | Skill::Religion => Ability::Intelligence,
            Skill::Deception | Skill::Intimidation | Skill::Performance | Skill::Persuasion => Ability::Charisma,
        }
    }

    /// The stable discriminant of each variant, counting from zero in
    /// declaration order.
    pub open spec fn ordinal_spec(self) -> u8 {
        match self {
            Skill::Acrobatics => 0,
            Skill::AnimalHandling => 1,
            Skill::Arcana => 2,
            Skill::Athletics => 3,
            Skill::Deception => 4,
            Skill::History => 5,
            Skill::Insight => 6,
            Skill::Intimidation => 7,
            Skill::Investigation => 8,
            Skill::Medicine => 9,
            Skill::Nature => 10,
            Skill::Perception => 11,
            Skill::Performance => 12,
            Skill::Persuasion => 13,
            Skill::Religion => 14,
            Skill::SleightOfHand => 15,
            Skill::Stealth => 16,
            Skill::Survival => 17,
        }
    }

    /// Returns the stable one-byte discriminant of this skill.
    pub fn ordinal(self) -> (r: u8)
        ensures
            r == self.ordinal_spec(),
    {
        match self {
            Skill::Acrobatics => 0,
            Skill::AnimalHandling => 1,
            Skill::Arcana => 2,
            Skill::Athletics => 3,
            Skill::Deception => 4,
            Skill::History => 5,
            Skill::Insight => 6,
            Skill::Intimidation => 7,
            Skill::Investigation => 8,
            Skill::Medicine => 9,
            Skill::Nature => 10,
            Skill::Perception => 11,
            Skill::Performance => 12,
            Skill::Persuasion => 13,
            Skill::Religion => 14,
            Skill::SleightOfHand => 15,
            Skill::Stealth => 16,
            Skill::Survival => 17,
        }
    }

    /// The variant a discriminant below eighteen decodes to.
    pub open spec fn by_ordinal(n: u8) -> Skill {
        if n == 0 {
            Skill::Acrobatics
        } else if n == 1 {
            Skill::AnimalHandling
        } else if n == 2 {
            Skill::Arcana
        } else if n == 3 {
            Skill::Athletics
        } else if n == 4 {
            Skill::Deception
        } else if n == 5 {
            Skill::History
        } else if n == 6 {
            Skill::Insight
        } else if n == 7 {
            Skill::Intimidation
        } else if n == 8 {
            Skill::Investigation
        } else if n == 9 {
            Skill::Medicine
        } else if n == 10 {
            Skill::Nature
        } else if n == 11 {
            Skill::Perception
        } else if n == 12 {
            Skill::Performance
        } else if n == 13 {
            Skill::Persuasion
        } else if n == 14 {
            Skill::Religion
        } else if n == 15 {
            Skill::SleightOfHand
        } else if n == 16 {
            Skill::Stealth
        } else {
            Skill::Survival
        }
    }

    /// What decoding a one-byte discriminant yields: the matching variant
    /// below eighteen, nothing at eighteen or above.
    pub open spec fn from_ordinal_spec(n: u8) -> Option<Skill> {
        if n < 18 {
            Some(Self::by_ordinal(n))
        } else {
            None
        }
    }

    /// Decodes a one-byte discriminant back into a skill.
    pub fn from_ordinal(n: u8) -> (r: Option<Skill>)
        ensures
            r == Self::from_ordinal_spec(n),
    {
        if n >= 18 {
            return None;
        }
        let s = if n == 0 {
            Skill::Acrobatics
        } else if n == 1 {
            Skill::AnimalHandling
        } else if n == 2 {
            Skill::Arcana
        } else if n == 3 {
            Skill::Athletics
        } else if n == 4 {
            Skill::Deception
        } else if n == 5 {
            Skill::History
        } else if n == 6 {
            Skill::Insight
        } else if n == 7 {
            Skill::Intimidation
        } else if n == 8 {
            Skill::Investigation
        } else if n == 9 {
            Skill::Medicine
        } else if n == 10 {
            Skill::Nature
        } else if n == 11 {
            Skill::Perception
        } else if n == 12 {
            Skill::Performance
        } else if n == 13 {
            Skill::Persuasion
        } else if n == 14 {
            Skill::Religion
        } else if n == 15 {
            Skill::SleightOfHand
        } else if n == 16 {
            Skill::Stealth
        } else {
            Skill::Survival
        };
        Some(s)
    }

    /// What parsing a string yields: the variant whose exact display name
    /// the string spells, nothing otherwise.
    pub open spec fn parse_spec(s: Seq<char>) -> Option<Skill> {
        if s == "Acrobatics"@ {
            Some(Skill::Acrobatics)
        } else if s == "Animal Handling"@ {
            Some(Skill::AnimalHandling)
        } else if s == "Arcana"@ {
            Some(Skill::Arcana)
        } else if s == "Athletics"@ {
            Some(Skill::Athletics)
        } else if s == "Deception"@ {
            Some(Skill::Deception)
        } else if s == "History"@ {
            Some(Skill::History)
        } else if s == "Insight"@ {
            Some(Skill::Insight)
        } else if s == "Intimidation"@ {
            Some(Skill::Intimidation)
        } else if s == "Investigation"@ {
            Some(Skill::Investigation)
        } else if s == "Medicine"@ {
            Some(Skill::Medicine)
        } else if s == "Nature"@ {
            Some(Skill::Nature)
        } else if s == "Perception"@ {
            Some(Skill::Perception)
        } else if s == "Performance"@ {
            Some(Skill::Performance)
        } else if s == "Persuasion"@ {
            Some(Skill::Persuasion)
        } else if s == "Religion"@ {
            Some(Skill::Religion)
        } else if s == "Sleight of Hand"@ {
            Some(Skill::SleightOfHand)
        } else if s == "Stealth"@ {
            Some(Skill::Stealth)
        } else if s == "Survival"@ {
            Some(Skill::Survival)
        } else {
            None
        }
    }

    /// Parses a skill from its exact, case-sensitive display name.
    pub fn from_str(s: &str) -> (r: Result<Skill, &'static str>)
        ensures
            r matches Ok(k) ==> Self::parse_spec(s@) == Some(k),
            r is Err <==> Self::parse_spec(s@) is None,
            r matches Err(m) ==> m@ == "Unknown skill"@,
    {
        if str_eq(s, "Acrobatics") {
            Ok(Skill::Acrobatics)
        } else if str_eq(s, "Animal Handling") {
            Ok(Skill::AnimalHandling)
        } else if str_eq(s, "Arcana") {
            Ok(Skill::Arcana)
        } else if str_eq(s, "Athletics") {
            Ok(Skill::Athletics)
        } else if str_eq(s, "Deception") {
            Ok(Skill::Deception)
        } else if str_eq(s, "History") {
            Ok(Skill::History)
        } else if str_eq(s, "Insight") {
            Ok(Skill::Insight)
        } else if str_eq(s, "Intimidation") {
            Ok(Skill::Intimidation)
        } else if str_eq(s, "Investigation") {
            Ok(Skill::Investigation)
        } else if str_eq(s, "Medicine") {
            Ok(Skill::Medicine)
        } else if str_eq(s, "Nature") {
            Ok(Skill::Nature)
        } else if str_eq(s, "Perception") {
            Ok(Skill::Perception)
        } else if str_eq(s, "Performance") {
            Ok(Skill::Performance)
        } else if str_eq(s, "Persuasion") {
            Ok(Skill::Persuasion)
        } else if str_eq(s, "Religion") {
            Ok(Skill::Religion)
        } else if str_eq(s, "Sleight of Hand") {
            Ok(Skill::SleightOfHand)
        } else if str_eq(s, "Stealth") {
            Ok(Skill::Stealth)
        } else if str_eq(s, "Survival") {
            Ok(Skill::Survival)
        } else {
            Err("Unknown skill")
        }
    }
}

/// Encoding a skill as its discriminant and decoding it back yields the
/// skill again, and every discriminant is below eighteen.
pub proof fn lemma_skill_ordinal_roundtrip(s: Skill)
    ensures
        s.ordinal_spec() < 18,
        Skill::from_ordinal_spec(s.ordinal_spec()) == Some(s),
{
}

/// Encoding a skill as its display name and parsing the text back yields
/// the skill again.
pub proof fn lemma_skill_parse_name(s: Skill)
    ensures
        Skill::parse_spec(s.name_spec()) == Some(s),
{
    reveal_strlit("Acrobatics");
    reveal_strlit("Animal Handling");
    reveal_strlit("Arcana");
    reveal_strlit("Athletics");
    reveal_strlit("Deception");
    reveal_strlit("History");
    reveal_strlit("Insight");
    reveal_strlit("Intimidation");
    reveal_strlit("Investigation");
    reveal_strlit("Medicine");
    reveal_strlit("Nature");
    reveal_strlit("Perception");
    reveal_strlit("Performance");
    reveal_strlit("Persuasion");
    reveal_strlit("Religion");
    reveal_strlit("Sleight of Hand");
    reveal_strlit("Stealth");
    reveal_strlit("Survival");
    assert("Acrobatics"@.len() == 10);
    assert("Animal Handling"@.len() == 15);
    assert("Arcana"@.len() == 6);
    assert("Athletics"@.len() == 9);
    assert("Deception"@.len() == 9);
    assert("History"@.len() == 7);
    assert("Insight"@.len() == 7);
    assert("Intimidation"@.len() == 12);
    assert("Investigation"@.len() == 13);
    assert("Medicine"@.len() == 8);
    assert("Nature"@.len() == 6);
    assert("Perception"@.len() == 10);
    assert("Performance"@.len() == 11);
    assert("Persuasion"@.len() == 10);
    assert("Religion"@.len() == 8);
    assert("Sleight of Hand"@.len() == 15);
    assert("Stealth"@.len() == 7);
    assert("Survival"@.len() == 8);
    assert("Acrobatics"@[0] == 'A');
    assert("Animal Handling"@[0] == 'A');
    assert("Arcana"@[0] == 'A');
    assert("Athletics"@[0] == 'A');
    assert("Deception"@[0] == 'D');
    assert("History"@[0] == 'H');
    assert("Insight"@[0] == 'I');
    assert("Intimidation"@[0] == 'I');
    assert("Investigation"@[0] == 'I');
    assert("Medicine"@[0] == 'M');
    assert("Nature"@[0] == 'N');
    assert("Perception"@[0] == 'P');
    assert("Perception"@[3] == 'c');
    assert("Performance"@[0] == 'P');
    assert("Persuasion"@[0] == 'P');
    assert("Persuasion"@[3] == 's');
    assert("Religion"@[0] == 'R');
    assert("Sleight of Hand"@[0] == 'S');
    assert("Stealth"@[0] == 'S');
    assert("Survival"@[0] == 'S');
    match s {
        Skill::Acrobatics => {
            assert(Skill::parse_spec("Acrobatics"@) == Some(Skill::Acrobatics));
        },
        Skill::AnimalHandling => {
            assert(Skill::parse_spec("Animal Handling"@) == Some(Skill::AnimalHandling));
        },
        Skill::Arcana => {
            assert(Skill::parse_spec("Arcana"@) == Some(Skill::Arcana));
        },
        Skill::Athletics => {
            assert(Skill::parse_spec("Athletics"@) == Some(Skill::Athletics));
        },
        Skill::Deception => {
            assert(Skill::parse_spec("Deception"@) == Some(Skill::Deception));
        },
        Skill::History => {
            assert(Skill::parse_spec("History"@) == Some(Skill::History));
        },
        Skill::Insight => {
            assert(Skill::parse_spec("Insight"@) == Some(Skill::Insight));
        },
        Skill::Intimidation => {
            assert(Skill::parse_spec("Intimidation"@) == Some(Skill::Intimidation));
        },
        Skill::Investigation => {
            assert(Skill::parse_spec("Investigation"@) == Some(Skill::Investigation));
        },
        Skill::Medicine => {
            assert(Skill::parse_spec("Medicine"@) == Some(Skill::Medicine));
        },
        Skill::Nature => {
            assert(Skill::parse_spec("Nature"@) == Some(Skill::Nature));
        },
        Skill::Perception => {
            assert(Skill::parse_spec("Perception"@) == Some(Skill::Perception));
        },
        Skill::Performance => {
            assert(Skill::parse_spec("Performance"@) == Some(Skill::Performance));
        },
        Skill::Persuasion => {
            assert(Skill::parse_spec("Persuasion"@) == Some(Skill::Persuasion));
        },
        Skill::Religion => {
            assert(Skill::parse_spec("Religion"@) == Some(Skill::Religion));
        },
        Skill::SleightOfHand => {
            assert(Skill::parse_spec("Sleight of Hand"@) == Some(Skill::SleightOfHand));
        },
        Skill::Stealth => {
            assert(Skill::parse_spec("Stealth"@) == Some(Skill::Stealth));
        },
        Skill::Survival => {
            assert(Skill::parse_spec("Survival"@) == Some(Skill::Survival));
        },
    }
}

/// Every skill appears in the skill list of the ability that governs it:
/// the two directions of the association agree.
pub proof fn lemma_skill_ability_consistent(s: Skill)
    ensures
        s.ability_spec().skills_spec().contains(s),
{
    match s {
        Skill::Acrobatics => {
            assert(s.ability_spec().skills_spec()[0] == s);
        },
        Skill::AnimalHandling => {
            assert(s.ability_spec().skills_spec()[0] == s);
        },
        Skill::Arcana => {
            assert(s.ability_spec().skills_spec()[0] == s);
        },
        Skill::Athletics => {
            assert(s.ability_spec().skills_spec()[0] == s);
        },
        Skill::Deception => {
            assert(s.ability_spec().skills_spec()[0] == s);
        },
        Skill::History => {
            assert(s.ability_spec().skills_spec()[1] == s);
        },
        Skill::Insight => {
            assert(s.ability_spec().skills_spec()[1] == s);
        },
        Skill::Intimidation => {
            assert(s.ability_spec().skills_spec()[1] == s);
        },
        Skill::Investigation => {
            assert(s.ability_spec().skills_spec()[2] == s);
        },
        Skill::Medicine => {
            assert(s.ability_spec().skills_spec()[2] == s);
        },
        Skill::Nature => {
            assert(s.ability_spec().skills_spec()[3] == s);
        },
        Skill::Perception => {
            assert(s.ability_spec().skills_spec()[3] == s);
        },
        Skill::Performance => {
            assert(s.ability_spec().skills_spec()[2] == s);
        },
        Skill::Persuasion => {
            assert(s.ability_spec().skills_spec()[3] == s);
        },
        Skill::Religion => {
            assert(s.ability_spec().skills_spec()[4] == s);
        },
        Skill::SleightOfHand => {
            assert(s.ability_spec().skills_spec()[1] == s);
        },
        Skill::Stealth => {
            assert(s.ability_spec().skills_spec()[2] == s);
        },
        Skill::Survival => {
            assert(s.ability_spec().skills_spec()[4] == s);
        },
    }
}

/// Every skill an ability lists is governed by that ability: the inverse
/// direction of the association agrees as well.
pub proof fn lemma_ability_skills_consistent(a: Ability)
    ensures
        forall|i: int|
            0 <= i < a.skills_spec().len() ==> (#[trigger] a.skills_spec()[i]).ability_spec()
                == a,
{
}

} // verus!
