use vstd::prelude::*;

use crate::skill::Skill;
use crate::text::str_eq;

verus! {

/// The six fixed attributes that measure the physical and mental
/// characteristics of a creature.
#[derive(Debug, Clone, Copy, PartialEq, Eq, Structural)]
pub enum Ability {
    /// Physical might.
    Strength,
    /// Agility, reflexes, and balance.
    Dexterity,
    /// Health and stamina.
    Constitution,
    /// Reasoning and memory.
    Intelligence,
    /// Perceptiveness and mental fortitude.
    Wisdom,
    /// Confidence, poise, and charm.
    Charisma,
}

impl Ability {
    /// Every variant, in declaration order.
    pub open spec fn all_spec() -> Seq<Ability> {
        seq![
            Ability::Strength,
            Ability::Dexterity,
            Ability::Constitution,
            Ability::Intelligence,
            Ability::Wisdom,
            Ability::Charisma,
        ]
    }

    /// Returns every variant, in declaration order.
    pub fn all() -> (r: Vec<Ability>)
        ensures
            r@ == Self::all_spec(),
    {
        let mut v: Vec<Ability> = Vec::new();
        v.push(Ability::Strength);
        v.push(Ability::Dexterity);
        v.push(Ability::Constitution);
        v.push(Ability::Intelligence);
        v.push(Ability::Wisdom);
        v.push(Ability::Charisma);
        proof {
            assert(v@ =~= Self::all_spec());
        }
        v
    }

    /// The full name of each variant, in title case.
    pub open spec fn name_spec(self) -> Seq<char> {
        match self {
            Ability::Strength => "Strength"@,
            Ability::Dexterity => "Dexterity"@,
            Ability::Constitution => "Constitution"@,
            Ability::Intelligence => "Intelligence"@,
            Ability::Wisdom => "Wisdom"@,
            Ability::Charisma => "Charisma"@,
        }
    }

    /// Returns the full name of the ability, in title case.
    pub fn name(&self) -> (r: &'static str)
        ensures
            r@ == self.name_spec(),
    {
        match *self {
            Ability::Strength => "Strength",
            Ability::Dexterity => "Dexterity",
            Ability::Constitution => "Constitution",
            Ability::Intelligence => "Intelligence",
            Ability::Wisdom => "Wisdom",
            Ability::Charisma => "Charisma",
        }
    }

    /// The three-letter abbreviation of each variant, in upper case.
    pub open spec fn abbr_spec(self) -> Seq<char> {
        match self {
            Ability::Strength => "STR"@,
            Ability::Dexterity => "DEX"@,
            Ability::Constitution => "CON"@,
            Ability::Intelligence => "INT"@,
            Ability::Wisdom => "WIS"@,
            Ability::Charisma => "CHA"@,
        }
    }

    /// Returns the three-letter abbreviation of the ability, in upper case.
    pub fn abbr(&self) -> (r: &'static str)
        ensures
            r@ == self.abbr_spec(),
    {
        match *self {
            Ability::Strength => "STR",
            Ability::Dexterity => "DEX",
            Ability::Constitution => "CON",
            Ability::Intelligence => "INT",
            Ability::Wisdom => "WIS",
            Ability::Charisma => "CHA",
        }
    }

    /// The skills each ability governs, in skill declaration order.
    pub open spec fn skills_spec(self) -> Seq<Skill> {
        match self {
            Ability::Strength => seq![Skill::Athletics],
            Ability::Dexterity => seq![Skill::Acrobatics, Skill::SleightOfHand, Skill::Stealth],
            Ability::Constitution => Seq::empty(),
            Ability::Intelligence => seq![
                Skill::Arcana,
                Skill::History,
                Skill::Investigation,
                Skill::Nature,
                Skill::Religion,
            ],
            Ability::Wisdom => seq![
                Skill::AnimalHandling,
                Skill::Insight,
                Skill::Medicine,
                Skill::Perception,
                Skill::Survival,
            ],
            Ability::Charisma => seq![
                Skill::Deception,
                Skill::Intimidation,
                Skill::Performance,
                Skill::Persuasion,
            ],
        }
    }

    /// Returns the skills this ability governs, in skill declaration order.
    pub fn skills(&self) -> (r: Vec<Skill>)
        ensures
            r@ == self.skills_spec(),
    {
        let mut v: Vec<Skill> = Vec::new();
        match *self {
            Ability::Strength => {
                v.push(Skill::Athletics);
            },
            Ability::Dexterity => {
                v.push(Skill::Acrobatics);
                v.push(Skill::SleightOfHand);
                v.push(Skill::Stealth);
            },
            Ability::Constitution => {},
            Ability::Intelligence => {
                v.push(Skill::Arcana);
                v.push(Skill::History);
                v.push(Skill::Investigation);
                v.push(Skill::Nature);
                v.push(Skill::Religion);
            },
            Ability::Wisdom => {
                v.push(Skill::AnimalHandling);
                v.push(Skill::Insight);
                v.push(Skill::Medicine);
                v.push(Skill::Perception);
                v.push(Skill::Survival);
            },
            Ability::Charisma => {
                v.push(Skill::Deception);
                v.push(Skill::Intimidation);
                v.push(Skill::Performance);
                v.push(Skill::Persuasion);
            },
        }
        proof {
            assert(v@ =~= self.skills_spec());
        }
        v
    }

    /// The stable discriminant of each variant, counting from zero in
    /// declaration order.
    pub open spec fn ordinal_spec(self) -> u8 {
        match self {
            Ability::Strength => 0,
            Ability::Dexterity => 1,
            Ability::Constitution => 2,
            Ability::Intelligence => 3,
            Ability::Wisdom => 4,
            Ability::Charisma => 5,
        }
    }

    /// Returns the stable one-byte discriminant of this ability.
    pub fn ordinal(self) -> (r: u8)
        ensures
            r == self.ordinal_spec(),
    {
        match self {
            Ability::Strength => 0,
            Ability::Dexterity => 1,
            Ability::Constitution => 2,
            Ability::Intelligence => 3,
            Ability::Wisdom => 4,
            Ability::Charisma => 5,
        }
    }

    /// The variant a discriminant below six decodes to.
    pub open spec fn by_ordinal(n: u8) -> Ability {
        if n == 0 {
            Ability::Strength
        } else if n == 1 {
            Ability::Dexterity
        } else if n == 2 {
            Ability::Constitution
        } else if n == 3 {
            Ability::Intelligence
        } else if n == 4 {
            Ability::Wisdom
        } else {
            Ability::Charisma
        }
    }

    /// What decoding a one-byte discriminant yields: the matching variant
    /// below six, nothing at six or above.
    pub open spec fn from_ordinal_spec(n: u8) -> Option<Ability> {
        if n < 6 {
            Some(Self::by_ordinal(n))
        } else {
            None
        }
    }

    /// Decodes a one-byte discriminant back into an ability.
    pub fn from_ordinal(n: u8) -> (r: Option<Ability>)
        ensures
            r == Self::from_ordinal_spec(n),
    {
        if n == 0 {
            Some(Ability::Strength)
        } else if n == 1 {
            Some(Ability::Dexterity)
        } else if n == 2 {
            Some(Ability::Constitution)
        } else if n == 3 {
            Some(Ability::Intelligence)
        } else if n == 4 {
            Some(Ability::Wisdom)
        } else if n == 5 {
            Some(Ability::Charisma)
        } else {
            None
        }
    }

    /// What parsing a string yields: the variant whose full name or
    /// abbreviation the string spells, nothing otherwise.
    pub open spec fn parse_spec(s: Seq<char>) -> Option<Ability> {
        if s == "Strength"@ || s == "STR"@ {
            Some(Ability::Strength)
        } else if s == "Dexterity"@ || s == "DEX"@ {
            Some(Ability::Dexterity)
        } else if s == "Constitution"@ || s == "CON"@ {
            Some(Ability::Constitution)
        } else if s == "Intelligence"@ || s == "INT"@ {
            Some(Ability::Intelligence)
        } else if s == "Wisdom"@ || s == "WIS"@ {
            Some(Ability::Wisdom)
        } else if s == "Charisma"@ || s == "CHA"@ {
            Some(Ability::Charisma)
        } else {
            None
        }
    }

    /// Parses an ability from its case-sensitive full name or three-letter
    /// abbreviation.
    pub fn from_str(s: &str) -> (r: Result<Ability, &'static str>)
        ensures
            r matches Ok(a) ==> Self::parse_spec(s@) == Some(a),
            r is Err <==> Self::parse_spec(s@) is None,
            r matches Err(m) ==> m@ == "Unknown ability"@,
    {
        if str_eq(s, "Strength") || str_eq(s, "STR") {
            Ok(Ability::Strength)
        } else if str_eq(s, "Dexterity") || str_eq(s, "DEX") {
            Ok(Ability::Dexterity)
        } else if str_eq(s, "Constitution") || str_eq(s, "CON") {
            Ok(Ability::Constitution)
        } else if str_eq(s, "Intelligence") || str_eq(s, "INT") {
            Ok(Ability::Intelligence)
        } else if str_eq(s, "Wisdom") || str_eq(s, "WIS") {
            Ok(Ability::Wisdom)
        } else if str_eq(s, "Charisma") || str_eq(s, "CHA") {
            Ok(Ability::Charisma)
        } else {
            Err("Unknown ability")
        }
    }
}

/// Encoding an ability as its discriminant and decoding it back yields the
/// ability again, and every discriminant is below six.
pub proof fn lemma_ability_ordinal_roundtrip(a: Ability)
    ensures
        a.ordinal_spec() < 6,
        Ability::from_ordinal_spec(a.ordinal_spec()) == Some(a),
{
}

/// Encoding an ability as its full name or its abbreviation and parsing the
/// text back yields the ability again.
pub proof fn lemma_ability_parse_name(a: Ability)
    ensures
        Ability::parse_spec(a.name_spec()) == Some(a),
        Ability::parse_spec(a.abbr_spec()) == Some(a),
{
    reveal_strlit("Strength");
    reveal_strlit("STR");
    reveal_strlit("Dexterity");
    reveal_strlit("DEX");
    reveal_strlit("Constitution");
    reveal_strlit("CON");
    reveal_strlit("Intelligence");
    reveal_strlit("INT");
    reveal_strlit("Wisdom");
    reveal_strlit("WIS");
    reveal_strlit("Charisma");
    reveal_strlit("CHA");
    assert("Strength"@.len() == 8);
    assert("STR"@.len() == 3);
    assert("Dexterity"@.len() == 9);
    assert("DEX"@.len() == 3);
    assert("Constitution"@.len() == 12);
    assert("CON"@.len() == 3);
    assert("Intelligence"@.len() == 12);
    assert("INT"@.len() == 3);
    assert("Wisdom"@.len() == 6);
    assert("WIS"@.len() == 3);
    assert("Charisma"@.len() == 8);
    assert("CHA"@.len() == 3);
    assert("Strength"@[0] == 'S');
    assert("STR"@[0] == 'S');
    assert("Dexterity"@[0] == 'D');
    assert("DEX"@[0] == 'D');
    assert("Constitution"@[0] == 'C');
    assert("CON"@[0] == 'C');
    assert("CON"@[1] == 'O');
    assert("Intelligence"@[0] == 'I');
    assert("INT"@[0] == 'I');
    assert("Wisdom"@[0] == 'W');
    assert("WIS"@[0] == 'W');
    assert("Charisma"@[0] == 'C');
    assert("CHA"@[0] == 'C');
    assert("CHA"@[1] == 'H');
    match a {
        Ability::Strength => {
            assert(Ability::parse_spec("Strength"@) == Some(Ability::Strength));
            assert(Ability::parse_spec("STR"@) == Some(Ability::Strength));
        },
        Ability::Dexterity => {
            assert(Ability::parse_spec("Dexterity"@) == Some(Ability::Dexterity));
            assert(Ability::parse_spec("DEX"@) == Some(Ability::Dexterity));
        },
        Ability::Constitution => {
            assert(Ability::parse_spec("Constitution"@) == Some(Ability::Constitution));
            assert(Ability::parse_spec("CON"@) == Some(Ability::Constitution));
        },
        Ability::Intelligence => {
            assert(Ability::parse_spec("Intelligence"@) == Some(Ability::Intelligence));
            assert(Ability::parse_spec("INT"@) == Some(Ability::Intelligence));
        },
        Ability::Wisdom => {
            assert(Ability::parse_spec("Wisdom"@) == Some(Ability::Wisdom));
            assert(Ability::parse_spec("WIS"@) == Some(Ability::Wisdom));
        },
        Ability::Charisma => {
            assert(Ability::parse_spec("Charisma"@) == Some(Ability::Charisma));
            assert(Ability::parse_spec("CHA"@) == Some(Ability::Charisma));
        },
    }
}

} // verus!
