//! Core value types for tabletop role-playing-game rules arithmetic.
//!
//! The crate models bounded numeric quantities (ability scores, ability
//! modifiers, levels, proficiency bonuses), the closed enumerations of
//! abilities and skills with their fixed association, a record of the six
//! ability scores of a creature, and a per-creature set of skill
//! proficiencies with two tiers. Every operation carries a contract that
//! pins down its result, and the derivation formulas and lookup tables are
//! proved against those contracts.

mod abilities;
mod ability;
mod ability_modifier;
mod ability_score;
mod level;
mod proficiency_bonus;
mod skill;
mod skill_proficiencies;
mod text;

pub use abilities::Abilities;
pub use ability::Ability;
pub use ability::lemma_ability_ordinal_roundtrip;
pub use ability::lemma_ability_parse_name;
pub use ability_modifier::AbilityModifier;
pub use ability_score::AbilityScore;
pub use ability_score::lemma_modifier_table;
pub use level::Level;
pub use level::lemma_bonus_table;
pub use proficiency_bonus::ProficiencyBonus;
pub use skill::Skill;
pub use skill::lemma_ability_skills_consistent;
pub use skill::lemma_skill_ability_consistent;
pub use skill::lemma_skill_ordinal_roundtrip;
pub use skill::lemma_skill_parse_name;
pub use skill_proficiencies::SkillLevel;
pub use skill_proficiencies::SkillProficiencies;
pub use skill_proficiencies::lemma_entries_rebuild;
pub use skill_proficiencies::lemma_same_tiers_equal;
pub use skill_proficiencies::lemma_tiers_disjoint;
