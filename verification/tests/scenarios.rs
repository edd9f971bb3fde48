use dnd::Abilities;
use dnd::Ability;
use dnd::AbilityScore;
use dnd::Level;
use dnd::Skill;
use dnd::SkillLevel;
use dnd::SkillProficiencies;

#[test]
fn skill_all_order() {
    let skills = Skill::all();
    assert_eq!(skills.len(), 18);
    assert_eq!(skills.first(), Some(&Skill::Acrobatics));
    assert_eq!(skills.last(), Some(&Skill::Survival));
}

#[test]
fn ability_all_order() {
    let abilities = Ability::all();
    assert_eq!(abilities.len(), 6);
    assert_eq!(abilities.first(), Some(&Ability::Strength));
    assert_eq!(abilities.last(), Some(&Ability::Charisma));
}

#[test]
fn proficiency_transitions() {
    let mut profs = SkillProficiencies::new();
    profs.set_proficient(Skill::Arcana);
    profs.set_expertise(Skill::Arcana);
    assert!(!profs.is_proficient(Skill::Arcana));
    assert!(profs.has_expertise(Skill::Arcana));

    profs.set_proficient(Skill::Arcana);
    assert!(profs.is_proficient(Skill::Arcana));
    assert!(!profs.has_expertise(Skill::Arcana));
}

#[test]
fn proficiencies_rebuild_round_trip() {
    let mut profs = SkillProficiencies::new();
    profs.set_proficient(Skill::Athletics);
    profs.set_expertise(Skill::Perception);
    profs.set_proficient(Skill::Survival);

    let rebuilt = SkillProficiencies::with_proficiencies(profs.iter());
    assert_eq!(rebuilt, profs);
}

#[test]
fn with_proficiencies_later_pair_overrides() {
    let profs = SkillProficiencies::with_proficiencies(vec![
        (Skill::Acrobatics, SkillLevel::Proficient),
        (Skill::Acrobatics, SkillLevel::Expertise),
    ]);
    assert!(!profs.is_proficient(Skill::Acrobatics));
    assert!(profs.has_expertise(Skill::Acrobatics));
}

#[test]
fn set_proficiencies_keeps_other_skills() {
    let mut profs = SkillProficiencies::new();
    profs.set_expertise(Skill::Stealth);
    profs.set_proficiencies(vec![(Skill::Medicine, SkillLevel::Proficient)]);
    assert!(profs.has_expertise(Skill::Stealth));
    assert!(profs.is_proficient(Skill::Medicine));
}

#[test]
fn skill_ordinal_round_trip() {
    for skill in Skill::all() {
        let encoded = skill.ordinal();
        assert!(encoded < 18);
        assert_eq!(Skill::from_ordinal(encoded), Some(skill));
    }
    assert_eq!(Skill::from_ordinal(18), None);
}

#[test]
fn ability_ordinal_round_trip() {
    for ability in Ability::all() {
        let encoded = ability.ordinal();
        assert!(encoded < 6);
        assert_eq!(Ability::from_ordinal(encoded), Some(ability));
    }
    assert_eq!(Ability::from_ordinal(6), None);
}

#[test]
fn skill_from_str_unknown() {
    assert_eq!(Skill::from_str("Juggling"), Err("Unknown skill"));
    assert_eq!(Ability::from_str("Luck"), Err("Unknown ability"));
}

#[test]
fn parse_case_sensitivity() {
    assert_eq!(
        Skill::from_str("Sleight of Hand"),
        Ok(Skill::SleightOfHand)
    );
    assert!(Skill::from_str("sleight of hand").is_err());
    assert_eq!(
        Ability::from_str("STR").unwrap(),
        Ability::from_str("Strength").unwrap()
    );
}

#[test]
fn end_to_end_skill_bonus() {
    let score = AbilityScore::new(16);
    assert_eq!(score.modifier().value(), 3);

    let level = Level::new_clamped(5);
    assert_eq!(level.proficiency_bonus().value(), 3);

    let mut abilities = Abilities::new();
    abilities.set(Ability::Dexterity, AbilityScore::new(14));
    let mut profs = SkillProficiencies::new();
    profs.set_proficient(Skill::Acrobatics);

    assert_eq!(Skill::Acrobatics.ability(), Ability::Dexterity);
    let modifier = abilities.get(Skill::Acrobatics.ability()).modifier().value();
    assert_eq!(modifier, 2);
    assert!(profs.is_proficient(Skill::Acrobatics));
    let bonus = level.proficiency_bonus().value() as i8;
    assert_eq!(modifier + bonus, 5);
}
