use dnd::Skill;
use dnd::SkillLevel;
use dnd::SkillProficiencies;

#[test]
fn skill_proficiencies_new() {
    let profs = SkillProficiencies::new();
    assert!(profs.iter().into_iter().next().is_none());
}

#[test]
fn set_proficient() {
    let mut profs = SkillProficiencies::new();
    profs.set_proficient(Skill::Acrobatics);

    assert!(profs.is_proficient(Skill::Acrobatics));
    assert!(!profs.has_expertise(Skill::Acrobatics));
    assert_eq!(
        profs.get_proficiency(Skill::Acrobatics),
        Some(SkillLevel::Proficient)
    );

    let skills: Vec<_> = profs.iter();
    assert_eq!(&skills, &[(Skill::Acrobatics, SkillLevel::Proficient)]);
}

#[test]
fn set_expertise() {
    let mut profs = SkillProficiencies::new();
    profs.set_expertise(Skill::Acrobatics);

    assert!(!profs.is_proficient(Skill::Acrobatics));
    assert!(profs.has_expertise(Skill::Acrobatics));
    assert_eq!(
        profs.get_proficiency(Skill::Acrobatics),
        Some(SkillLevel::Expertise)
    );
    let skills: Vec<_> = profs.iter();
    assert_eq!(&skills, &[(Skill::Acrobatics, SkillLevel::Expertise)]);
}

#[test]
fn clear_proficiency() {
    let mut profs = SkillProficiencies::new();
    profs.set_proficient(Skill::Acrobatics);
    profs.clear_proficiency(Skill::Acrobatics);

    assert!(!profs.is_proficient(Skill::Acrobatics));
    assert!(!profs.has_expertise(Skill::Acrobatics));
    assert_eq!(profs.get_proficiency(Skill::Acrobatics), None);
    let skills: Vec<_> = profs.iter();
    assert!(skills.is_empty());
}

#[test]
fn clear_all() {
    let mut profs = SkillProficiencies::new();
    profs.set_proficient(Skill::Acrobatics);
    profs.set_expertise(Skill::Stealth);
    profs.clear_all();

    assert!(!profs.is_proficient(Skill::Acrobatics));
    assert!(!profs.has_expertise(Skill::Stealth));
    assert_eq!(profs.get_proficiency(Skill::Acrobatics), None);
    assert_eq!(profs.get_proficiency(Skill::Stealth), None);
    let skills: Vec<_> = profs.iter();
    assert!(skills.is_empty());
}

#[test]
fn skill_proficiencies_iter() {
    let mut profs = SkillProficiencies::new();
    profs.set_proficient(Skill::Acrobatics);
    profs.set_expertise(Skill::Stealth);

    let skills: Vec<_> = profs.iter();
    assert_eq!(
        &skills,
        &[
            (Skill::Acrobatics, SkillLevel::Proficient),
            (Skill::Stealth, SkillLevel::Expertise)
        ]
    );
}

#[test]
fn with_proficiencies() {
    let profs = SkillProficiencies::with_proficiencies(vec![
        (Skill::Acrobatics, SkillLevel::Proficient),
        (Skill::Stealth, SkillLevel::Expertise),
    ]);
    assert!(profs.is_proficient(Skill::Acrobatics));
    assert!(profs.has_expertise(Skill::Stealth));
}
