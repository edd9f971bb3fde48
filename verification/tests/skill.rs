use dnd::Skill;

#[test]
fn names() {
    for skill in Skill::all() {
        assert!(!skill.name().is_empty());
    }
}

#[test]
fn abilities() {
    for skill in Skill::all() {
        assert!(skill.ability().skills().contains(&skill));
    }
}

#[test]
fn parse() {
    for skill in Skill::all() {
        assert_eq!(Skill::from_str(skill.name()).unwrap(), skill);
    }
}

#[test]
fn skill_display() {
    for skill in Skill::all() {
        let mut output = String::new();
        output.push_str(skill.name());
        assert_eq!(output, skill.name());
    }
}

#[test]
fn serde() {
    let skill = Skill::Acrobatics;
    let serialized = format!("\"{}\"", skill.name());
    assert_eq!(serialized, "\"Acrobatics\"");

    let inner = &serialized[1..serialized.len() - 1];
    let deserialized: Skill = Skill::from_str(inner).unwrap();
    assert_eq!(deserialized, skill);
}
