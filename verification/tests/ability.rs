use dnd::Ability;
use dnd::Skill;

#[test]
fn all() {
    assert_eq!(
        Ability::all(),
        vec![
            Ability::Strength,
            Ability::Dexterity,
            Ability::Constitution,
            Ability::Intelligence,
            Ability::Wisdom,
            Ability::Charisma,
        ]
    );
}

#[test]
fn name() {
    let cases = [
        (Ability::Strength, "Strength"),
        (Ability::Dexterity, "Dexterity"),
        (Ability::Constitution, "Constitution"),
        (Ability::Intelligence, "Intelligence"),
        (Ability::Wisdom, "Wisdom"),
        (Ability::Charisma, "Charisma"),
    ];
    for (ability, expected_name) in cases {
        assert_eq!(ability.name(), expected_name);
    }
}

#[test]
fn abbr() {
    let cases = [
        (Ability::Strength, "STR"),
        (Ability::Dexterity, "DEX"),
        (Ability::Constitution, "CON"),
        (Ability::Intelligence, "INT"),
        (Ability::Wisdom, "WIS"),
        (Ability::Charisma, "CHA"),
    ];
    for (ability, expected_abbr) in cases {
        assert_eq!(ability.abbr(), expected_abbr);
    }
}

#[test]
fn ability_display() {
    let mut output = String::new();
    output.push_str(Ability::Strength.name());
    assert_eq!(output, "Strength");
}

#[test]
fn as_ref() {
    let ability = Ability::Dexterity;
    assert_eq!(ability.name(), "Dexterity");
}

#[test]
fn from_str() {
    let cases = [
        ("Strength", Ability::Strength),
        ("STR", Ability::Strength),
        ("Dexterity", Ability::Dexterity),
        ("DEX", Ability::Dexterity),
        ("Constitution", Ability::Constitution),
        ("CON", Ability::Constitution),
        ("Intelligence", Ability::Intelligence),
        ("INT", Ability::Intelligence),
        ("Wisdom", Ability::Wisdom),
        ("WIS", Ability::Wisdom),
        ("Charisma", Ability::Charisma),
        ("CHA", Ability::Charisma),
    ];

    for (input, expected) in cases {
        assert_eq!(Ability::from_str(input).unwrap(), expected);
    }

    assert!(Ability::from_str("invalid").is_err());
}

#[test]
fn serde_json() {
    let ability = Ability::Strength;
    let serialized = format!("\"{}\"", ability.name());
    assert_eq!(serialized, "\"Strength\"");

    let inner = &serialized[1..serialized.len() - 1];
    let deserialized: Ability = Ability::from_str(inner).unwrap();
    assert_eq!(deserialized, ability);
}

#[test]
fn serde_postcard() {
    let ability = Ability::Dexterity;
    let serialized = vec![ability.ordinal()];
    assert_eq!(serialized.as_slice(), &[1]);

    let deserialized: Ability = Ability::from_ordinal(serialized[0]).unwrap();
    assert_eq!(deserialized, ability);
}

#[test]
fn skills() {
    for ability in Ability::all() {
        for skill in ability.skills() {
            let expected = Skill::all().into_iter().find(|s| s.ability() == ability);
            assert!(
                expected.is_some(),
                "Skill {skill:?} should be associated with {ability:?}"
            );
        }
    }
}
