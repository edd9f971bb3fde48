use dnd::AbilityScore;

#[test]
fn ability_score_new_clamped_min() {
    let score = AbilityScore::new_clamped(0);
    assert_eq!(score, AbilityScore::new(1));
}

#[test]
fn ability_score_new_clamped_max() {
    let score = AbilityScore::new_clamped(31);
    assert_eq!(score, AbilityScore::new(30));
}

#[test]
fn ability_score_new_clamped_valid() {
    let score = AbilityScore::new_clamped(15);
    assert_eq!(score, AbilityScore::new(15));
}

#[test]
fn ability_score_try_new_min() {
    let score = AbilityScore::try_new(0);
    assert_eq!(score, Err("Ability score cannot be less than 1"));
}

#[test]
fn ability_score_try_new_max() {
    let score = AbilityScore::try_new(31);
    assert_eq!(score, Err("Ability score cannot be greater than 30"));
}

#[test]
fn ability_score_try_new_valid() {
    let score = AbilityScore::try_new(15);
    assert_eq!(score, Ok(AbilityScore::new(15)));
}

#[test]
fn ability_score_new() {
    let score = AbilityScore::new(15);
    assert_eq!(score, AbilityScore::try_new(15).unwrap());
}

#[test]
fn ability_score_value() {
    let score = AbilityScore::new(15);
    assert_eq!(score.value(), 15);
}

#[test]
fn modifier() {
    let expected: [(u8, i8); 30] = [
        (1, -5),
        (2, -4),
        (3, -4),
        (4, -3),
        (5, -3),
        (6, -2),
        (7, -2),
        (8, -1),
        (9, -1),
        (10, 0),
        (11, 0),
        (12, 1),
        (13, 1),
        (14, 2),
        (15, 2),
        (16, 3),
        (17, 3),
        (18, 4),
        (19, 4),
        (20, 5),
        (21, 5),
        (22, 6),
        (23, 6),
        (24, 7),
        (25, 7),
        (26, 8),
        (27, 8),
        (28, 9),
        (29, 9),
        (30, 10),
    ];
    for (score, modifier) in expected {
        let ability_score = AbilityScore::new(score);
        assert_eq!(
            ability_score.modifier().value(),
            modifier,
            "Modifier mismatch for score {score}"
        );
    }
}

#[test]
fn ability_score_from_u8() {
    let score: AbilityScore = AbilityScore::try_new(20).unwrap();
    assert_eq!(score, AbilityScore::new(20));
}

#[test]
fn ability_score_into_u8() {
    let score = AbilityScore::new(25);
    let value: u8 = score.value();
    assert_eq!(value, 25);
}

#[test]
fn ability_score_serde_serialize() {
    let score = AbilityScore::new(18);
    let serialized = format!("{}", score.value());
    assert_eq!(serialized, "18");

    let deserialized: AbilityScore =
        AbilityScore::try_new(serialized.parse::<u8>().unwrap()).unwrap();
    assert_eq!(deserialized, AbilityScore::new(18));
}
