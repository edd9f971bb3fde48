use dnd::Level;
use dnd::ProficiencyBonus;

#[test]
fn level_new_clamped_min() {
    let level = Level::new_clamped(0);
    assert_eq!(level, Level::new_clamped(1));
}

#[test]
fn level_new_clamped_max() {
    let level = Level::new_clamped(21);
    assert_eq!(level, Level::new_clamped(20));
}

#[test]
fn level_new_clamped_valid() {
    let level = Level::new_clamped(10);
    assert_eq!(level, Level::try_new(10).unwrap());
}

#[test]
fn level_try_new_min() {
    let level = Level::try_new(0);
    assert_eq!(level, Err("Level cannot be less than 1"));
}

#[test]
fn level_try_new_max() {
    let level = Level::try_new(21);
    assert_eq!(level, Err("Level cannot be greater than 20"));
}

#[test]
fn level_try_new_valid() {
    let level = Level::try_new(10);
    assert_eq!(level, Ok(Level::new_clamped(10)));
}

#[test]
fn level_value() {
    let level = Level::new_clamped(15);
    assert_eq!(level.value(), 15);
}

#[test]
fn proficiency_bonus() {
    let expected = [
        (1..=4u8, 2u8),
        (5..=8, 3),
        (9..=12, 4),
        (13..=16, 5),
        (17..=20, 6),
    ];

    for (range, bonus) in expected {
        for level in range {
            assert_eq!(
                Level::new_clamped(level).proficiency_bonus(),
                ProficiencyBonus::new_clamped(bonus)
            );
        }
    }
}

#[test]
fn default() {
    assert_eq!(Level::default(), Level::new_clamped(1));
}

#[test]
fn level_try_from_u8() {
    let level: Level = Level::try_new(5).unwrap();
    assert_eq!(level, Level::new_clamped(5));
}

#[test]
fn level_from_u8() {
    let level: u8 = Level::new_clamped(7).value();
    assert_eq!(level, 7);
}

#[test]
fn level_into_u8() {
    let level = Level::new_clamped(12);
    let value: u8 = level.value();
    assert_eq!(value, 12);
}

#[test]
fn level_serde_serialize() {
    let level = Level::new_clamped(18);
    let serialized = format!("{}", level.value());
    assert_eq!(serialized, "18");

    let deserialized: Level = Level::try_new(serialized.parse::<u8>().unwrap()).unwrap();
    assert_eq!(deserialized, level);
}
