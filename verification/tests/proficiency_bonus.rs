use dnd::Level;
use dnd::ProficiencyBonus;

#[test]
fn proficiency_bonus_new_clamped_min() {
    let bonus = ProficiencyBonus::new_clamped(1);
    assert_eq!(bonus, ProficiencyBonus::new(2));
}

#[test]
fn proficiency_bonus_new_clamped_max() {
    let bonus = ProficiencyBonus::new_clamped(9);
    assert_eq!(bonus, ProficiencyBonus::new(9));
}

#[test]
fn proficiency_bonus_new_clamped_valid() {
    let bonus = ProficiencyBonus::new_clamped(5);
    assert_eq!(bonus.value(), 5);
}

#[test]
fn proficiency_bonus_try_new_min() {
    let bonus = ProficiencyBonus::try_new(1);
    assert_eq!(bonus, Err("Proficiency bonus cannot be less than 2"));
}

#[test]
fn proficiency_bonus_try_new_max() {
    let bonus = ProficiencyBonus::try_new(19);
    assert_eq!(bonus, Err("Proficiency bonus cannot be greater than 9"));
}

#[test]
fn proficiency_bonus_try_new_valid() {
    let bonus = ProficiencyBonus::try_new(5);
    assert_eq!(bonus, Ok(ProficiencyBonus::new(5)));
}

#[test]
fn proficiency_bonus_new() {
    let bonus = ProficiencyBonus::new(5);
    assert_eq!(bonus, ProficiencyBonus::try_new(5).unwrap());
}

#[test]
fn proficiency_bonus_value() {
    let bonus = ProficiencyBonus::new(5);
    assert_eq!(bonus.value(), 5);
}

#[test]
fn proficiency_bonus_try_from_u8() {
    let bonus: ProficiencyBonus = ProficiencyBonus::try_new(6).unwrap();
    assert_eq!(bonus, ProficiencyBonus::new(6));
}

#[test]
fn proficiency_bonus_from_u8() {
    let bonus: u8 = ProficiencyBonus::new(7).value();
    assert_eq!(bonus, 7);
}

#[test]
fn proficiency_bonus_into_u8() {
    let bonus = ProficiencyBonus::new(8);
    let value: u8 = bonus.value();
    assert_eq!(value, 8);
}

#[test]
fn from_level() {
    let level = Level::new_clamped(5);
    let bonus: ProficiencyBonus = level.proficiency_bonus();
    assert_eq!(bonus, ProficiencyBonus::new(3));
}

#[test]
fn proficiency_bonus_serde_serialize() {
    let bonus = ProficiencyBonus::new(5);
    let serialized = format!("{}", bonus.value());
    assert_eq!(serialized, "5");

    let deserialized: ProficiencyBonus =
        ProficiencyBonus::try_new(serialized.parse::<u8>().unwrap()).unwrap();
    assert_eq!(deserialized, bonus);
}
