use vstd::prelude::*;

use crate::proficiency_bonus::ProficiencyBonus;

verus! {

/// The experience tier of a creature: an integer that stays within `1..=20`
/// for its whole lifetime.
#[derive(Debug, Clone, Copy, PartialEq, Eq, Structural)]
pub struct Level {
    value: u8,
}

impl Level {
    #[verifier::type_invariant]
    spec fn inv(self) -> bool {
        1 <= self.value <= 20
    }

    /// The integer held by this level.
    pub closed spec fn spec_value(self) -> u8 {
        self.value
    }

    /// The nearest in-range value for a raw integer: the minimum below the
    /// range, the maximum above it, the value itself inside it.
    pub open spec fn clamped(value: u8) -> u8 {
        if value < 1 {
            1
        } else if value > 20 {
            20
        } else {
            value
        }
    }

    /// Creates a level from any value, saturating at the bounds.
    pub fn new_clamped(value: u8) -> (r: Self)
        ensures
            r.spec_value() == Self::clamped(value),
    {
        if value < 1 {
            Self { value: 1 }
        } else if value > 20 {
            Self { value: 20 }
        } else {
            Self { value }
        }
    }

    /// Creates a level from any value, rejecting one outside the range with
    /// an error that names the violated bound.
    pub fn try_new(value: u8) -> (r: Result<Self, &'static str>)
        ensures
            r is Ok <==> 1 <= value <= 20,
            r matches Ok(l) ==> l.spec_value() == value,
            value < 1 ==> (r matches Err(m) && m@ == "Level cannot be less than 1"@),
            value > 20 ==> (r matches Err(m) && m@ == "Level cannot be greater than 20"@),
    {
        if value < 1 {
            Err("Level cannot be less than 1")
        } else if value > 20 {
            Err("Level cannot be greater than 20")
        } else {
            Ok(Self { value })
        }
    }

    /// Returns the underlying integer.
    pub fn value(&self) -> (r: u8)
        ensures
            r == self.spec_value(),
    {
        self.value
    }

    /// The proficiency-bonus step table: levels 1-4 give 2, 5-8 give 3,
    /// 9-12 give 4, 13-16 give 5, and 17-20 give 6. The table extends past
    /// the level cap (21-24 give 7, 25-28 give 8, 29-30 give 9) so that it
    /// stays meaningful should the cap ever rise.
    pub open spec fn bonus_of(level: u8) -> u8 {
        if level <= 4 {
            2
        } else if level <= 8 {
            3
        } else if level <= 12 {
            4
        } else if level <= 16 {
            5
        } else if level <= 20 {
            6
        } else if level <= 24 {
            7
        } else if level <= 28 {
            8
        } else {
            9
        }
    }

    /// Returns the proficiency bonus this level grants.
    pub fn proficiency_bonus(&self) -> (r: ProficiencyBonus)
        ensures
            r.spec_value() == Self::bonus_of(self.spec_value()),
    {
        proof {
            use_type_invariant(self);
        }
        let raw = if self.value <= 4 {
            2
        } else if self.value <= 8 {
            3
        } else if self.value <= 12 {
            4
        } else if self.value <= 16 {
            5
        } else {
            6
        };
        ProficiencyBonus::new(raw)
    }
}

/// The proficiency-bonus table is exact on every step, including the rows
/// past the current level cap.
pub proof fn lemma_bonus_table()
    ensures
        forall|l: u8| 1 <= l <= 4 ==> Level::bonus_of(l) == 2,
        forall|l: u8| 5 <= l <= 8 ==> Level::bonus_of(l) == 3,
        forall|l: u8| 9 <= l <= 12 ==> Level::bonus_of(l) == 4,
        forall|l: u8| 13 <= l <= 16 ==> Level::bonus_of(l) == 5,
        forall|l: u8| 17 <= l <= 20 ==> Level::bonus_of(l) == 6,
        forall|l: u8| 21 <= l <= 24 ==> Level::bonus_of(l) == 7,
        forall|l: u8| 25 <= l <= 28 ==> Level::bonus_of(l) == 8,
        forall|l: u8| 29 <= l <= 30 ==> Level::bonus_of(l) == 9,
{
}

impl Default for Level {
    /// The starting level, 1.
    fn default() -> (r: Self)
        ensures
            r.spec_value() == 1,
    {
        Self { value: 1 }
    }
}

} // verus!
