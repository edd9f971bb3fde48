use vstd::prelude::*;

use crate::ability_modifier::AbilityModifier;

verus! {

/// The magnitude of an ability: an integer that stays within `1..=30` for
/// its whole lifetime.
#[derive(Debug, Clone, Copy, PartialEq, Eq, Structural)]
pub struct AbilityScore {
    value: u8,
}

impl AbilityScore {
    #[verifier::type_invariant]
    spec fn inv(self) -> bool {
        1 <= self.value <= 30
    }

    /// The integer held by this score.
    pub closed spec fn spec_value(self) -> u8 {
        self.value
    }

    /// The nearest in-range value for a raw integer: the minimum below the
    /// range, the maximum above it, the value itself inside it.
    pub open spec fn clamped(value: u8) -> u8 {
        if value < 1 {
            1
        } else if value > 30 {
            30
        } else {
            value
        }
    }

    /// Creates a score from a value already known to be in range.
    pub fn new(value: u8) -> (r: Self)
        requires
            1 <= value <= 30,
        ensures
            r.spec_value() == value,
    {
        Self { value }
    }

    /// Creates a score from any value, saturating at the bounds.
    pub fn new_clamped(value: u8) -> (r: Self)
        ensures
            r.spec_value() == Self::clamped(value),
    {
        if value < 1 {
            Self { value: 1 }
        } else if value > 30 {
            Self { value: 30 }
        } else {
            Self { value }
        }
    }

    /// Creates a score from any value, rejecting one outside the range with
    /// an error that names the violated bound.
    pub fn try_new(value: u8) -> (r: Result<Self, &'static str>)
        ensures
            r is Ok <==> 1 <= value <= 30,
            r matches Ok(s) ==> s.spec_value() == value,
            value < 1 ==> (r matches Err(m) && m@ == "Ability score cannot be less than 1"@),
            value > 30 ==> (r matches Err(m) && m@ == "Ability score cannot be greater than 30"@),
    {
        if value < 1 {
            Err("Ability score cannot be less than 1")
        } else if value > 30 {
            Err("Ability score cannot be greater than 30")
        } else {
            Ok(Self { value })
        }
    }

    /// Returns the underlying integer.
    pub fn value(&self) -> (r: u8)
        ensures
            r == self.spec_value(),
    {
        self.value
    }

    /// The modifier an in-range score derives to: the score's offset from
    /// 10, halved with rounding toward negative infinity.
    pub open spec fn modifier_of(score: u8) -> int {
        (score - 10) / 2
    }

    /// Returns the modifier derived from this score.
    pub fn modifier(&self) -> (r: AbilityModifier)
        ensures
            r.spec_value() == Self::modifier_of(self.spec_value()),
    {
        proof {
            use_type_invariant(self);
        }
        if self.value >= 10 {
            let m = (self.value - 10) / 2;
            AbilityModifier::new(m as i8)
        } else {
            let d = 10 - self.value;
            let m = (d + 1) / 2;
            proof {
                assert(-((d + 1) / 2) == (self.value - 10) / 2);
            }
            AbilityModifier::new(-(m as i8))
        }
    }
}

/// The derived-modifier table is exact: halving the offset from 10 with
/// rounding toward negative infinity sends each in-range score to the
/// modifier below.
pub proof fn lemma_modifier_table()
    ensures
        AbilityScore::modifier_of(1) == -5,
        AbilityScore::modifier_of(2) == -4,
        AbilityScore::modifier_of(3) == -4,
        AbilityScore::modifier_of(4) == -3,
        AbilityScore::modifier_of(5) == -3,
        AbilityScore::modifier_of(6) == -2,
        AbilityScore::modifier_of(7) == -2,
        AbilityScore::modifier_of(8) == -1,
        AbilityScore::modifier_of(9) == -1,
        AbilityScore::modifier_of(10) == 0,
        AbilityScore::modifier_of(11) == 0,
        AbilityScore::modifier_of(12) == 1,
        AbilityScore::modifier_of(13) == 1,
        AbilityScore::modifier_of(14) == 2,
        AbilityScore::modifier_of(15) == 2,
        AbilityScore::modifier_of(16) == 3,
        AbilityScore::modifier_of(17) == 3,
        AbilityScore::modifier_of(18) == 4,
        AbilityScore::modifier_of(19) == 4,
        AbilityScore::modifier_of(20) == 5,
        AbilityScore::modifier_of(21) == 5,
        AbilityScore::modifier_of(22) == 6,
        AbilityScore::modifier_of(23) == 6,
        AbilityScore::modifier_of(24) == 7,
        AbilityScore::modifier_of(25) == 7,
        AbilityScore::modifier_of(26) == 8,
        AbilityScore::modifier_of(27) == 8,
        AbilityScore::modifier_of(28) == 9,
        AbilityScore::modifier_of(29) == 9,
        AbilityScore::modifier_of(30) == 10,
{
}

impl Default for AbilityScore {
    /// The conventional starting score, 10.
    fn default() -> (r: Self)
        ensures
            r.spec_value() == 10,
    {
        Self { value: 10 }
    }
}

} // verus!
