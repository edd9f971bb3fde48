use vstd::prelude::*;

verus! {

/// The bonus or penalty derived from an ability score: an integer that stays
/// within `-5..=10` for its whole lifetime.
#[derive(Debug, Clone, Copy, PartialEq, Eq, Structural)]
pub struct AbilityModifier {
    value: i8,
}

impl AbilityModifier {
    #[verifier::type_invariant]
    spec fn inv(self) -> bool {
        -5 <= self.value <= 10
    }

    /// The integer held by this modifier.
    pub closed spec fn spec_value(self) -> i8 {
        self.value
    }

    /// The nearest in-range value for a raw integer: the minimum below the
    /// range, the maximum above it, the value itself inside it.
    pub open spec fn clamped(value: i8) -> i8 {
        if value < -5 {
            (-5) as i8
        } else if value > 10 {
            10 as i8
        } else {
            value
        }
    }

    /// Creates a modifier from a value already known to be in range.
    pub fn new(value: i8) -> (r: Self)
        requires
            -5 <= value <= 10,
        ensures
            r.spec_value() == value,
    {
        Self { value }
    }

    /// Creates a modifier from any value, saturating at the bounds.
    pub fn new_clamped(value: i8) -> (r: Self)
        ensures
            r.spec_value() == Self::clamped(value),
    {
        if value < -5 {
            Self { value: -5 }
        } else if value > 10 {
            Self { value: 10 }
        } else {
            Self { value }
        }
    }

    /// Creates a modifier from any value, rejecting one outside the range
    /// with an error that names the violated bound.
    pub fn try_new(value: i8) -> (r: Result<Self, &'static str>)
        ensures
            r is Ok <==> -5 <= value <= 10,
            r matches Ok(m) ==> m.spec_value() == value,
            value < -5 ==> (r matches Err(m) && m@ == "Ability modifier cannot be less than -5"@),
            value > 10 ==> (r matches Err(m) && m@ == "Ability modifier cannot be greater than 10"@),
    {
        if value < -5 {
            Err("Ability modifier cannot be less than -5")
        } else if value > 10 {
            Err("Ability modifier cannot be greater than 10")
        } else {
            Ok(Self { value })
        }
    }

    /// Returns the underlying integer.
    pub fn value(&self) -> (r: i8)
        ensures
            r == self.spec_value(),
    {
        self.value
    }
}

} // verus!
