use vstd::prelude::*;

verus! {

/// The bonus added to checks a creature is proficient in: an integer that
/// stays within `2..=9` for its whole lifetime.
#[derive(Debug, Clone, Copy, PartialEq, Eq, Structural)]
pub struct ProficiencyBonus {
    value: u8,
}

impl ProficiencyBonus {
    #[verifier::type_invariant]
    spec fn inv(self) -> bool {
        2 <= self.value <= 9
    }

    /// The integer held by this bonus.
    pub closed spec fn spec_value(self) -> u8 {
        self.value
    }

    /// The nearest in-range value for a raw integer: the minimum below the
    /// range, the maximum above it, the value itself inside it.
    pub open spec fn clamped(value: u8) -> u8 {
        if value < 2 {
            2
        } else if value > 9 {
            9
        } else {
            value
        }
    }

    /// Creates a bonus from a value already known to be in range.
    pub fn new(value: u8) -> (r: Self)
        requires
            2 <= value <= 9,
        ensures
            r.spec_value() == value,
    {
        Self { value }
    }

    /// Creates a bonus from any value, saturating at the bounds.
    pub fn new_clamped(value: u8) -> (r: Self)
        ensures
            r.spec_value() == Self::clamped(value),
    {
        if value < 2 {
            Self { value: 2 }
        } else if value > 9 {
            Self { value: 9 }
        } else {
            Self { value }
        }
    }

    /// Creates a bonus from any value, rejecting one outside the range with
    /// an error that names the violated bound.
    pub fn try_new(value: u8) -> (r: Result<Self, &'static str>)
        ensures
            r is Ok <==> 2 <= value <= 9,
            r matches Ok(b) ==> b.spec_value() == value,
            value < 2 ==> (r matches Err(m) && m@ == "Proficiency bonus cannot be less than 2"@),
            value > 9 ==> (r matches Err(m) && m@ == "Proficiency bonus cannot be greater than 9"@),
    {
        if value < 2 {
            Err("Proficiency bonus cannot be less than 2")
        } else if value > 9 {
            Err("Proficiency bonus cannot be greater than 9")
        } else {
            Ok(Self { value })
        }
    }

    /// Returns the underlying integer.
    pub fn value(&self) -> (r: u8)
        ensures
            r == self.spec_value(),
    {
        self.value
    }
}

} // verus!
