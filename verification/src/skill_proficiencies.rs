use vstd::prelude::*;

use crate::skill::Skill;
use crate::skill::lemma_skill_ordinal_roundtrip;

verus! {

/// The tier of competence a creature has in a skill.
#[derive(Debug, Clone, Copy, PartialEq, Eq, Structural)]
pub enum SkillLevel {
    /// Proficient in the skill: the proficiency bonus applies once.
    Proficient,
    /// Expert in the skill: the proficiency bonus is doubled.
    Expertise,
}

/// The bit a skill occupies in a membership mask: bit number equal to the
/// skill's discriminant.
spec fn mask_of(s: Skill) -> u32 {
    1u32 << (s.ordinal_spec() as u32)
}

/// The skill proficiencies of a creature: two disjoint membership sets over
/// the skills, one for the Proficient tier and one for the Expertise tier,
/// each held as a bitmask indexed by skill discriminant.
#[derive(Debug, Clone, Copy, PartialEq, Eq, Structural)]
pub struct SkillProficiencies {
    proficient: u32,
    expertise: u32,
}

impl SkillProficiencies {
    /// Well-formedness: only the eighteen skill bits are used, and no skill
    /// is in both tiers at once.
    #[verifier::type_invariant]
    pub closed spec fn wf(self) -> bool {
        &&& self.proficient < 0x40000
        &&& self.expertise < 0x40000
        &&& self.proficient & self.expertise == 0
    }

    /// Whether a skill is in the Proficient tier (false when it has
    /// Expertise).
    pub closed spec fn spec_is_proficient(self, s: Skill) -> bool {
        self.proficient & mask_of(s) != 0
    }

    /// Whether a skill is in the Expertise tier.
    pub closed spec fn spec_has_expertise(self, s: Skill) -> bool {
        self.expertise & mask_of(s) != 0
    }

    /// The tier recorded for a skill, if any.
    pub open spec fn spec_get(self, s: Skill) -> Option<SkillLevel> {
        if self.spec_has_expertise(s) {
            Some(SkillLevel::Expertise)
        } else if self.spec_is_proficient(s) {
            Some(SkillLevel::Proficient)
        } else {
            None
        }
    }

    /// The recorded skills up to (excluding) the given discriminant, each
    /// paired with its tier, in skill declaration order.
    pub open spec fn entries_up_to(self, n: int) -> Seq<(Skill, SkillLevel)>
        decreases n,
    {
        if n <= 0 {
            Seq::empty()
        } else {
            let prefix = self.entries_up_to(n - 1);
            let s = Skill::by_ordinal((n - 1) as u8);
            match self.spec_get(s) {
                Some(l) => prefix.push((s, l)),
                None => prefix,
            }
        }
    }

    /// Every recorded skill paired with its tier, in skill declaration
    /// order.
    pub open spec fn entries_spec(self) -> Seq<(Skill, SkillLevel)> {
        self.entries_up_to(18)
    }

    /// The tier the last matching pair of a sequence assigns to a skill, if
    /// any pair matches it.
    pub open spec fn applied_level(pairs: Seq<(Skill, SkillLevel)>, s: Skill) -> Option<
        SkillLevel,
    >
        decreases pairs.len(),
    {
        if pairs.len() == 0 {
            None
        } else if pairs.last().0 == s {
            Some(pairs.last().1)
        } else {
            Self::applied_level(pairs.drop_last(), s)
        }
    }

    /// Creates a record with no proficiencies at all.
    pub fn new() -> (r: Self)
        ensures
            forall|s: Skill| !(#[trigger] r.spec_is_proficient(s)),
            forall|s: Skill| !(#[trigger] r.spec_has_expertise(s)),
            forall|s: Skill| (#[trigger] r.spec_get(s)) is None,
            r.entries_spec() == Seq::<(Skill, SkillLevel)>::empty(),
    {
        proof {
            assert(0u32 & 0u32 == 0) by (bit_vector);
        }
        let r = Self { proficient: 0, expertise: 0 };
        proof {
            assert forall|s: Skill| !(#[trigger] r.spec_is_proficient(s)) by {
                lemma_skill_ordinal_roundtrip(s);
                lemma_zero_bit(s.ordinal_spec() as u32);
            }
            assert forall|s: Skill| !(#[trigger] r.spec_has_expertise(s)) by {
                lemma_skill_ordinal_roundtrip(s);
                lemma_zero_bit(s.ordinal_spec() as u32);
            }
            lemma_entries_none(r, 18);
        }
        r
    }

    /// Creates a record holding the given proficiencies, applied in order;
    /// a later pair for the same skill overrides an earlier one.
    pub fn with_proficiencies(pairs: Vec<(Skill, SkillLevel)>) -> (r: Self)
        ensures
            forall|s: Skill| #[trigger] r.spec_get(s) == Self::applied_level(pairs@, s),
    {
        let mut profs = Self::new();
        profs.set_proficiencies(pairs);
        profs
    }

    /// Returns whether the creature is proficient in the given skill; a
    /// skill with Expertise is not reported here.
    pub fn is_proficient(&self, skill: Skill) -> (r: bool)
        ensures
            r == self.spec_is_proficient(skill),
    {
        self.proficient & mask_of_exec(skill) != 0
    }

    /// Returns whether the creature has expertise in the given skill.
    pub fn has_expertise(&self, skill: Skill) -> (r: bool)
        ensures
            r == self.spec_has_expertise(skill),
    {
        self.expertise & mask_of_exec(skill) != 0
    }

    /// Returns the tier recorded for the given skill, if any.
    pub fn get_proficiency(&self, skill: Skill) -> (r: Option<SkillLevel>)
        ensures
            r == self.spec_get(skill),
    {
        if self.has_expertise(skill) {
            Some(SkillLevel::Expertise)
        } else if self.is_proficient(skill) {
            Some(SkillLevel::Proficient)
        } else {
            None
        }
    }

    /// Records the given tier for the given skill, removing it from the
    /// other tier; every other skill keeps its state.
    pub fn set_proficiency(&mut self, skill: Skill, proficiency: SkillLevel)
        ensures
            forall|s: Skill|
                #[trigger] final(self).spec_is_proficient(s) == (if s == skill {
                    proficiency is Proficient
                } else {
                    old(self).spec_is_proficient(s)
                }),
            forall|s: Skill|
                #[trigger] final(self).spec_has_expertise(s) == (if s == skill {
                    proficiency is Expertise
                } else {
                    old(self).spec_has_expertise(s)
                }),
    {
        proof {
            use_type_invariant(&*self);
            lemma_skill_ordinal_roundtrip(skill);
        }
        let mask = mask_of_exec(skill);
        let p = self.proficient;
        let e = self.expertise;
        let ghost i: u32 = skill.ordinal_spec() as u32;
        match proficiency {
            SkillLevel::Proficient => {
                proof {
                    lemma_insert_bound(p, i);
                    lemma_remove_bound(e, i);
                    lemma_insert_remove_disjoint(p, e, i);
                }
                *self = Self { proficient: p | mask, expertise: e & !mask };
            },
            SkillLevel::Expertise => {
                proof {
                    lemma_and_comm(p, e);
                    lemma_insert_bound(e, i);
                    lemma_remove_bound(p, i);
                    lemma_insert_remove_disjoint(e, p, i);
                }
                *self = Self { proficient: p & !mask, expertise: e | mask };
            },
        }
        proof {
            assert forall|s: Skill|
                #[trigger] self.spec_is_proficient(s) == (if s == skill {
                    proficiency is Proficient
                } else {
                    old(self).spec_is_proficient(s)
                }) by {
                let j: u32 = s.ordinal_spec() as u32;
                lemma_skill_ordinal_roundtrip(s);
                lemma_insert_bit(p, i, j);
                lemma_remove_bit(p, i, j);
            }
            assert forall|s: Skill|
                #[trigger] self.spec_has_expertise(s) == (if s == skill {
                    proficiency is Expertise
                } else {
                    old(self).spec_has_expertise(s)
                }) by {
                let j: u32 = s.ordinal_spec() as u32;
                lemma_skill_ordinal_roundtrip(s);
                lemma_insert_bit(e, i, j);
                lemma_remove_bit(e, i, j);
            }
        }
    }

    /// Records each pair's tier for its skill, in order; a later pair for
    /// the same skill overrides an earlier one, and unmentioned skills keep
    /// their state.
    pub fn set_proficiencies(&mut self, pairs: Vec<(Skill, SkillLevel)>)
        ensures
            forall|s: Skill|
                #[trigger] final(self).spec_get(s) == (match Self::applied_level(pairs@, s) {
                    Some(l) => Some(l),
                    None => old(self).spec_get(s),
                }),
    {
        let mut idx: usize = 0;
        while idx < pairs.len()
            invariant
                idx <= pairs.len(),
                forall|s: Skill|
                    #[trigger] self.spec_get(s) == (match Self::applied_level(
                        pairs@.subrange(0, idx as int),
                        s,
                    ) {
                        Some(l) => Some(l),
                        None => old(self).spec_get(s),
                    }),
            decreases pairs.len() - idx,
        {
            let (sk, lv) = pairs[idx];
            let ghost prev = *self;
            self.set_proficiency(sk, lv);
            proof {
                let done = pairs@.subrange(0, idx as int + 1);
                assert(done.len() == idx as int + 1);
                assert(done.drop_last() =~= pairs@.subrange(0, idx as int));
                assert(done.last() == pairs@[idx as int]);
                assert forall|s: Skill|
                    #[trigger] self.spec_get(s) == (match Self::applied_level(done, s) {
                        Some(l) => Some(l),
                        None => old(self).spec_get(s),
                    }) by {
                    if s == sk {
                        assert(Self::applied_level(done, s) == Some(lv));
                    } else {
                        assert(Self::applied_level(done, s) == Self::applied_level(
                            done.drop_last(),
                            s,
                        ));
                        assert(self.spec_get(s) == prev.spec_get(s));
                    }
                }
            }
            idx += 1;
        }
        proof {
            assert(pairs@.subrange(0, pairs@.len() as int) =~= pairs@);
        }
    }

    /// Records the Proficient tier for the given skill, removing any
    /// Expertise it had; every other skill keeps its state.
    pub fn set_proficient(&mut self, skill: Skill)
        ensures
            forall|s: Skill|
                #[trigger] final(self).spec_is_proficient(s) == (s == skill || old(
                    self,
                ).spec_is_proficient(s)),
            forall|s: Skill|
                #[trigger] final(self).spec_has_expertise(s) == (s != skill && old(
                    self,
                ).spec_has_expertise(s)),
    {
        self.set_proficiency(skill, SkillLevel::Proficient);
    }

    /// Records the Expertise tier for the given skill, removing any plain
    /// proficiency it had; every other skill keeps its state.
    pub fn set_expertise(&mut self, skill: Skill)
        ensures
            forall|s: Skill|
                #[trigger] final(self).spec_has_expertise(s) == (s == skill || old(
                    self,
                ).spec_has_expertise(s)),
            forall|s: Skill|
                #[trigger] final(self).spec_is_proficient(s) == (s != skill && old(
                    self,
                ).spec_is_proficient(s)),
    {
        self.set_proficiency(skill, SkillLevel::Expertise);
    }

    /// Removes the given skill from both tiers; every other skill keeps its
    /// state.
    pub fn clear_proficiency(&mut self, skill: Skill)
        ensures
            final(self).spec_get(skill) is None,
            forall|s: Skill|
                s != skill ==> #[trigger] final(self).spec_get(s) == old(self).spec_get(s),
    {
        proof {
            use_type_invariant(&*self);
            lemma_skill_ordinal_roundtrip(skill);
        }
        let mask = mask_of_exec(skill);
        let p = self.proficient;
        let e = self.expertise;
        let ghost i: u32 = skill.ordinal_spec() as u32;
        proof {
            lemma_remove_bound(p, i);
            lemma_remove_bound(e, i);
            lemma_remove_remove_disjoint(p, e, i);
        }
        *self = Self { proficient: p & !mask, expertise: e & !mask };
        proof {
            lemma_remove_bit(p, i, i);
            lemma_remove_bit(e, i, i);
            assert forall|s: Skill| s != skill implies #[trigger] self.spec_get(s) == old(
                self,
            ).spec_get(s) by {
                let j: u32 = s.ordinal_spec() as u32;
                lemma_skill_ordinal_roundtrip(s);
                lemma_remove_bit(p, i, j);
                lemma_remove_bit(e, i, j);
            }
        }
    }

    /// Removes every skill from both tiers.
    pub fn clear_all(&mut self)
        ensures
            forall|s: Skill| !(#[trigger] final(self).spec_is_proficient(s)),
            forall|s: Skill| !(#[trigger] final(self).spec_has_expertise(s)),
            forall|s: Skill| (#[trigger] final(self).spec_get(s)) is None,
            final(self).entries_spec() == Seq::<(Skill, SkillLevel)>::empty(),
    {
        *self = Self::new();
    }

    /// Returns every recorded skill paired with its tier, in skill
    /// declaration order; skills in neither tier are left out.
    pub fn iter(&self) -> (r: Vec<(Skill, SkillLevel)>)
        ensures
            r@ == self.entries_spec(),
    {
        let mut v: Vec<(Skill, SkillLevel)> = Vec::new();
        let mut n: u8 = 0;
        while n < 18
            invariant
                n <= 18,
                v@ == self.entries_up_to(n as int),
            decreases 18 - n,
        {
            let s = Skill::from_ordinal(n).unwrap();
            match self.get_proficiency(s) {
                Some(l) => v.push((s, l)),
                None => {},
            }
            n += 1;
        }
        v
    }
}

impl Default for SkillProficiencies {
    /// The record with no proficiencies at all.
    fn default() -> (r: Self)
        ensures
            forall|s: Skill| !(#[trigger] r.spec_is_proficient(s)),
            forall|s: Skill| !(#[trigger] r.spec_has_expertise(s)),
            forall|s: Skill| (#[trigger] r.spec_get(s)) is None,
            r.entries_spec() == Seq::<(Skill, SkillLevel)>::empty(),
    {
        Self::new()
    }
}

/// A record with no recorded skill lists no entries: its tiers are read
/// back as an empty sequence.
proof fn lemma_entries_none(p: SkillProficiencies, n: int)
    requires
        0 <= n <= 18,
        forall|s: Skill| (#[trigger] p.spec_get(s)) is None,
    ensures
        p.entries_up_to(n) == Seq::<(Skill, SkillLevel)>::empty(),
    decreases n,
{
    if n > 0 {
        lemma_entries_none(p, n - 1);
    }
}

/// The two tiers never overlap: no skill is both Proficient and an
/// Expertise holder in a well-formed record.
pub proof fn lemma_tiers_disjoint(p: SkillProficiencies, s: Skill)
    requires
        p.wf(),
    ensures
        !(p.spec_is_proficient(s) && p.spec_has_expertise(s)),
{
    lemma_skill_ordinal_roundtrip(s);
    lemma_disjoint_bit(p.proficient, p.expertise, s.ordinal_spec() as u32);
}

/// A well-formed record is determined by the tiers it reports: two records
/// that agree on the recorded tier of every skill are equal. Reading the
/// entries out and applying them to an empty record therefore rebuilds the
/// record itself.
pub proof fn lemma_same_tiers_equal(p1: SkillProficiencies, p2: SkillProficiencies)
    requires
        p1.wf(),
        p2.wf(),
        forall|s: Skill| #[trigger] p1.spec_get(s) == p2.spec_get(s),
    ensures
        p1 == p2,
{
    assert forall|j: u32|
        j < 18 implies ((p1.proficient & (1u32 << j) != 0) == (p2.proficient & (1u32 << j) != 0))
        && ((p1.expertise & (1u32 << j) != 0) == (p2.expertise & (1u32 << j) != 0)) by {
        let s = Skill::by_ordinal(j as u8);
        assert(s.ordinal_spec() == j);
        lemma_disjoint_bit(p1.proficient, p1.expertise, j);
        lemma_disjoint_bit(p2.proficient, p2.expertise, j);
        assert(p1.spec_get(s) == p2.spec_get(s));
    }
    lemma_mask_ext(p1.proficient, p2.proficient);
    lemma_mask_ext(p1.expertise, p2.expertise);
}

/// Reading a record's entries out and applying them in order reports, for
/// every skill, exactly the tier the record held: encoding a record as its
/// entry list and decoding the list back loses nothing.
pub proof fn lemma_entries_rebuild(p: SkillProficiencies, s: Skill)
    ensures
        SkillProficiencies::applied_level(p.entries_spec(), s) == p.spec_get(s),
{
    lemma_applied_entries_up_to(p, s, 18);
}

/// Applying the entries below a discriminant bound reports the recorded
/// tier of every skill below the bound, and nothing of the skills above it.
proof fn lemma_applied_entries_up_to(p: SkillProficiencies, s: Skill, n: int)
    requires
        0 <= n <= 18,
    ensures
        SkillProficiencies::applied_level(p.entries_up_to(n), s) == (if s.ordinal_spec() < n {
            p.spec_get(s)
        } else {
            None
        }),
    decreases n,
{
    lemma_skill_ordinal_roundtrip(s);
    if n > 0 {
        lemma_applied_entries_up_to(p, s, n - 1);
        let sn = Skill::by_ordinal((n - 1) as u8);
        lemma_skill_ordinal_roundtrip(sn);
        let prefix = p.entries_up_to(n - 1);
        match p.spec_get(sn) {
            Some(l) => {
                assert(prefix.push((sn, l)).drop_last() =~= prefix);
            },
            None => {},
        }
    }
}

/// Computes the membership-mask bit of a skill.
fn mask_of_exec(s: Skill) -> (r: u32)
    ensures
        r == mask_of(s),
{
    proof {
        lemma_skill_ordinal_roundtrip(s);
    }
    let n = s.ordinal();
    1u32 << (n as u32)
}

proof fn lemma_insert_bit(m: u32, i: u32, j: u32)
    by (bit_vector)
    requires
        i < 32,
        j < 32,
    ensures
        ((m | (1u32 << i)) & (1u32 << j) != 0) == (i == j || (m & (1u32 << j) != 0)),
{
}

proof fn lemma_remove_bit(m: u32, i: u32, j: u32)
    by (bit_vector)
    requires
        i < 32,
        j < 32,
    ensures
        ((m & !(1u32 << i)) & (1u32 << j) != 0) == (i != j && (m & (1u32 << j) != 0)),
{
}

proof fn lemma_insert_bound(m: u32, i: u32)
    by (bit_vector)
    requires
        m < 0x40000,
        i < 18,
    ensures
        (m | (1u32 << i)) < 0x40000,
{
}

proof fn lemma_remove_bound(m: u32, i: u32)
    by (bit_vector)
    requires
        m < 0x40000,
        i < 32,
    ensures
        (m & !(1u32 << i)) < 0x40000,
{
}

proof fn lemma_insert_remove_disjoint(a: u32, b: u32, i: u32)
    by (bit_vector)
    requires
        a & b == 0,
        i < 32,
    ensures
        (a | (1u32 << i)) & (b & !(1u32 << i)) == 0,
        (b & !(1u32 << i)) & (a | (1u32 << i)) == 0,
{
}

proof fn lemma_remove_remove_disjoint(a: u32, b: u32, i: u32)
    by (bit_vector)
    requires
        a & b == 0,
        i < 32,
    ensures
        (a & !(1u32 << i)) & (b & !(1u32 << i)) == 0,
{
}

proof fn lemma_and_comm(a: u32, b: u32)
    by (bit_vector)
    ensures
        a & b == b & a,
{
}

proof fn lemma_zero_bit(j: u32)
    by (bit_vector)
    requires
        j < 32,
    ensures
        0u32 & (1u32 << j) == 0,
{
}

proof fn lemma_disjoint_bit(a: u32, b: u32, j: u32)
    by (bit_vector)
    requires
        a & b == 0,
        j < 32,
    ensures
        !((a & (1u32 << j) != 0) && (b & (1u32 << j) != 0)),
{
}

proof fn lemma_mask_ext(a: u32, b: u32)
    requires
        a < 0x40000,
        b < 0x40000,
        forall|j: u32| j < 18 ==> ((a & (1u32 << j) != 0) == (b & (1u32 << j) != 0)),
    ensures
        a == b,
{
    assert((a & (1u32 << 0u32) != 0) == (b & (1u32 << 0u32) != 0));
    assert((a & (1u32 << 1u32) != 0) == (b & (1u32 << 1u32) != 0));
    assert((a & (1u32 << 2u32) != 0) == (b & (1u32 << 2u32) != 0));
    assert((a & (1u32 << 3u32) != 0) == (b & (1u32 << 3u32) != 0));
    assert((a & (1u32 << 4u32) != 0) == (b & (1u32 << 4u32) != 0));
    assert((a & (1u32 << 5u32) != 0) == (b & (1u32 << 5u32) != 0));
    assert((a & (1u32 << 6u32) != 0) == (b & (1u32 << 6u32) != 0));
    assert((a & (1u32 << 7u32) != 0) == (b & (1u32 << 7u32) != 0));
    assert((a & (1u32 << 8u32) != 0) == (b & (1u32 << 8u32) != 0));
    assert((a & (1u32 << 9u32) != 0) == (b & (1u32 << 9u32) != 0));
    assert((a & (1u32 << 10u32) != 0) == (b & (1u32 << 10u32) != 0));
    assert((a & (1u32 << 11u32) != 0) == (b & (1u32 << 11u32) != 0));
    assert((a & (1u32 << 12u32) != 0) == (b & (1u32 << 12u32) != 0));
    assert((a & (1u32 << 13u32) != 0) == (b & (1u32 << 13u32) != 0));
    assert((a & (1u32 << 14u32) != 0) == (b & (1u32 << 14u32) != 0));
    assert((a & (1u32 << 15u32) != 0) == (b & (1u32 << 15u32) != 0));
    assert((a & (1u32 << 16u32) != 0) == (b & (1u32 << 16u32) != 0));
    assert((a & (1u32 << 17u32) != 0) == (b & (1u32 << 17u32) != 0));
    assert(a == b) by (bit_vector)
        requires
            a < 0x40000,
            b < 0x40000,
            (a & (1u32 << 0u32) != 0) == (b & (1u32 << 0u32) != 0),
            (a & (1u32 << 1u32) != 0) == (b & (1u32 << 1u32) != 0),
            (a & (1u32 << 2u32) != 0) == (b & (1u32 << 2u32) != 0),
            (a & (1u32 << 3u32) != 0) == (b & (1u32 << 3u32) != 0),
            (a & (1u32 << 4u32) != 0) == (b & (1u32 << 4u32) != 0),
            (a & (1u32 << 5u32) != 0) == (b & (1u32 << 5u32) != 0),
            (a & (1u32 << 6u32) != 0) == (b & (1u32 << 6u32) != 0),
            (a & (1u32 << 7u32) != 0) == (b & (1u32 << 7u32) != 0),
            (a & (1u32 << 8u32) != 0) == (b & (1u32 << 8u32) != 0),
            (a & (1u32 << 9u32) != 0) == (b & (1u32 << 9u32) != 0),
            (a & (1u32 << 10u32) != 0) == (b & (1u32 << 10u32) != 0),
            (a & (1u32 << 11u32) != 0) == (b & (1u32 << 11u32) != 0),
            (a & (1u32 << 12u32) != 0) == (b & (1u32 << 12u32) != 0),
            (a & (1u32 << 13u32) != 0) == (b & (1u32 << 13u32) != 0),
            (a & (1u32 << 14u32) != 0) == (b & (1u32 << 14u32) != 0),
            (a & (1u32 << 15u32) != 0) == (b & (1u32 << 15u32) != 0),
            (a & (1u32 << 16u32) != 0) == (b & (1u32 << 16u32) != 0),
            (a & (1u32 << 17u32) != 0) == (b & (1u32 << 17u32) != 0),
    ;
}

} // verus!
