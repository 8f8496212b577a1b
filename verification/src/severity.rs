//! The four-tier severity scale used to colour-code and prioritise
//! patient status on the dashboard.

use vstd::prelude::*;

verus! {

/// Urgency of a patient's condition, ordered by escalating urgency:
/// `Low < Medium < High < Critical`.
///
/// `Medium` is a defined level with its own label and colour, but the
/// three vital-sign classifiers never produce it; see
/// [`crate::vitals`] for that (proved) fact.
#[derive(Debug, Clone, Copy, PartialEq, Eq, Structural)]
pub enum TriageLevel {
    Critical,
    High,
    Medium,
    Low,
}

impl TriageLevel {
    /// Position of this level on the urgency scale: `Low` is 0 and
    /// `Critical` is 3, so a greater rank means a more urgent level.
    pub fn rank(&self) -> (r: u8)
        ensures
            r == self.spec_rank(),
    {
        match self {
            TriageLevel::Low => 0,
            TriageLevel::Medium => 1,
            TriageLevel::High => 2,
            TriageLevel::Critical => 3,
        }
    }

    /// Rank of each level: `Low < Medium < High < Critical`.
    pub open spec fn spec_rank(&self) -> u8 {
        match self {
            TriageLevel::Low => 0,
            TriageLevel::Medium => 1,
            TriageLevel::High => 2,
            TriageLevel::Critical => 3,
        }
    }

    /// Fixed display label of this level.
    pub fn text(&self) -> (r: &'static str)
        ensures
            self is Critical ==> r@ == "CRITICAL"@,
            self is High ==> r@ == "HIGH"@,
            self is Medium ==> r@ == "MEDIUM"@,
            self is Low ==> r@ == "LOW"@,
    {
        match self {
            TriageLevel::Critical => "CRITICAL",
            TriageLevel::High => "HIGH",
            TriageLevel::Medium => "MEDIUM",
            TriageLevel::Low => "LOW",
        }
    }

    /// Fixed display colour of this level, as an `(r, g, b)` triple.
    /// The renderer turns it into whatever colour type it draws with.
    pub fn color(&self) -> (c: (u8, u8, u8))
        ensures
            self is Critical ==> c == (231u8, 76u8, 60u8),
            self is High ==> c == (243u8, 156u8, 18u8),
            self is Medium ==> c == (241u8, 196u8, 15u8),
            self is Low ==> c == (46u8, 204u8, 113u8),
    {
        match self {
            TriageLevel::Critical => (231, 76, 60),
            TriageLevel::High => (243, 156, 18),
            TriageLevel::Medium => (241, 196, 15),
            TriageLevel::Low => (46, 204, 113),
        }
    }
}

} // verus!
