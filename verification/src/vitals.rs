//! Vital-sign readings and the triage classifier.
//!
//! Each classifier is a pure, total function over the integers: it
//! evaluates its thresholds top to bottom and the first match wins, so
//! the bands are mutually exclusive by construction. The blood-pressure
//! rule deliberately has only two non-critical tiers (anything neither
//! high nor critical is `Low`), and none of the three rules ever
//! produces `Medium`; both oddities come with the threshold policy and
//! are preserved exactly.

use vstd::prelude::*;

use crate::severity::TriageLevel;

verus! {

/// One set of vital-sign readings for a patient.
///
/// Temperature is carried in tenths of a degree Celsius (so `372`
/// stands for 37.2 degrees); no classification rule reads it.
/// The readings are not validated: systolic is expected above
/// diastolic and saturation within 0 to 100, but the classifier is
/// total over all integers and callers validate upstream if they care.
#[derive(Debug, Clone, Copy, PartialEq, Eq)]
pub struct VitalSigns {
    /// Blood pressure as the ordered pair (systolic, diastolic).
    pub blood_pressure: (i32, i32),
    /// Heart rate in beats per minute.
    pub heart_rate: i32,
    /// Oxygen saturation as a percentage.
    pub oxygen_saturation: i32,
    /// Body temperature in tenths of a degree Celsius.
    pub temperature_tenths: i32,
}

/// Severity of a blood-pressure reading with systolic `s` and
/// diastolic `d`: `Critical` when `s > 180` or `d > 120`, else `High`
/// when `s > 140` or `d > 90`, else `Low`.
pub open spec fn bp_level(s: int, d: int) -> TriageLevel {
    if s > 180 || d > 120 {
        TriageLevel::Critical
    } else if s > 140 || d > 90 {
        TriageLevel::High
    } else {
        TriageLevel::Low
    }
}

/// Severity of a heart rate `r` in beats per minute: `Critical` when
/// `r < 50` or `r > 120`, else `High` when `r < 60` or `r > 100`,
/// else `Low`.
pub open spec fn hr_level(r: int) -> TriageLevel {
    if r < 50 || r > 120 {
        TriageLevel::Critical
    } else if r < 60 || r > 100 {
        TriageLevel::High
    } else {
        TriageLevel::Low
    }
}

/// Severity of an oxygen saturation `o` in percent: `Critical` when
/// `o < 90`, else `High` when `o < 95`, else `Low`.
pub open spec fn o2_level(o: int) -> TriageLevel {
    if o < 90 {
        TriageLevel::Critical
    } else if o < 95 {
        TriageLevel::High
    } else {
        TriageLevel::Low
    }
}

/// Classifies a blood-pressure reading.
pub fn classify_blood_pressure(systolic: i32, diastolic: i32) -> (level: TriageLevel)
    ensures
        level == bp_level(systolic as int, diastolic as int),
{
    if systolic > 180 || diastolic > 120 {
        TriageLevel::Critical
    } else if systolic > 140 || diastolic > 90 {
        TriageLevel::High
    } else {
        TriageLevel::Low
    }
}

/// Classifies a heart rate.
pub fn classify_heart_rate(rate: i32) -> (level: TriageLevel)
    ensures
        level == hr_level(rate as int),
{
    if rate < 50 || rate > 120 {
        TriageLevel::Critical
    } else if rate < 60 || rate > 100 {
        TriageLevel::High
    } else {
        TriageLevel::Low
    }
}

/// Classifies an oxygen saturation.
pub fn classify_oxygen_saturation(saturation: i32) -> (level: TriageLevel)
    ensures
        level == o2_level(saturation as int),
{
    if saturation < 90 {
        TriageLevel::Critical
    } else if saturation < 95 {
        TriageLevel::High
    } else {
        TriageLevel::Low
    }
}

impl VitalSigns {
    /// Severity of this record's blood pressure.
    pub fn bp_status(&self) -> (level: TriageLevel)
        ensures
            level == bp_level(self.blood_pressure.0 as int, self.blood_pressure.1 as int),
    {
        classify_blood_pressure(self.blood_pressure.0, self.blood_pressure.1)
    }

    /// Severity of this record's heart rate.
    pub fn hr_status(&self) -> (level: TriageLevel)
        ensures
            level == hr_level(self.heart_rate as int),
    {
        classify_heart_rate(self.heart_rate)
    }

    /// Severity of this record's oxygen saturation.
    pub fn o2_status(&self) -> (level: TriageLevel)
        ensures
            level == o2_level(self.oxygen_saturation as int),
    {
        classify_oxygen_saturation(self.oxygen_saturation)
    }
}

/// Every blood-pressure reading that triggers neither the high band
/// (`s > 140` or `d > 90`) nor the critical band classifies as `Low`:
/// the rule has no intermediate outcome below `High`.
pub proof fn lemma_bp_low_band(s: int, d: int)
    requires
        s <= 180,
        d <= 120,
        !(s > 140),
        !(d > 90),
    ensures
        bp_level(s, d) == TriageLevel::Low,
{
}

/// Each classifier is a function of its reading alone: identical
/// inputs always classify identically, so repeated calls agree.
pub proof fn lemma_classifiers_deterministic(
    s1: int,
    d1: int,
    r1: int,
    o1: int,
    s2: int,
    d2: int,
    r2: int,
    o2: int,
)
    requires
        s1 == s2,
        d1 == d2,
        r1 == r2,
        o1 == o2,
    ensures
        bp_level(s1, d1) == bp_level(s2, d2),
        hr_level(r1) == hr_level(r2),
        o2_level(o1) == o2_level(o2),
{
}

/// No classifier ever produces `Medium`, for any integer reading:
/// the level is defined but dead under the current threshold policy.
pub proof fn lemma_medium_never_produced(s: int, d: int, r: int, o: int)
    ensures
        bp_level(s, d) != TriageLevel::Medium,
        hr_level(r) != TriageLevel::Medium,
        o2_level(o) != TriageLevel::Medium,
{
}

} // verus!
