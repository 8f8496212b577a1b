//! The entity records shown on the dashboard: patients, hospitals,
//! specialists and chat messages.
//!
//! Timestamps are carried as seconds since the Unix epoch; the
//! renderer formats them for display. A chat message's identifier is
//! carried as the 128-bit value of a UUID.

use vstd::prelude::*;

use crate::severity::TriageLevel;
use crate::vitals::VitalSigns;

verus! {

/// A patient in the emergency queue.
///
/// The triage level is an externally assigned clinical judgement: it
/// is not derived from the patient's vitals, and the two may disagree.
/// The per-category severities that the display colours come from are
/// computed by the classifier in [`crate::vitals`] instead.
#[derive(Debug, Clone)]
pub struct Patient {
    /// Display identifier of the patient record.
    pub id: String,
    /// Age in years.
    pub age: u8,
    /// Gender, free text.
    pub gender: String,
    /// Primary reason for the emergency encounter, free text.
    pub chief_complaint: String,
    /// Externally assigned overall triage level.
    pub triage_level: TriageLevel,
    /// Latest vital-sign readings.
    pub vitals: VitalSigns,
    /// Current location, free text.
    pub location: String,
    /// Estimated time of arrival in minutes, for a patient in transit.
    pub eta_minutes: Option<u32>,
    /// Identifier of the assigned ambulance, if any.
    pub ambulance_id: Option<String>,
    /// Name of the attending paramedic, if any.
    pub paramedic: Option<String>,
    /// Free-text notes, append-only.
    pub notes: Vec<String>,
    /// Creation time, in seconds since the Unix epoch.
    pub timestamp: i64,
}

/// A hospital in the sidebar, with its bed capacity.
#[derive(Debug, Clone)]
pub struct Hospital {
    /// Hospital name.
    pub name: String,
    /// Number of beds currently free.
    pub available_beds: u32,
    /// Total number of beds.
    pub total_beds: u32,
    /// Travel distance in minutes.
    pub distance_minutes: u32,
    /// Names of the specialties the hospital offers.
    pub specialties: Vec<String>,
}

impl Hospital {
    /// Colour of the bed-status indicator, as an `(r, g, b)` triple:
    /// green with more than two beds free, orange with one or two,
    /// red with none.
    pub fn bed_status_color(&self) -> (c: (u8, u8, u8))
        ensures
            self.available_beds > 2 ==> c == (46u8, 204u8, 113u8),
            0 < self.available_beds <= 2 ==> c == (243u8, 156u8, 18u8),
            self.available_beds == 0 ==> c == (231u8, 76u8, 60u8),
    {
        if self.available_beds > 2 {
            (46, 204, 113)
        } else if self.available_beds > 0 {
            (243, 156, 18)
        } else {
            (231, 76, 60)
        }
    }
}

/// A specialist on the on-call roster.
#[derive(Debug, Clone)]
pub struct Specialist {
    /// Specialist's name.
    pub name: String,
    /// Specialty, free text.
    pub specialty: String,
    /// Whether the specialist is available right now.
    pub available: bool,
    /// Whether the specialist is on call.
    pub on_call: bool,
}

impl Specialist {
    /// Colour of the availability indicator, as an `(r, g, b)` triple:
    /// green when available, orange when merely on call, red otherwise.
    pub fn status_color(&self) -> (c: (u8, u8, u8))
        ensures
            self.available ==> c == (46u8, 204u8, 113u8),
            !self.available && self.on_call ==> c == (243u8, 156u8, 18u8),
            !self.available && !self.on_call ==> c == (231u8, 76u8, 60u8),
    {
        if self.available {
            (46, 204, 113)
        } else if self.on_call {
            (243, 156, 18)
        } else {
            (231, 76, 60)
        }
    }
}

/// One message in the emergency-communication panel. Messages are
/// append-only: once created they are never edited or deleted.
#[derive(Debug, Clone)]
pub struct ChatMessage {
    /// The 128-bit value of the message's UUID.
    pub id: u128,
    /// Sender's display name.
    pub sender: String,
    /// Message body.
    pub message: String,
    /// Send time, in seconds since the Unix epoch.
    pub timestamp: i64,
    /// Whether the message is flagged urgent.
    pub urgent: bool,
}

} // verus!
