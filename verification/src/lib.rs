//! Core logic of an emergency-response coordination dashboard.
//!
//! The heart of the crate is the triage classifier: pure, total functions
//! that map raw vital-sign readings (blood pressure, heart rate, oxygen
//! saturation) to a severity level used by a renderer to colour-code
//! patient status. Around it stand the data model (patients, hospitals,
//! specialists, chat messages), the demo seed data, and the dashboard
//! state with its chat-append rule. Rendering itself lives outside this
//! crate; everything here is verified.

pub mod demo;
pub mod records;
pub mod severity;
pub mod state;
mod sys;
pub mod vitals;
