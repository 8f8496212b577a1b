//! The demo data the dashboard is seeded with at startup.
//!
//! The constructors take the current time as an argument, in seconds
//! since the Unix epoch, so that everything they build is pinned by
//! their contracts; reading the clock itself is left to the caller
//! (or to [`crate::state::EmergencyApp::default`]). Chat messages draw
//! a fresh random UUID each, which is the one field the contracts say
//! nothing about.

use vstd::prelude::*;

use crate::records::{ChatMessage, Hospital, Patient, Specialist};
use crate::severity::TriageLevel;
use crate::sys;
use crate::vitals::VitalSigns;

verus! {

/// The fields of `h` are exactly the given name, bed counts, distance
/// and pair of specialty names.
pub open spec fn demo_hospital(
    h: Hospital,
    name: Seq<char>,
    available: u32,
    total: u32,
    distance: u32,
    specialty_a: Seq<char>,
    specialty_b: Seq<char>,
) -> bool {
    &&& h.name@ == name
    &&& h.available_beds == available
    &&& h.total_beds == total
    &&& h.distance_minutes == distance
    &&& h.specialties@.len() == 2
    &&& h.specialties@[0]@ == specialty_a
    &&& h.specialties@[1]@ == specialty_b
}

/// `s` is exactly the demo hospital roster.
pub open spec fn demo_hospitals(s: Seq<Hospital>) -> bool {
    &&& s.len() == 4
    &&& demo_hospital(s[0], "Dubai Hospital"@, 3, 25, 12, "Emergency Medicine"@, "Cardiology"@)
    &&& demo_hospital(s[1], "Rashid Hospital"@, 0, 30, 8, "Trauma Surgery"@, "Neurology"@)
    &&& demo_hospital(s[2], "American Hospital"@, 2, 20, 15, "General Medicine"@, "Pediatrics"@)
    &&& demo_hospital(s[3], "NMC Healthcare"@, 1, 18, 20, "Orthopedics"@, "Cardiology"@)
}

/// Builds the demo hospital roster.
pub fn create_demo_hospitals() -> (r: Vec<Hospital>)
    ensures
        demo_hospitals(r@),
{
    let mut r: Vec<Hospital> = Vec::new();

    let mut specialties: Vec<String> = Vec::new();
    specialties.push("Emergency Medicine".to_owned());
    specialties.push("Cardiology".to_owned());
    r.push(Hospital {
        name: "Dubai Hospital".to_owned(),
        available_beds: 3,
        total_beds: 25,
        distance_minutes: 12,
        specialties,
    });

    let mut specialties: Vec<String> = Vec::new();
    specialties.push("Trauma Surgery".to_owned());
    specialties.push("Neurology".to_owned());
    r.push(Hospital {
        name: "Rashid Hospital".to_owned(),
        available_beds: 0,
        total_beds: 30,
        distance_minutes: 8,
        specialties,
    });

    let mut specialties: Vec<String> = Vec::new();
    specialties.push("General Medicine".to_owned());
    specialties.push("Pediatrics".to_owned());
    r.push(Hospital {
        name: "American Hospital".to_owned(),
        available_beds: 2,
        total_beds: 20,
        distance_minutes: 15,
        specialties,
    });

    let mut specialties: Vec<String> = Vec::new();
    specialties.push("Orthopedics".to_owned());
    specialties.push("Cardiology".to_owned());
    r.push(Hospital {
        name: "NMC Healthcare".to_owned(),
        available_beds: 1,
        total_beds: 18,
        distance_minutes: 20,
        specialties,
    });

    r
}

/// The fields of `s` are exactly the given name, specialty and
/// availability flags.
pub open spec fn demo_specialist(
    s: Specialist,
    name: Seq<char>,
    specialty: Seq<char>,
    available: bool,
    on_call: bool,
) -> bool {
    &&& s.name@ == name
    &&& s.specialty@ == specialty
    &&& s.available == available
    &&& s.on_call == on_call
}

/// `s` is exactly the demo on-call roster.
pub open spec fn demo_specialists(s: Seq<Specialist>) -> bool {
    &&& s.len() == 5
    &&& demo_specialist(s[0], "Dr. Sarah Johnson"@, "Cardiology"@, true, false)
    &&& demo_specialist(s[1], "Dr. Mohammad Khalil"@, "Neurology"@, false, true)
    &&& demo_specialist(s[2], "Dr. Lisa Chen"@, "Trauma Surgery"@, true, false)
    &&& demo_specialist(s[3], "Dr. Ahmed Rashid"@, "Orthopedics"@, false, false)
    &&& demo_specialist(s[4], "Dr. Fatima Al-Zahra"@, "Pediatrics"@, true, false)
}

/// Builds the demo on-call roster.
pub fn create_demo_specialists() -> (r: Vec<Specialist>)
    ensures
        demo_specialists(r@),
{
    let mut r: Vec<Specialist> = Vec::new();
    r.push(Specialist {
        name: "Dr. Sarah Johnson".to_owned(),
        specialty: "Cardiology".to_owned(),
        available: true,
        on_call: false,
    });
    r.push(Specialist {
        name: "Dr. Mohammad Khalil".to_owned(),
        specialty: "Neurology".to_owned(),
        available: false,
        on_call: true,
    });
    r.push(Specialist {
        name: "Dr. Lisa Chen".to_owned(),
        specialty: "Trauma Surgery".to_owned(),
        available: true,
        on_call: false,
    });
    r.push(Specialist {
        name: "Dr. Ahmed Rashid".to_owned(),
        specialty: "Orthopedics".to_owned(),
        available: false,
        on_call: false,
    });
    r.push(Specialist {
        name: "Dr. Fatima Al-Zahra".to_owned(),
        specialty: "Pediatrics".to_owned(),
        available: true,
        on_call: false,
    });
    r
}

/// `p` is exactly the demo patient with chest pain, created at `now`.
pub open spec fn demo_patient_chest_pain(p: Patient, now: i64) -> bool {
    &&& p.id@ == "PATIENT-001"@
    &&& p.age == 45
    &&& p.gender@ == "M"@
    &&& p.chief_complaint@ == "Chest Pain"@
    &&& p.triage_level == TriageLevel::Critical
    &&& p.vitals == (VitalSigns {
        blood_pressure: (180, 120),
        heart_rate: 45,
        oxygen_saturation: 89,
        temperature_tenths: 372,
    })
    &&& p.location@ == "Sheikh Zayed Road, near DIFC Metro Station"@
    &&& p.eta_minutes == Some(7u32)
    &&& p.ambulance_id matches Some(a) && a@ == "AMB-DXB-047"@
    &&& p.paramedic matches Some(m) && m@ == "Hassan Al-Rashid"@
    &&& p.notes@.len() == 0
    &&& p.timestamp == now
}

/// `p` is exactly the demo road-accident patient, created at `now`.
pub open spec fn demo_patient_accident(p: Patient, now: i64) -> bool {
    &&& p.id@ == "PATIENT-002"@
    &&& p.age == 28
    &&& p.gender@ == "F"@
    &&& p.chief_complaint@ == "Motor Vehicle Accident"@
    &&& p.triage_level == TriageLevel::High
    &&& p.vitals == (VitalSigns {
        blood_pressure: (140, 85),
        heart_rate: 95,
        oxygen_saturation: 96,
        temperature_tenths: 368,
    })
    &&& p.location@ == "Al Khaleej Road, near Dubai Mall"@
    &&& p.eta_minutes == Some(12u32)
    &&& p.ambulance_id matches Some(a) && a@ == "AMB-DXB-112"@
    &&& p.paramedic matches Some(m) && m@ == "Fatima Al-Zahra"@
    &&& p.notes@.len() == 0
    &&& p.timestamp == now
}

/// `p` is exactly the demo patient in respiratory distress, created
/// at `now`.
pub open spec fn demo_patient_respiratory(p: Patient, now: i64) -> bool {
    &&& p.id@ == "PATIENT-003"@
    &&& p.age == 8
    &&& p.gender@ == "M"@
    &&& p.chief_complaint@ == "Respiratory Distress"@
    &&& p.triage_level == TriageLevel::Medium
    &&& p.vitals == (VitalSigns {
        blood_pressure: (110, 70),
        heart_rate: 125,
        oxygen_saturation: 91,
        temperature_tenths: 385,
    })
    &&& p.location@ == "Jumeirah Beach Road, near Jumeirah Beach"@
    &&& p.eta_minutes == Some(18u32)
    &&& p.ambulance_id matches Some(a) && a@ == "AMB-DXB-093"@
    &&& p.paramedic matches Some(m) && m@ == "John Mitchell"@
    &&& p.notes@.len() == 0
    &&& p.timestamp == now
}

/// `p` is exactly the demo walk-in patient with a minor laceration,
/// created at `now`.
pub open spec fn demo_patient_laceration(p: Patient, now: i64) -> bool {
    &&& p.id@ == "PATIENT-004"@
    &&& p.age == 35
    &&& p.gender@ == "F"@
    &&& p.chief_complaint@ == "Minor Laceration"@
    &&& p.triage_level == TriageLevel::Low
    &&& p.vitals == (VitalSigns {
        blood_pressure: (120, 80),
        heart_rate: 72,
        oxygen_saturation: 99,
        temperature_tenths: 365,
    })
    &&& p.location@ == "Dubai Hospital - Triage Room 3"@
    &&& p.eta_minutes is None
    &&& p.ambulance_id is None
    &&& p.paramedic is None
    &&& p.notes@.len() == 0
    &&& p.timestamp == now
}

/// `s` is exactly the demo patient queue, created at `now`.
pub open spec fn demo_patients(s: Seq<Patient>, now: i64) -> bool {
    &&& s.len() == 4
    &&& demo_patient_chest_pain(s[0], now)
    &&& demo_patient_accident(s[1], now)
    &&& demo_patient_respiratory(s[2], now)
    &&& demo_patient_laceration(s[3], now)
}

/// Builds the demo patient queue, each record stamped with the given
/// creation time.
pub fn create_demo_patients(now_seconds: i64) -> (r: Vec<Patient>)
    ensures
        demo_patients(r@, now_seconds),
{
    let mut r: Vec<Patient> = Vec::new();
    r.push(Patient {
        id: "PATIENT-001".to_owned(),
        age: 45,
        gender: "M".to_owned(),
        chief_complaint: "Chest Pain".to_owned(),
        triage_level: TriageLevel::Critical,
        vitals: VitalSigns {
            blood_pressure: (180, 120),
            heart_rate: 45,
            oxygen_saturation: 89,
            temperature_tenths: 372,
        },
        location: "Sheikh Zayed Road, near DIFC Metro Station".to_owned(),
        eta_minutes: Some(7),
        ambulance_id: Some("AMB-DXB-047".to_owned()),
        paramedic: Some("Hassan Al-Rashid".to_owned()),
        notes: Vec::new(),
        timestamp: now_seconds,
    });
    r.push(Patient {
        id: "PATIENT-002".to_owned(),
        age: 28,
        gender: "F".to_owned(),
        chief_complaint: "Motor Vehicle Accident".to_owned(),
        triage_level: TriageLevel::High,
        vitals: VitalSigns {
            blood_pressure: (140, 85),
            heart_rate: 95,
            oxygen_saturation: 96,
            temperature_tenths: 368,
        },
        location: "Al Khaleej Road, near Dubai Mall".to_owned(),
        eta_minutes: Some(12),
        ambulance_id: Some("AMB-DXB-112".to_owned()),
        paramedic: Some("Fatima Al-Zahra".to_owned()),
        notes: Vec::new(),
        timestamp: now_seconds,
    });
    r.push(Patient {
        id: "PATIENT-003".to_owned(),
        age: 8,
        gender: "M".to_owned(),
        chief_complaint: "Respiratory Distress".to_owned(),
        triage_level: TriageLevel::Medium,
        vitals: VitalSigns {
            blood_pressure: (110, 70),
            heart_rate: 125,
            oxygen_saturation: 91,
            temperature_tenths: 385,
        },
        location: "Jumeirah Beach Road, near Jumeirah Beach".to_owned(),
        eta_minutes: Some(18),
        ambulance_id: Some("AMB-DXB-093".to_owned()),
        paramedic: Some("John Mitchell".to_owned()),
        notes: Vec::new(),
        timestamp: now_seconds,
    });
    r.push(Patient {
        id: "PATIENT-004".to_owned(),
        age: 35,
        gender: "F".to_owned(),
        chief_complaint: "Minor Laceration".to_owned(),
        triage_level: TriageLevel::Low,
        vitals: VitalSigns {
            blood_pressure: (120, 80),
            heart_rate: 72,
            oxygen_saturation: 99,
            temperature_tenths: 365,
        },
        location: "Dubai Hospital - Triage Room 3".to_owned(),
        eta_minutes: None,
        ambulance_id: None,
        paramedic: None,
        notes: Vec::new(),
        timestamp: now_seconds,
    });
    r
}

/// The fields of `m`, its random UUID aside, are exactly the given
/// sender, body, send time and urgency flag.
pub open spec fn demo_message(
    m: ChatMessage,
    sender: Seq<char>,
    body: Seq<char>,
    timestamp: int,
    urgent: bool,
) -> bool {
    &&& m.sender@ == sender
    &&& m.message@ == body
    &&& m.timestamp == timestamp
    &&& m.urgent == urgent
}

/// `s` is exactly the demo chat history as of time `now`, the
/// messages' random UUIDs aside: four messages, sent one to four
/// minutes before `now`.
pub open spec fn demo_messages(s: Seq<ChatMessage>, now: i64) -> bool {
    &&& s.len() == 4
    &&& demo_message(
        s[0],
        "Ambulance AMB-047"@,
        "Patient showing signs of cardiac arrest. Administered epinephrine. Need cardiologist on standby."@,
        now - 60,
        true,
    )
    &&& demo_message(
        s[1],
        "Dr. Sarah Johnson"@,
        "En route to hospital. ETA 3 minutes. Preparing cath lab."@,
        now - 120,
        false,
    )
    &&& demo_message(
        s[2],
        "ER Nurse Station"@,
        "Trauma Bay 1 is ready. Blood bank notified for O-negative units."@,
        now - 180,
        false,
    )
    &&& demo_message(
        s[3],
        "Ambulance AMB-112"@,
        "MVA patient stable but requesting Arabic-speaking physician for family communication."@,
        now - 240,
        true,
    )
}

/// Builds the demo chat history as of the given time. Each message
/// gets a fresh random UUID; the bound on `now_seconds` is what the
/// machine's integer range forces on the four backdated send times.
pub fn create_demo_messages(now_seconds: i64) -> (r: Vec<ChatMessage>)
    requires
        i64::MIN + 240 <= now_seconds,
    ensures
        demo_messages(r@, now_seconds),
{
    let mut r: Vec<ChatMessage> = Vec::new();
    r.push(ChatMessage {
        id: sys::new_uuid_value(),
        sender: "Ambulance AMB-047".to_owned(),
        message: "Patient showing signs of cardiac arrest. Administered epinephrine. Need cardiologist on standby.".to_owned(),
        timestamp: now_seconds - 60,
        urgent: true,
    });
    r.push(ChatMessage {
        id: sys::new_uuid_value(),
        sender: "Dr. Sarah Johnson".to_owned(),
        message: "En route to hospital. ETA 3 minutes. Preparing cath lab.".to_owned(),
        timestamp: now_seconds - 120,
        urgent: false,
    });
    r.push(ChatMessage {
        id: sys::new_uuid_value(),
        sender: "ER Nurse Station".to_owned(),
        message: "Trauma Bay 1 is ready. Blood bank notified for O-negative units.".to_owned(),
        timestamp: now_seconds - 180,
        urgent: false,
    });
    r.push(ChatMessage {
        id: sys::new_uuid_value(),
        sender: "Ambulance AMB-112".to_owned(),
        message: "MVA patient stable but requesting Arabic-speaking physician for family communication.".to_owned(),
        timestamp: now_seconds - 240,
        urgent: true,
    });
    r
}

} // verus!
