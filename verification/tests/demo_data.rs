use emergency_triage::demo::{
    create_demo_hospitals, create_demo_messages, create_demo_patients, create_demo_specialists,
};
use emergency_triage::severity::TriageLevel;

#[test]
fn hospital_roster() {
    let hospitals = create_demo_hospitals();
    assert_eq!(hospitals.len(), 4);

    assert_eq!(hospitals[0].name, "Dubai Hospital");
    assert_eq!(hospitals[0].available_beds, 3);
    assert_eq!(hospitals[0].total_beds, 25);
    assert_eq!(hospitals[0].distance_minutes, 12);
    assert_eq!(hospitals[0].specialties, ["Emergency Medicine", "Cardiology"]);

    assert_eq!(hospitals[1].name, "Rashid Hospital");
    assert_eq!(hospitals[1].available_beds, 0);
    assert_eq!(hospitals[1].total_beds, 30);
    assert_eq!(hospitals[1].distance_minutes, 8);
    assert_eq!(hospitals[1].specialties, ["Trauma Surgery", "Neurology"]);

    assert_eq!(hospitals[2].name, "American Hospital");
    assert_eq!(hospitals[2].available_beds, 2);
    assert_eq!(hospitals[2].total_beds, 20);
    assert_eq!(hospitals[2].distance_minutes, 15);
    assert_eq!(hospitals[2].specialties, ["General Medicine", "Pediatrics"]);

    assert_eq!(hospitals[3].name, "NMC Healthcare");
    assert_eq!(hospitals[3].available_beds, 1);
    assert_eq!(hospitals[3].total_beds, 18);
    assert_eq!(hospitals[3].distance_minutes, 20);
    assert_eq!(hospitals[3].specialties, ["Orthopedics", "Cardiology"]);
}

#[test]
fn bed_status_colors() {
    let hospitals = create_demo_hospitals();
    // More than two beds free: green.
    assert_eq!(hospitals[0].bed_status_color(), (46, 204, 113));
    // One or two beds free: orange.
    assert_eq!(hospitals[2].bed_status_color(), (243, 156, 18));
    assert_eq!(hospitals[3].bed_status_color(), (243, 156, 18));
    // Full: red.
    assert_eq!(hospitals[1].bed_status_color(), (231, 76, 60));
}

#[test]
fn specialist_roster() {
    let specialists = create_demo_specialists();
    assert_eq!(specialists.len(), 5);

    assert_eq!(specialists[0].name, "Dr. Sarah Johnson");
    assert_eq!(specialists[0].specialty, "Cardiology");
    assert!(specialists[0].available);
    assert!(!specialists[0].on_call);

    assert_eq!(specialists[1].name, "Dr. Mohammad Khalil");
    assert_eq!(specialists[1].specialty, "Neurology");
    assert!(!specialists[1].available);
    assert!(specialists[1].on_call);

    assert_eq!(specialists[2].name, "Dr. Lisa Chen");
    assert_eq!(specialists[2].specialty, "Trauma Surgery");
    assert!(specialists[2].available);
    assert!(!specialists[2].on_call);

    assert_eq!(specialists[3].name, "Dr. Ahmed Rashid");
    assert_eq!(specialists[3].specialty, "Orthopedics");
    assert!(!specialists[3].available);
    assert!(!specialists[3].on_call);

    assert_eq!(specialists[4].name, "Dr. Fatima Al-Zahra");
    assert_eq!(specialists[4].specialty, "Pediatrics");
    assert!(specialists[4].available);
    assert!(!specialists[4].on_call);
}

#[test]
fn specialist_status_colors() {
    let specialists = create_demo_specialists();
    // Available: green.
    assert_eq!(specialists[0].status_color(), (46, 204, 113));
    // Merely on call: orange.
    assert_eq!(specialists[1].status_color(), (243, 156, 18));
    // Neither: red.
    assert_eq!(specialists[3].status_color(), (231, 76, 60));
}

#[test]
fn patient_queue() {
    let now = 1_700_000_000;
    let patients = create_demo_patients(now);
    assert_eq!(patients.len(), 4);

    let p = &patients[0];
    assert_eq!(p.id, "PATIENT-001");
    assert_eq!(p.age, 45);
    assert_eq!(p.gender, "M");
    assert_eq!(p.chief_complaint, "Chest Pain");
    assert_eq!(p.triage_level, TriageLevel::Critical);
    assert_eq!(p.vitals.blood_pressure, (180, 120));
    assert_eq!(p.vitals.heart_rate, 45);
    assert_eq!(p.vitals.oxygen_saturation, 89);
    assert_eq!(p.vitals.temperature_tenths, 372);
    assert_eq!(p.location, "Sheikh Zayed Road, near DIFC Metro Station");
    assert_eq!(p.eta_minutes, Some(7));
    assert_eq!(p.ambulance_id.as_deref(), Some("AMB-DXB-047"));
    assert_eq!(p.paramedic.as_deref(), Some("Hassan Al-Rashid"));
    assert!(p.notes.is_empty());
    assert_eq!(p.timestamp, now);

    let p = &patients[1];
    assert_eq!(p.id, "PATIENT-002");
    assert_eq!(p.age, 28);
    assert_eq!(p.gender, "F");
    assert_eq!(p.chief_complaint, "Motor Vehicle Accident");
    assert_eq!(p.triage_level, TriageLevel::High);
    assert_eq!(p.vitals.blood_pressure, (140, 85));
    assert_eq!(p.vitals.heart_rate, 95);
    assert_eq!(p.vitals.oxygen_saturation, 96);
    assert_eq!(p.eta_minutes, Some(12));
    assert_eq!(p.ambulance_id.as_deref(), Some("AMB-DXB-112"));
    assert_eq!(p.paramedic.as_deref(), Some("Fatima Al-Zahra"));

    let p = &patients[2];
    assert_eq!(p.id, "PATIENT-003");
    assert_eq!(p.age, 8);
    assert_eq!(p.chief_complaint, "Respiratory Distress");
    assert_eq!(p.triage_level, TriageLevel::Medium);
    assert_eq!(p.vitals.blood_pressure, (110, 70));
    assert_eq!(p.vitals.heart_rate, 125);
    assert_eq!(p.vitals.oxygen_saturation, 91);
    assert_eq!(p.eta_minutes, Some(18));

    let p = &patients[3];
    assert_eq!(p.id, "PATIENT-004");
    assert_eq!(p.age, 35);
    assert_eq!(p.chief_complaint, "Minor Laceration");
    assert_eq!(p.triage_level, TriageLevel::Low);
    assert_eq!(p.vitals.blood_pressure, (120, 80));
    assert_eq!(p.location, "Dubai Hospital - Triage Room 3");
    assert_eq!(p.eta_minutes, None);
    assert_eq!(p.ambulance_id, None);
    assert_eq!(p.paramedic, None);
}

#[test]
fn chat_history() {
    let now = 1_700_000_000;
    let messages = create_demo_messages(now);
    assert_eq!(messages.len(), 4);

    assert_eq!(messages[0].sender, "Ambulance AMB-047");
    assert!(messages[0].message.starts_with("Patient showing signs of cardiac arrest."));
    assert_eq!(messages[0].timestamp, now - 60);
    assert!(messages[0].urgent);

    assert_eq!(messages[1].sender, "Dr. Sarah Johnson");
    assert_eq!(messages[1].message, "En route to hospital. ETA 3 minutes. Preparing cath lab.");
    assert_eq!(messages[1].timestamp, now - 120);
    assert!(!messages[1].urgent);

    assert_eq!(messages[2].sender, "ER Nurse Station");
    assert_eq!(messages[2].timestamp, now - 180);
    assert!(!messages[2].urgent);

    assert_eq!(messages[3].sender, "Ambulance AMB-112");
    assert_eq!(messages[3].timestamp, now - 240);
    assert!(messages[3].urgent);
}
