//! The dashboard's in-memory state and the one way it changes after
//! startup: appending an operator's chat message.

use vstd::prelude::*;

use crate::demo;
use crate::records::{ChatMessage, Hospital, Patient, Specialist};
use crate::sys;
use vstd::std_specs::iter::IteratorSpec;

verus! {

broadcast use vstd::string::axiom_spec_iter, vstd::string::next_postcondition;

/// Whether `c` has the Unicode `White_Space` property, the set of
/// characters `str::trim` strips. The set takes a table to write out,
/// so it is only named here; the one fact the crate uses is how
/// trimming relates to it.
pub uninterp spec fn is_unicode_whitespace(c: char) -> bool;

/// Every character of `s` is whitespace (vacuously true of the empty
/// sequence).
pub open spec fn all_whitespace(s: Seq<char>) -> bool {
    forall|i: int| 0 <= i < s.len() ==> is_unicode_whitespace(#[trigger] s[i])
}

/// Relies on `char::is_whitespace`: whether `c` has the Unicode
/// `White_Space` property. The answer depends on the character alone.
#[verifier::external_body]
fn char_is_whitespace(c: char) -> (r: bool)
    ensures
        r == is_unicode_whitespace(c),
{
    c.is_whitespace()
}

/// Whether `s` is nothing but whitespace — in particular, whether
/// trimming it would leave nothing. True of the empty string.
fn is_blank(s: &str) -> (r: bool)
    ensures
        r == all_whitespace(s@),
{
    let mut it = s.chars();
    proof {
        assert(s@.subrange(0, s@.len() as int) =~= s@);
    }
    let ghost mut done: int = 0;
    loop
        invariant
            0 <= done <= s@.len(),
            it.remaining() == s@.subrange(done, s@.len() as int),
            forall|i: int| 0 <= i < done ==> is_unicode_whitespace(#[trigger] s@[i]),
        decreases s@.len() - done,
    {
        match it.next() {
            Some(c) => {
                proof {
                    assert(c == s@[done]);
                    assert(it.remaining() =~= s@.subrange(done + 1, s@.len() as int));
                }
                if !char_is_whitespace(c) {
                    return false;
                }
                proof {
                    done = done + 1;
                }
            },
            None => {
                return true;
            },
        }
    }
}

/// Everything the dashboard holds for the duration of one run. All of
/// it lives in memory and is discarded on exit; after startup only
/// the chat history and the chat input line ever change.
#[derive(Debug)]
pub struct EmergencyApp {
    /// Patients in the emergency queue.
    pub patients: Vec<Patient>,
    /// Hospitals shown in the sidebar.
    pub hospitals: Vec<Hospital>,
    /// Specialists on the on-call roster.
    pub specialists: Vec<Specialist>,
    /// Chat history, append-only.
    pub chat_messages: Vec<ChatMessage>,
    /// Index of the selected main-content tab.
    pub active_tab: usize,
    /// Current contents of the chat input line.
    pub chat_input: String,
    /// Index of the selected patient, if any.
    pub selected_patient: Option<usize>,
    /// Ambulances standing by.
    pub ambulance_available: u32,
    /// Ambulances on their way to a scene or a hospital.
    pub ambulance_en_route: u32,
    /// Ambulances at a scene.
    pub ambulance_at_scene: u32,
}

impl EmergencyApp {
    /// Builds the dashboard's startup state, seeded with the demo
    /// data as of the given time (seconds since the Unix epoch). The
    /// bound on `now_seconds` is what the machine's integer range
    /// forces on the backdated demo chat history.
    pub fn new(now_seconds: i64) -> (r: EmergencyApp)
        requires
            i64::MIN + 240 <= now_seconds,
        ensures
            demo::demo_patients(r.patients@, now_seconds),
            demo::demo_hospitals(r.hospitals@),
            demo::demo_specialists(r.specialists@),
            demo::demo_messages(r.chat_messages@, now_seconds),
            r.active_tab == 0,
            r.chat_input@ == Seq::<char>::empty(),
            r.selected_patient is None,
            r.ambulance_available == 12,
            r.ambulance_en_route == 8,
            r.ambulance_at_scene == 3,
    {
        EmergencyApp {
            patients: demo::create_demo_patients(now_seconds),
            hospitals: demo::create_demo_hospitals(),
            specialists: demo::create_demo_specialists(),
            chat_messages: demo::create_demo_messages(now_seconds),
            active_tab: 0,
            chat_input: String::new(),
            selected_patient: None,
            ambulance_available: 12,
            ambulance_en_route: 8,
            ambulance_at_scene: 3,
        }
    }

    /// Appends the chat input line to the chat history as a
    /// non-urgent message from the duty director, stamped with the
    /// given UUID value and send time, and clears the input line —
    /// unless the input is nothing but whitespace, in which case
    /// nothing changes. Returns whether a message was sent.
    pub fn send_chat_message(&mut self, id: u128, now_seconds: i64) -> (sent: bool)
        ensures
            sent == !all_whitespace(old(self).chat_input@),
            sent ==> ({
                let m = final(self).chat_messages@.last();
                &&& final(self).chat_messages@ == old(self).chat_messages@.push(m)
                &&& m.id == id
                &&& m.sender@ == "Dr. Ahmed Al-Mansoori"@
                &&& m.message@ == old(self).chat_input@
                &&& m.timestamp == now_seconds
                &&& !m.urgent
            }),
            sent ==> final(self).chat_input@ == Seq::<char>::empty(),
            final(self).patients == old(self).patients,
            final(self).hospitals == old(self).hospitals,
            final(self).specialists == old(self).specialists,
            final(self).active_tab == old(self).active_tab,
            final(self).selected_patient == old(self).selected_patient,
            final(self).ambulance_available == old(self).ambulance_available,
            final(self).ambulance_en_route == old(self).ambulance_en_route,
            final(self).ambulance_at_scene == old(self).ambulance_at_scene,
            !sent ==> *final(self) == *old(self),
    {
        let blank = is_blank(self.chat_input.as_str());
        if blank {
            false
        } else {
            let message = ChatMessage {
                id,
                sender: "Dr. Ahmed Al-Mansoori".to_owned(),
                message: self.chat_input.clone(),
                timestamp: now_seconds,
                urgent: false,
            };
            self.chat_messages.push(message);
            self.chat_input = String::new();
            true
        }
    }

    /// Sends the chat input line as [`Self::send_chat_message`] does,
    /// drawing a fresh random UUID and the current clock reading for
    /// the message's stamp; nothing is promised of those two fields.
    pub fn send_chat_message_now(&mut self) -> (sent: bool)
        ensures
            sent == !all_whitespace(old(self).chat_input@),
            sent ==> ({
                let m = final(self).chat_messages@.last();
                &&& final(self).chat_messages@ == old(self).chat_messages@.push(m)
                &&& m.sender@ == "Dr. Ahmed Al-Mansoori"@
                &&& m.message@ == old(self).chat_input@
                &&& !m.urgent
            }),
            sent ==> final(self).chat_input@ == Seq::<char>::empty(),
            final(self).patients == old(self).patients,
            final(self).hospitals == old(self).hospitals,
            final(self).specialists == old(self).specialists,
            final(self).active_tab == old(self).active_tab,
            final(self).selected_patient == old(self).selected_patient,
            final(self).ambulance_available == old(self).ambulance_available,
            final(self).ambulance_en_route == old(self).ambulance_en_route,
            final(self).ambulance_at_scene == old(self).ambulance_at_scene,
            !sent ==> *final(self) == *old(self),
    {
        let id = sys::new_uuid_value();
        let now_seconds = sys::local_now_seconds();
        self.send_chat_message(id, now_seconds)
    }
}

impl Default for EmergencyApp {
    /// Builds the startup state as of the current clock reading. The
    /// clock's value cannot be promised, so the demo records are only
    /// said to share one creation time.
    fn default() -> (r: Self)
        ensures
            exists|now: i64|
                #[trigger] demo::demo_patients(r.patients@, now) && demo::demo_messages(
                    r.chat_messages@,
                    now,
                ),
            demo::demo_hospitals(r.hospitals@),
            demo::demo_specialists(r.specialists@),
            r.active_tab == 0,
            r.chat_input@ == Seq::<char>::empty(),
            r.selected_patient is None,
            r.ambulance_available == 12,
            r.ambulance_en_route == 8,
            r.ambulance_at_scene == 3,
    {
        let clock = sys::local_now_seconds();
        // The demo chat history is backdated by up to four minutes; a
        // clock reading so close to the bottom of the integer range
        // that the backdating would wrap falls back to the epoch.
        let now_seconds: i64 = if clock < i64::MIN + 240 {
            0
        } else {
            clock
        };
        EmergencyApp::new(now_seconds)
    }
}

} // verus!
