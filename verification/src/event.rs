//! Structured events: what the engine otherwise communicates as two C
//! strings and two booleans.
//!
//! An event is a named occurrence with an optional descriptive string and
//! two severity flags. It is constructed once by the event channel and never
//! mutated afterwards. `fatal` means the engine considers the session
//! unrecoverable; delivering such an event performs no lifecycle action of
//! its own — whether to disconnect or tear down afterwards is the host's
//! decision alone.

use vstd::prelude::*;

verus! {

/// A named occurrence reported by the engine, with severity flags.
#[derive(Debug)]
pub struct OVPNEvent {
    pub name: String,
    pub info: String,
    pub error: bool,
    pub fatal: bool,
}

/// The rendering of a boolean inside an event's display form.
pub open spec fn spec_bool_str(b: bool) -> Seq<char> {
    if b {
        "true"@
    } else {
        "false"@
    }
}

/// The display form of an event: the name always, the info when present,
/// and the severity flags when the event marks an error. An event that
/// carries both a name and an info shows both.
pub open spec fn event_display(ev: OVPNEvent) -> Seq<char> {
    if !ev.error {
        if ev.info@.len() == 0 {
            "E: "@ + ev.name@
        } else {
            "E: "@ + ev.name@ + ", I: "@ + ev.info@
        }
    } else {
        if ev.info@.len() == 0 {
            "E: "@ + ev.name@ + ", error: "@ + spec_bool_str(ev.error) + ", fatal: "@
                + spec_bool_str(ev.fatal)
        } else {
            "E: "@ + ev.name@ + ", I: "@ + ev.info@ + ", error: "@ + spec_bool_str(ev.error)
                + ", fatal: "@ + spec_bool_str(ev.fatal)
        }
    }
}

/// The string "true" or "false".
fn bool_str(b: bool) -> (r: &'static str)
    ensures
        r@ == spec_bool_str(b),
{
    if b {
        "true"
    } else {
        "false"
    }
}

impl OVPNEvent {
    /// Builds an event from the two strings and two flags exactly as they
    /// arrived from the engine.
    pub fn new(name: String, info: String, error: bool, fatal: bool) -> (ev: OVPNEvent)
        ensures
            ev.name == name,
            ev.info == info,
            ev.error == error,
            ev.fatal == fatal,
    {
        OVPNEvent { name, info, error, fatal }
    }

    /// Renders the event's display form, as [`event_display`] states it.
    pub fn render(&self) -> (r: String)
        ensures
            r@ == event_display(*self),
    {
        let mut s = String::from_str("E: ");
        s.append(self.name.as_str());
        if !self.error {
            if !self.info.as_str().is_empty() {
                s.append(", I: ");
                s.append(self.info.as_str());
            }
        } else {
            if !self.info.as_str().is_empty() {
                s.append(", I: ");
                s.append(self.info.as_str());
            }
            s.append(", error: ");
            s.append(bool_str(self.error));
            s.append(", fatal: ");
            s.append(bool_str(self.fatal));
        }
        proof {
            assert(s@ =~= event_display(*self));
        }
        s
    }
}

} // verus!
