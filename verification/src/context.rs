//! The user-context: the per-instance host state that the engine calls back
//! into, and the decisions those callbacks take.
//!
//! The boundary carries a single opaque context pointer; every per-instance
//! behaviour flows through it. This module models that context as plain
//! state — which of the four host handlers are registered, and whether the
//! context is still alive — and holds the computation of each callback:
//! the read-allocate byte-for-byte round trip, the write length report, and
//! the dispatch decision of the log and event channels. Every operation
//! requires the context to be alive, and `destroy` is the only operation
//! that ends that state: together they state that no callback runs after
//! teardown and that teardown cannot happen twice.

use vstd::prelude::*;

use crate::event::OVPNEvent;
use crate::event::event_display;

verus! {

/// What the log channel decides to do with a message: hand it to the
/// registered host handler, or print the default diagnostic line.
pub enum LogAction {
    Deliver(String),
    Print(String),
}

/// What the event channel decides to do with an event: hand it to the
/// registered host handler, or print the default diagnostic line. Neither
/// outcome is a lifecycle action: delivering an event, fatal or not, never
/// disconnects or tears down by itself.
pub enum EventAction {
    Deliver(OVPNEvent),
    Print(String),
}

/// The per-instance host state reachable from the boundary's context
/// pointer: which handlers the host registered, and whether the context is
/// still alive (not yet reclaimed by the destroy callback).
pub struct OVPNClientInner {
    pub on_vpn_read: bool,
    pub on_vpn_write: bool,
    pub on_vpn_log: bool,
    pub on_vpn_event: bool,
    pub alive: bool,
}

impl OVPNClientInner {
    /// A fresh context, alive, with the given handlers registered.
    pub fn new(on_vpn_read: bool, on_vpn_write: bool, on_vpn_log: bool, on_vpn_event: bool) -> (c:
        OVPNClientInner)
        ensures
            c.on_vpn_read == on_vpn_read,
            c.on_vpn_write == on_vpn_write,
            c.on_vpn_log == on_vpn_log,
            c.on_vpn_event == on_vpn_event,
            c.alive,
    {
        OVPNClientInner { on_vpn_read, on_vpn_write, on_vpn_log, on_vpn_event, alive: true }
    }

    /// The read-allocate callback's computation: the engine asks for a
    /// packet whose size only the host knows. Given the bytes the read
    /// handler offered, produces the exact buffer to hand across — the same
    /// length, the same bytes — or, when the host had no data, no buffer at
    /// all: absence is a distinguished outcome, never a buffer of
    /// unspecified length.
    pub fn read_allocate(&mut self, src: Option<Vec<u8>>) -> (r: Option<(Vec<u8>, usize)>)
        requires
            old(self).alive,
            old(self).on_vpn_read,
        ensures
            *final(self) == *old(self),
            src matches Some(v) ==> r matches Some(p) && p.0@ == v@ && p.1 == v@.len(),
            src is None ==> r is None,
    {
        match src {
            Some(v) => {
                let n = v.len();
                let mut out: Vec<u8> = Vec::new();
                let mut i: usize = 0;
                while i < n
                    invariant
                        i <= n,
                        n == v@.len(),
                        out@ == v@.subrange(0, i as int),
                    decreases n - i,
                {
                    out.push(v[i]);
                    i += 1;
                    proof {
                        assert(out@ =~= v@.subrange(0, i as int));
                    }
                }
                proof {
                    assert(out@ =~= v@);
                }
                Some((out, n))
            },
            None => None,
        }
    }

    /// The write callback's computation: the engine hands a buffer down and
    /// the reported count is always the full buffer length — the write sink
    /// consumes all of it or the callback does not return success.
    pub fn write(&mut self, buf: &[u8]) -> (r: usize)
        requires
            old(self).alive,
            old(self).on_vpn_write,
        ensures
            *final(self) == *old(self),
            r == buf@.len(),
    {
        buf.len()
    }

    /// The log channel's dispatch decision: deliver the message to the
    /// registered handler, or, when none is registered, print the default
    /// diagnostic line.
    pub fn log(&mut self, msg: String) -> (r: LogAction)
        requires
            old(self).alive,
        ensures
            *final(self) == *old(self),
            old(self).on_vpn_log ==> (r matches LogAction::Deliver(m) && m == msg),
            !old(self).on_vpn_log ==> (r matches LogAction::Print(line) && line@ == "OpenVPN: "@
                + msg@),
    {
        if self.on_vpn_log {
            LogAction::Deliver(msg)
        } else {
            let mut line = String::from_str("OpenVPN: ");
            line.append(msg.as_str());
            LogAction::Print(line)
        }
    }

    /// The event channel's dispatch decision: build the event from the two
    /// strings and two flags exactly as they arrived, then deliver it to
    /// the registered handler or print its display form. The context is
    /// left unchanged whatever the flags say: a fatal event is a
    /// notification, not a lifecycle action.
    pub fn event(&mut self, name: String, info: String, error: bool, fatal: bool) -> (r:
        EventAction)
        requires
            old(self).alive,
        ensures
            *final(self) == *old(self),
            old(self).on_vpn_event ==> (r matches EventAction::Deliver(ev) && ev.name == name
                && ev.info == info && ev.error == error && ev.fatal == fatal),
            !old(self).on_vpn_event ==> (r matches EventAction::Print(line) && line@ == "EVENT: "@
                + event_display(
                (OVPNEvent { name: name, info: info, error: error, fatal: fatal }),
            )),
    {
        let ev = OVPNEvent::new(name, info, error, fatal);
        if self.on_vpn_event {
            EventAction::Deliver(ev)
        } else {
            let mut line = String::from_str("EVENT: ");
            let rendered = ev.render();
            line.append(rendered.as_str());
            EventAction::Print(line)
        }
    }

    /// Reclaims the context: the one operation that ends its life, invoked
    /// by the engine exactly once during instance teardown, after the last
    /// other callback. Its precondition forbids a second reclamation; every
    /// other operation's precondition forbids running after it.
    pub fn destroy(&mut self)
        requires
            old(self).alive,
        ensures
            !final(self).alive,
            final(self).on_vpn_read == old(self).on_vpn_read,
            final(self).on_vpn_write == old(self).on_vpn_write,
            final(self).on_vpn_log == old(self).on_vpn_log,
            final(self).on_vpn_event == old(self).on_vpn_event,
    {
        self.alive = false;
    }
}

/// The status code a read-allocate callback reports across the boundary:
/// zero exactly when a buffer was produced, and the distinguished negative
/// code when the host had no data — never an ambiguous pairing of a null
/// buffer with an unspecified length.
pub fn read_allocate_status(r: &Option<(Vec<u8>, usize)>) -> (c: i32)
    ensures
        r is Some ==> c == 0,
        r is None ==> c == -1,
{
    match r {
        Some(_) => 0,
        None => -1,
    }
}

/// The status code a write callback reports across the boundary: the byte
/// count itself, which must fit the boundary's signed return type.
pub fn write_status(n: usize) -> (c: i32)
    requires
        n <= 0x7fff_ffff,
    ensures
        c == n,
{
    n as i32
}

} // verus!
