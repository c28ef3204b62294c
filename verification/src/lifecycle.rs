//! Lifecycle models of one engine instance, on both sides of the boundary.
//!
//! The callback side models the life of the user-context: the engine may
//! fire read-allocate, write, log and event callbacks only while the
//! context is alive, and reclaims it with a single destroy, after which no
//! callback may fire. The host side models the facade's own preconditions
//! on the control- and data-plane calls: an instance that has not been torn
//! down accepts any of them — in particular, disconnect carries no
//! connection-state precondition, so disconnecting twice in a row is as
//! permitted as once.

use vstd::prelude::*;

verus! {

/// One invocation the engine makes through the callback table.
pub enum CallbackOp {
    ReadAllocate,
    Write,
    Log,
    Event,
    Destroy,
}

/// Whether the engine may fire this callback while the context's liveness
/// is `alive`: every callback, destroy included, needs the context alive.
pub open spec fn callback_allowed(alive: bool, op: CallbackOp) -> bool {
    alive
}

/// The context's liveness after the callback: destroy ends it; no other
/// callback — an event with any flags included — changes it.
pub open spec fn alive_after(alive: bool, op: CallbackOp) -> bool {
    match op {
        CallbackOp::Destroy => false,
        _ => alive,
    }
}

/// Whether a whole sequence of callbacks is permitted, each against the
/// liveness left by those before it.
pub open spec fn callback_trace_allowed(alive: bool, t: Seq<CallbackOp>) -> bool
    decreases t.len(),
{
    t.len() == 0 || (callback_allowed(alive, t[0]) && callback_trace_allowed(
        alive_after(alive, t[0]),
        t.skip(1),
    ))
}

/// The context's liveness after a whole sequence of callbacks.
pub open spec fn alive_after_trace(alive: bool, t: Seq<CallbackOp>) -> bool
    decreases t.len(),
{
    if t.len() == 0 {
        alive
    } else {
        alive_after_trace(alive_after(alive, t[0]), t.skip(1))
    }
}

/// How many destroys a sequence of callbacks holds.
pub open spec fn destroy_count(t: Seq<CallbackOp>) -> nat
    decreases t.len(),
{
    if t.len() == 0 {
        0
    } else {
        (if t[0] is Destroy {
            1nat
        } else {
            0nat
        }) + destroy_count(t.skip(1))
    }
}

/// Exactly-once teardown: in any permitted callback sequence of a fresh
/// context, destroy fires at most once and only as the very last callback —
/// no callback fires after its context is reclaimed. And whenever the
/// sequence ends with the context reclaimed, destroy fired exactly once,
/// as the final callback.
pub proof fn lemma_exactly_once_teardown(t: Seq<CallbackOp>)
    requires
        callback_trace_allowed(true, t),
    ensures
        destroy_count(t) <= 1,
        forall|i: int| 0 <= i < t.len() && t[i] is Destroy ==> i == t.len() - 1,
        !alive_after_trace(true, t) ==> destroy_count(t) == 1 && t.len() > 0 && t[t.len() - 1]
            is Destroy,
    decreases t.len(),
{
    if t.len() == 0 {
    } else {
        let tail = t.skip(1);
        if t[0] is Destroy {
            if tail.len() > 0 {
                assert(callback_trace_allowed(false, tail));
                assert(!callback_allowed(false, tail[0]));
            }
            assert(destroy_count(tail) == 0);
        } else {
            lemma_exactly_once_teardown(tail);
            assert forall|i: int| 0 <= i < t.len() && t[i] is Destroy implies i == t.len()
                - 1 by {
                assert(i >= 1);
                assert(tail[i - 1] == t[i]);
            }
            if !alive_after_trace(true, t) {
                assert(!alive_after_trace(true, tail));
                assert(t[t.len() - 1] == tail[tail.len() - 1]);
            }
        }
    }
}

/// Only destroy ends the context's life: every other callback — log and
/// event included, whatever an event's error and fatal flags say — leaves
/// the liveness exactly as it was. A fatal event is a notification, never
/// a lifecycle action of the layer's own.
pub proof fn lemma_only_destroy_ends_life(alive: bool, op: CallbackOp)
    ensures
        !(op is Destroy) ==> alive_after(alive, op) == alive,
        op is Destroy ==> !alive_after(alive, op),
{
}

/// One call the host makes against the facade.
pub enum HostOp {
    Connect,
    Disconnect,
    Send,
    Receive,
    Teardown,
}

/// The facade's own precondition on a host call: the instance must not
/// have been torn down; nothing more. The layer tracks no connection
/// state, so no call — disconnect included — demands one.
pub open spec fn host_allowed(destroyed: bool, op: HostOp) -> bool {
    !destroyed
}

/// Whether the instance is gone after the call: only teardown removes it.
pub open spec fn destroyed_after(destroyed: bool, op: HostOp) -> bool {
    destroyed || op is Teardown
}

/// Whether a whole sequence of host calls is permitted, each against the
/// state left by those before it.
pub open spec fn host_trace_allowed(destroyed: bool, t: Seq<HostOp>) -> bool
    decreases t.len(),
{
    t.len() == 0 || (host_allowed(destroyed, t[0]) && host_trace_allowed(
        destroyed_after(destroyed, t[0]),
        t.skip(1),
    ))
}

/// Whether the instance is gone after a whole sequence of host calls.
pub open spec fn destroyed_after_trace(destroyed: bool, t: Seq<HostOp>) -> bool
    decreases t.len(),
{
    if t.len() == 0 {
        destroyed
    } else {
        destroyed_after_trace(destroyed_after(destroyed, t[0]), t.skip(1))
    }
}

/// Splitting a sequence of host calls: the whole is permitted exactly when
/// the first part is and the second part is, started from the state the
/// first part leaves.
pub proof fn lemma_host_trace_concat(destroyed: bool, t1: Seq<HostOp>, t2: Seq<HostOp>)
    ensures
        host_trace_allowed(destroyed, t1 + t2) == (host_trace_allowed(destroyed, t1)
            && host_trace_allowed(destroyed_after_trace(destroyed, t1), t2)),
        destroyed_after_trace(destroyed, t1 + t2) == destroyed_after_trace(
            destroyed_after_trace(destroyed, t1),
            t2,
        ),
    decreases t1.len(),
{
    if t1.len() == 0 {
        assert(t1 + t2 =~= t2);
    } else {
        lemma_host_trace_concat(destroyed_after(destroyed, t1[0]), t1.skip(1), t2);
        assert((t1 + t2).skip(1) =~= t1.skip(1) + t2);
        assert((t1 + t2)[0] == t1[0]);
    }
}

/// Idempotent disconnect: after any permitted sequence of host calls that
/// has not torn the instance down, a disconnect followed at once by a
/// second disconnect is again permitted, and the instance is still there
/// afterwards — each call is classified independently into a defined
/// result, and the facade places no precondition on disconnecting an
/// already-disconnected instance.
pub proof fn lemma_disconnect_idempotent(t: Seq<HostOp>)
    requires
        host_trace_allowed(false, t),
        !destroyed_after_trace(false, t),
    ensures
        host_trace_allowed(false, t + seq![HostOp::Disconnect, HostOp::Disconnect]),
        !destroyed_after_trace(false, t + seq![HostOp::Disconnect, HostOp::Disconnect]),
{
    let one = seq![HostOp::Disconnect];
    let two = seq![HostOp::Disconnect, HostOp::Disconnect];
    lemma_host_trace_concat(false, t, two);
    assert(one.skip(1) =~= Seq::<HostOp>::empty());
    assert(host_trace_allowed(false, Seq::<HostOp>::empty()));
    assert(destroyed_after_trace(false, Seq::<HostOp>::empty()) == false);
    assert(host_trace_allowed(false, one));
    assert(destroyed_after_trace(false, one) == false);
    assert(two.skip(1) =~= one);
    assert(host_trace_allowed(false, two));
    assert(!destroyed_after_trace(false, two));
}

} // verus!
