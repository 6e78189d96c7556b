use vstd::prelude::*;

use crate::event::PowerState;

verus! {

/// Message kind of a power-broadcast notification (`WM_POWERBROADCAST`).
pub const WM_POWERBROADCAST: u32 = 536;

/// Message kind of a session-change notification (`WM_WTSSESSION_CHANGE`).
pub const WM_WTSSESSION_CHANGE: u32 = 689;

/// Power-broadcast sub-code: the system resumed automatically (`PBT_APMRESUMEAUTOMATIC`).
pub const PBT_APMRESUMEAUTOMATIC: u32 = 18;

/// Power-broadcast sub-code: the system is about to suspend (`PBT_APMSUSPEND`).
pub const PBT_APMSUSPEND: u32 = 4;

/// Power-broadcast sub-code: a power setting changed (`PBT_POWERSETTINGCHANGE`).
/// Recognised, and deliberately not translated into an event.
pub const PBT_POWERSETTINGCHANGE: u32 = 32787;

/// Session-change sub-code: the session was locked (`WTS_SESSION_LOCK`).
pub const WTS_SESSION_LOCK: u32 = 7;

/// Session-change sub-code: the session was unlocked (`WTS_SESSION_UNLOCK`).
pub const WTS_SESSION_UNLOCK: u32 = 8;

/// The event that a notification of kind `message` with sub-code `code`
/// stands for, if any. Every pair outside this table yields nothing.
pub open spec fn translation(message: u32, code: u32) -> Option<PowerState> {
    if message == WM_POWERBROADCAST && code == PBT_APMRESUMEAUTOMATIC {
        Some(PowerState::Resume)
    } else if message == WM_POWERBROADCAST && code == PBT_APMSUSPEND {
        Some(PowerState::Suspend)
    } else if message == WM_WTSSESSION_CHANGE && code == WTS_SESSION_LOCK {
        Some(PowerState::ScreenLocked)
    } else if message == WM_WTSSESSION_CHANGE && code == WTS_SESSION_UNLOCK {
        Some(PowerState::ScreenUnlocked)
    } else {
        None
    }
}

/// Maps a raw notification to the event it stands for.
pub fn translate(message: u32, code: u32) -> (r: Option<PowerState>)
    ensures
        r == translation(message, code),
{
    if message == WM_POWERBROADCAST {
        if code == PBT_APMRESUMEAUTOMATIC {
            Some(PowerState::Resume)
        } else if code == PBT_APMSUSPEND {
            Some(PowerState::Suspend)
        } else if code == PBT_POWERSETTINGCHANGE {
            // acknowledged; no event is defined for setting changes
            None
        } else {
            None
        }
    } else if message == WM_WTSSESSION_CHANGE {
        if code == WTS_SESSION_LOCK {
            Some(PowerState::ScreenLocked)
        } else if code == WTS_SESSION_UNLOCK {
            Some(PowerState::ScreenUnlocked)
        } else {
            None
        }
    } else {
        None
    }
}

/// What the receiving endpoint does with a delivered notification, in order.
#[derive(Clone, Copy, Debug, PartialEq, Eq)]
pub enum DispatchAction {
    /// Hand the event to the event channel, discarding any send failure.
    Publish(PowerState),
    /// Pass the original message on to the default OS handler.
    ForwardToDefault,
}

/// The events that one notification publishes: none or exactly one.
pub open spec fn emitted(message: u32, code: u32) -> Seq<PowerState> {
    match translation(message, code) {
        Some(s) => seq![s],
        None => Seq::empty(),
    }
}

/// The actions taken for one notification: its event, if any, and then the
/// forward to the default handler.
pub open spec fn dispatch_actions(message: u32, code: u32) -> Seq<DispatchAction> {
    match translation(message, code) {
        Some(s) => seq![DispatchAction::Publish(s), DispatchAction::ForwardToDefault],
        None => seq![DispatchAction::ForwardToDefault],
    }
}

/// Decides what the endpoint does with one delivered notification.
pub fn dispatch(message: u32, code: u32) -> (r: Vec<DispatchAction>)
    ensures
        r@ == dispatch_actions(message, code),
{
    let mut actions: Vec<DispatchAction> = Vec::new();
    match translate(message, code) {
        Some(s) => actions.push(DispatchAction::Publish(s)),
        None => {},
    }
    actions.push(DispatchAction::ForwardToDefault);
    actions
}

/// A notification as the OS delivers it: its message kind and its sub-code.
#[derive(Clone, Copy, Debug, PartialEq, Eq)]
pub struct RawMessage {
    pub kind: u32,
    pub code: u32,
}

/// The events published, in order, for notifications delivered in the
/// order of `msgs`.
pub open spec fn published(msgs: Seq<RawMessage>) -> Seq<PowerState>
    decreases msgs.len(),
{
    if msgs.len() == 0 {
        Seq::empty()
    } else {
        published(msgs.drop_last()) + emitted(msgs.last().kind, msgs.last().code)
    }
}

/// The events published for a run of notifications delivered in order.
pub fn translate_messages(msgs: &Vec<RawMessage>) -> (r: Vec<PowerState>)
    ensures
        r@ == published(msgs@),
{
    let mut out: Vec<PowerState> = Vec::new();
    let mut i: usize = 0;
    while i < msgs.len()
        invariant
            i <= msgs@.len(),
            out@ == published(msgs@.subrange(0, i as int)),
        decreases msgs@.len() - i,
    {
        let m = msgs[i];
        proof {
            assert(msgs@.subrange(0, i + 1).drop_last() =~= msgs@.subrange(0, i as int));
        }
        match translate(m.kind, m.code) {
            Some(s) => out.push(s),
            None => {},
        }
        i = i + 1;
    }
    proof {
        assert(msgs@.subrange(0, msgs@.len() as int) =~= msgs@);
    }
    out
}

/// Publication is compositional: delivering `a` and then `b` publishes the
/// events of `a` followed by those of `b`, so each notification's events
/// stand in delivery order and earlier notifications never change what a
/// later one publishes.
pub proof fn lemma_published_concat(a: Seq<RawMessage>, b: Seq<RawMessage>)
    ensures
        published(a + b) == published(a) + published(b),
    decreases b.len(),
{
    if b.len() == 0 {
        assert(a + b =~= a);
        assert(published(b) =~= Seq::<PowerState>::empty());
        assert(published(a) + published(b) =~= published(a));
    } else {
        let l = b.last();
        assert((a + b).drop_last() =~= a + b.drop_last());
        assert((a + b).last() == l);
        lemma_published_concat(a, b.drop_last());
        assert(published(a + b) =~= published(a) + published(b));
    }
}

/// A single notification publishes exactly the events of its own
/// translation, wherever it stands among other notifications.
pub proof fn lemma_published_in_place(before: Seq<RawMessage>, m: RawMessage, after: Seq<RawMessage>)
    ensures
        published(before.push(m) + after) == published(before) + emitted(m.kind, m.code)
            + published(after),
{
    lemma_published_concat(before.push(m), after);
    assert(before.push(m).drop_last() =~= before);
}

/// Every automatic-resume power broadcast publishes exactly one `Resume`, in
/// its place among the events of the other notifications.
pub proof fn lemma_resume_published_once(before: Seq<RawMessage>, m: RawMessage, after: Seq<RawMessage>)
    requires
        m.kind == WM_POWERBROADCAST,
        m.code == PBT_APMRESUMEAUTOMATIC,
    ensures
        published(before.push(m) + after) == published(before).push(PowerState::Resume)
            + published(after),
{
    lemma_published_in_place(before, m, after);
    assert(published(before) + emitted(m.kind, m.code) =~= published(before).push(PowerState::Resume));
}

/// Every session-lock notification publishes exactly one `ScreenLocked`, and
/// every session-unlock notification exactly one `ScreenUnlocked`, in its
/// place among the events of the other notifications.
pub proof fn lemma_session_lock_published_once(before: Seq<RawMessage>, m: RawMessage, after: Seq<RawMessage>)
    requires
        m.kind == WM_WTSSESSION_CHANGE,
        m.code == WTS_SESSION_LOCK || m.code == WTS_SESSION_UNLOCK,
    ensures
        m.code == WTS_SESSION_LOCK ==> published(before.push(m) + after) == published(
            before,
        ).push(PowerState::ScreenLocked) + published(after),
        m.code == WTS_SESSION_UNLOCK ==> published(before.push(m) + after) == published(
            before,
        ).push(PowerState::ScreenUnlocked) + published(after),
{
    lemma_published_in_place(before, m, after);
    if m.code == WTS_SESSION_LOCK {
        assert(published(before) + emitted(m.kind, m.code) =~= published(before).push(PowerState::ScreenLocked));
    } else {
        assert(published(before) + emitted(m.kind, m.code) =~= published(before).push(PowerState::ScreenUnlocked));
    }
}

/// A notification outside the translation table publishes nothing, and is
/// still forwarded to the default handler.
pub proof fn lemma_unrecognized_publishes_nothing(before: Seq<RawMessage>, m: RawMessage, after: Seq<RawMessage>)
    requires
        translation(m.kind, m.code) is None,
    ensures
        published(before.push(m) + after) == published(before) + published(after),
        dispatch_actions(m.kind, m.code) == seq![DispatchAction::ForwardToDefault],
{
    lemma_published_in_place(before, m, after);
    assert(published(before) + emitted(m.kind, m.code) =~= published(before));
}

/// Whatever a notification translates to, the last thing done with it is the
/// forward to the default handler, and that forward happens exactly once.
pub proof fn lemma_always_forwarded(message: u32, code: u32)
    ensures
        dispatch_actions(message, code).len() >= 1,
        dispatch_actions(message, code).last() == DispatchAction::ForwardToDefault,
        forall|i: int|
            0 <= i < dispatch_actions(message, code).len() - 1 ==> dispatch_actions(message, code)[i]
                != DispatchAction::ForwardToDefault,
{
}

} // verus!
