//! The connection session's decisions: what follows the connection attempt,
//! and which action each connection lifecycle event triggers.  The running
//! program performs the actions — printing, exiting, issuing the
//! registration call — outside this crate; the choice of action is decided
//! and proved here.

use vstd::prelude::*;

verus! {

use vstd::string::StringExecFns;

/// A connection lifecycle notification, as the event stream delivers it.  A
/// disconnection carries the reason it happened.
#[derive(Debug)]
pub enum LifecycleEvent {
    Connecting,
    Connected,
    Disconnected(String),
    SignedIn,
}

/// What follows the connection attempt.
#[derive(Debug, Clone, Copy, PartialEq, Eq, Structural)]
pub enum ConnectAction {
    /// The connection stands: subscribe to events and start the input loop.
    Proceed,
    /// The attempt failed: report it and end the whole run with the given
    /// exit status.  Failure to connect is deliberately not an error exit.
    ReportAndExit(i32),
}

/// The action one lifecycle event triggers.  Each event triggers exactly
/// one: a status note for the first three, the single queue registration
/// attempt for a sign-in.
#[derive(Debug)]
pub enum EventAction {
    NoteConnecting,
    NoteConnected,
    /// Report the disconnection, with its reason.
    NoteDisconnected(String),
    /// Register the named queue, once, with the reply callback.
    RegisterQueue(String),
}

/// The decision taken after the connection attempt: proceed on success; on
/// failure, report and end the run with success status.
pub open spec fn connect_action(connected: bool) -> ConnectAction {
    if connected {
        ConnectAction::Proceed
    } else {
        ConnectAction::ReportAndExit(0)
    }
}

/// An event triggers the queue registration exactly when it is a sign-in.
pub open spec fn registers_queue(event: LifecycleEvent) -> bool {
    event is SignedIn
}

/// Decides what follows the connection attempt.
pub fn connect_step(connected: bool) -> (a: ConnectAction)
    ensures
        a == connect_action(connected),
{
    if connected {
        ConnectAction::Proceed
    } else {
        ConnectAction::ReportAndExit(0)
    }
}

/// The queue name this configuration registers.
pub fn queue_name() -> (s: &'static str)
    ensures
        s@ == "test2queue"@,
{
    "test2queue"
}

/// Decides the one action a lifecycle event triggers: each kind of event
/// maps to its own action, a disconnection's reason is passed through
/// unchanged, and a sign-in — and only a sign-in — yields the one queue
/// registration attempt, always under the configured queue name.
pub fn handle_event(event: LifecycleEvent) -> (action: EventAction)
    ensures
        action is NoteConnecting <==> event is Connecting,
        action is NoteConnected <==> event is Connected,
        action is NoteDisconnected <==> event is Disconnected,
        event matches LifecycleEvent::Disconnected(reason) ==> action
            matches EventAction::NoteDisconnected(r) && r == reason,
        action is RegisterQueue <==> registers_queue(event),
        action matches EventAction::RegisterQueue(name) ==> name@ == "test2queue"@,
{
    match event {
        LifecycleEvent::Connecting => EventAction::NoteConnecting,
        LifecycleEvent::Connected => EventAction::NoteConnected,
        LifecycleEvent::Disconnected(reason) => EventAction::NoteDisconnected(reason),
        LifecycleEvent::SignedIn => EventAction::RegisterQueue(
            String::from_str(queue_name()),
        ),
    }
}

/// How many of the events in `events` are sign-ins.
pub open spec fn count_sign_ins(events: Seq<LifecycleEvent>) -> nat
    decreases events.len(),
{
    if events.len() == 0 {
        0
    } else {
        count_sign_ins(events.drop_last()) + if events.last() is SignedIn {
            1nat
        } else {
            0nat
        }
    }
}

/// How many of the events in `events` trigger a queue registration.
pub open spec fn count_registrations(events: Seq<LifecycleEvent>) -> nat
    decreases events.len(),
{
    if events.len() == 0 {
        0
    } else {
        count_registrations(events.drop_last()) + if registers_queue(events.last()) {
            1nat
        } else {
            0nat
        }
    }
}

/// Over any stream of lifecycle events, exactly one queue registration
/// attempt occurs per sign-in event received: the two counts agree.
pub proof fn lemma_one_registration_per_sign_in(events: Seq<LifecycleEvent>)
    ensures
        count_registrations(events) == count_sign_ins(events),
    decreases events.len(),
{
    if events.len() > 0 {
        lemma_one_registration_per_sign_in(events.drop_last());
    }
}

/// A failed connection attempt ends the run cleanly: the exit status is 0,
/// and nothing further — in particular no queue registration — follows,
/// since the action is not to proceed.
pub proof fn lemma_connect_failure_is_clean_exit()
    ensures
        connect_action(false) == ConnectAction::ReportAndExit(0),
        !(connect_action(false) is Proceed),
{
}

} // verus!
