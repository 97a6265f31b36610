//! The completion bridge: the one message that a worker hands to the thread
//! that owns the user interface.

use vstd::prelude::*;
use vstd::string::*;

verus! {

/// The state of a bridge. It is open until its one message has been handed
/// over or its sender has gone away.
#[derive(Clone, Copy, Debug, PartialEq, Eq, Structural)]
pub enum Bridge {
    Open,
    Delivered,
    Closed,
}

/// What can happen to a bridge.
#[derive(Clone, Copy, Debug, PartialEq, Eq, Structural)]
pub enum Signal {
    /// A message arrives from the worker.
    Message,
    /// The worker has ended and dropped its sender.
    SenderDropped,
}

/// Whether the receiver is invoked when `signal` reaches a bridge in `state`.
pub open spec fn invokes(state: Bridge, signal: Signal) -> bool {
    state == Bridge::Open && signal == Signal::Message
}

/// The state of the bridge after `signal`.
pub open spec fn after(state: Bridge, signal: Signal) -> Bridge {
    match signal {
        Signal::SenderDropped => Bridge::Closed,
        Signal::Message => match state {
            Bridge::Open => Bridge::Delivered,
            other => other,
        },
    }
}

/// How often the receiver is invoked while `signals` reach a bridge that
/// starts in `state`.
pub open spec fn invocations(state: Bridge, signals: Seq<Signal>) -> nat
    decreases signals.len(),
{
    if signals.len() == 0 {
        0
    } else {
        let rest = invocations(after(state, signals[0]), signals.skip(1));
        if invokes(state, signals[0]) {
            rest + 1
        } else {
            rest
        }
    }
}

/// The text that reports how a child process ended.
pub open spec fn completion_spec(success: bool) -> Seq<char> {
    if success {
        "Exit status successfully? = true"@
    } else {
        "Exit status successfully? = false"@
    }
}

impl Bridge {
    /// A fresh bridge, one per dispatched action.
    pub fn new() -> (bridge: Bridge)
        ensures
            bridge == Bridge::Open,
    {
        Bridge::Open
    }

    /// Takes a message that arrived. Hands it on to the receiver if it is the
    /// first on an open bridge, and swallows it otherwise.
    pub fn accept(&mut self, text: String) -> (handed: Option<String>)
        ensures
            *final(self) == after(*old(self), Signal::Message),
            handed is Some <==> invokes(*old(self), Signal::Message),
            handed is Some ==> handed->Some_0 == text,
    {
        match *self {
            Bridge::Open => {
                *self = Bridge::Delivered;
                Some(text)
            },
            _ => None,
        }
    }

    /// Records that the sender is gone. Nothing is delivered after that.
    pub fn close(&mut self)
        ensures
            *final(self) == after(*old(self), Signal::SenderDropped),
            *final(self) == Bridge::Closed,
    {
        *self = Bridge::Closed;
    }

    /// Whether a message would still be handed on.
    pub fn is_open(&self) -> (open: bool)
        ensures
            open == (*self == Bridge::Open),
    {
        match *self {
            Bridge::Open => true,
            _ => false,
        }
    }
}

/// Writes the message that a worker sends when its child process has ended.
/// A failed child is reported in the same way as a successful one: the message
/// informs, it is no error.
pub fn completion_message(success: bool) -> (text: String)
    ensures
        text@ == completion_spec(success),
{
    if success {
        String::from_str("Exit status successfully? = true")
    } else {
        String::from_str("Exit status successfully? = false")
    }
}

/// Whatever reaches a bridge, and in whatever order, its receiver is invoked
/// at most once; and never again once a message was handed over or the sender
/// is gone.
pub proof fn lemma_at_most_one_invocation(state: Bridge, signals: Seq<Signal>)
    ensures
        invocations(state, signals) <= 1,
        state != Bridge::Open ==> invocations(state, signals) == 0,
    decreases signals.len(),
{
    if signals.len() > 0 {
        lemma_at_most_one_invocation(after(state, signals[0]), signals.skip(1));
    }
}

} // verus!
