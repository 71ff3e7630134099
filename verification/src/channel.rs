//! `MessagePort`: whether a port still holds its channel end and whether its receive loop runs,
//! which of `postMessage`, `start`, `close` and the transfer detach are allowed in each state,
//! and the port's `message` listeners. Moving messages over the channel is the host's work.
use vstd::prelude::*;

use crate::events::emitter::{handler_function, keep_unless_handler, EventList, ItemView, EventCallback, Listener};
use crate::text::owned;

verus! {

/// Why a port operation was refused.
#[derive(Debug, Clone, Copy, PartialEq, Eq, Structural)]
pub enum PortError {
    /// `new MessagePort()`: ports come only from a channel.
    NotConstructible,
    /// `postMessage` or `start` on a port whose channel end was transferred away.
    Detached,
    /// A second transfer of the same port.
    AlreadyDetached,
}

/// The message of each refusal.
pub open spec fn port_error_text(e: PortError) -> Seq<char> {
    match e {
        PortError::NotConstructible => "MessagePort cannot be constructed directly"@,
        PortError::Detached => "MessagePort is detached"@,
        PortError::AlreadyDetached => "MessagePort already detached"@,
    }
}

impl PortError {
    /// The error's message.
    pub fn message(&self) -> (s: String)
        ensures
            s@ == port_error_text(*self),
    {
        match self {
            PortError::NotConstructible => owned("MessagePort cannot be constructed directly"),
            PortError::Detached => owned("MessagePort is detached"),
            PortError::AlreadyDetached => owned("MessagePort already detached"),
        }
    }
}

/// `MessagePort`.
pub struct MessagePort {
    listener: EventList,
    attached: bool,
    started: bool,
}

/// The view of a port.
pub struct MessagePortView {
    pub listeners: Seq<ItemView>,
    /// The port still holds its channel end.
    pub attached: bool,
    /// Its receive loop is running (`start` was called and `close` was not since).
    pub started: bool,
}

impl View for MessagePort {
    type V = MessagePortView;

    closed spec fn view(&self) -> MessagePortView {
        MessagePortView { listeners: self.listener@, attached: self.attached, started: self.started }
    }
}

/// The `onmessage` handler entry for `f`.
pub open spec fn message_handler(f: u64) -> ItemView {
    ItemView {
        ty: "message"@,
        callback: Listener::Js(EventCallback::Function(f)),
        once: false,
        capture: false,
        handler: true,
    }
}

/// What `postMessage` answers in state `p`.
pub open spec fn post_outcome(p: MessagePortView) -> Result<(), PortError> {
    if p.attached {
        Ok(())
    } else {
        Err(PortError::Detached)
    }
}

/// `start()` from state `p`: the next state and the answer.
pub open spec fn start_step(p: MessagePortView) -> (MessagePortView, Result<bool, PortError>) {
    if p.started {
        (p, Ok(false))
    } else if !p.attached {
        (p, Err(PortError::Detached))
    } else {
        (MessagePortView { started: true, ..p }, Ok(true))
    }
}

/// `close()` from state `p`: the next state and whether a running loop was stopped.
pub open spec fn close_step(p: MessagePortView) -> (MessagePortView, bool) {
    (MessagePortView { started: false, ..p }, p.started)
}

/// The transfer detach from state `p`: the next state and the answer.
pub open spec fn detach_step(p: MessagePortView) -> (MessagePortView, Result<(), PortError>) {
    if p.attached {
        (MessagePortView { attached: false, ..p }, Ok(()))
    } else {
        (p, Err(PortError::AlreadyDetached))
    }
}

impl MessagePort {
    /// A port on a fresh channel end: attached, not started, no listeners.
    pub fn create() -> (p: MessagePort)
        ensures
            p@.attached,
            !p@.started,
            p@.listeners == Seq::<ItemView>::empty(),
    {
        MessagePort { listener: EventList::new(), attached: true, started: false }
    }

    /// A port rebuilt around a transferred channel end: as [`MessagePort::create`].
    pub fn from_channel() -> (p: MessagePort)
        ensures
            p@.attached,
            !p@.started,
            p@.listeners == Seq::<ItemView>::empty(),
    {
        MessagePort::create()
    }

    /// `new MessagePort()`: always refused.
    pub fn new() -> (r: Result<MessagePort, PortError>)
        ensures
            r == Err::<MessagePort, PortError>(PortError::NotConstructible),
    {
        Err(PortError::NotConstructible)
    }

    /// `postMessage`: allowed (the host then sends the message) exactly while the port holds
    /// its channel end.
    pub fn post_message(&self) -> (r: Result<(), PortError>)
        ensures
            r == post_outcome(self@),
    {
        if self.attached {
            Ok(())
        } else {
            Err(PortError::Detached)
        }
    }

    /// `start()`: `Ok(true)` when the receive loop must now be started, `Ok(false)` when it
    /// already runs (nothing to do, even on a detached port), and `Detached` when there is no
    /// channel end to receive from.
    pub fn start_native(&mut self) -> (r: Result<bool, PortError>)
        ensures
            (final(self)@, r) == start_step(old(self)@),
    {
        if self.started {
            return Ok(false);
        }
        if !self.attached {
            return Err(PortError::Detached);
        }
        self.started = true;
        Ok(true)
    }

    /// `close()`: stops a running receive loop; `true` when there was one to stop.
    pub fn close(&mut self) -> (stopped: bool)
        ensures
            (final(self)@, stopped) == close_step(old(self)@),
    {
        let was = self.started;
        self.started = false;
        was
    }

    /// Gives up the channel end for a transfer; refused when it was already given up.
    pub fn detach(&mut self) -> (r: Result<(), PortError>)
        ensures
            (final(self)@, r) == detach_step(old(self)@),
    {
        if !self.attached {
            return Err(PortError::AlreadyDetached);
        }
        self.attached = false;
        Ok(())
    }

    /// The port's listener registry (`addEventListener`, `dispatchEvent` and the rest).
    pub fn listeners(&self) -> (l: &EventList)
        ensures
            l@ == self@.listeners,
    {
        &self.listener
    }

    /// The port's listener registry, to register or remove listeners or start a dispatch.
    pub fn listeners_mut(&mut self) -> (l: &mut EventList)
        ensures
            l@ == old(self)@.listeners,
            final(self)@ == (MessagePortView { listeners: final(l)@, ..old(self)@ }),
    {
        &mut self.listener
    }

    /// `onmessage = f` (with `Some`) or `onmessage = null` (with `None`).
    pub fn set_onmessage(&mut self, f: Option<u64>)
        ensures
            final(self)@.attached == old(self)@.attached,
            final(self)@.started == old(self)@.started,
            final(self)@.listeners == match f {
                Some(g) => old(self)@.listeners.filter(keep_unless_handler("message"@)).push(message_handler(g)),
                None => old(self)@.listeners.filter(keep_unless_handler("message"@)),
            },
    {
        let cb = match f {
            Some(g) => Some(EventCallback::Function(g)),
            None => None,
        };
        self.listener.set_handler("message", cb);
    }

    /// `onmessage` (getter): the function assigned to the handler, if any.
    pub fn get_onmessage(&self) -> (r: Option<u64>)
        ensures
            r == handler_function(self@.listeners, "message"@),
    {
        self.listener.get_handler_function("message")
    }
}

/// Once `start()` has started the receive loop, a second `start()` changes nothing and says
/// there is nothing to do.
pub proof fn lemma_second_start_does_nothing(p: MessagePortView)
    requires
        start_step(p).1 == Ok::<bool, PortError>(true),
    ensures
        start_step(start_step(p).0) == (start_step(p).0, Ok::<bool, PortError>(false)),
{
}

/// On a port that holds its channel end, `close()` then `start()` starts the receive loop
/// again.
pub proof fn lemma_close_then_start_restarts(p: MessagePortView)
    requires
        p.attached,
    ensures
        start_step(close_step(p).0).1 == Ok::<bool, PortError>(true),
        start_step(close_step(p).0).0.started,
{
}

/// After the transfer detach, whether it succeeded or not, `postMessage` is refused, and it
/// stays refused through `start()` and `close()`.
pub proof fn lemma_detached_port_refuses_messages(p: MessagePortView)
    ensures
        post_outcome(detach_step(p).0) == Err::<(), PortError>(PortError::Detached),
        post_outcome(start_step(detach_step(p).0).0) == Err::<(), PortError>(PortError::Detached),
        post_outcome(close_step(detach_step(p).0).0) == Err::<(), PortError>(PortError::Detached),
{
}

} // verus!
