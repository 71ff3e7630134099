//! `AbortSignal` and `AbortController`: a signal aborts at most once, records why, and fires
//! its `abort` listeners when it does.
use vstd::prelude::*;

use super::emitter::{dispatch_order, handler_function, keep_unless_handler, keep_unless_once, EventList, ItemView, EventCallback, Listener};

verus! {

/// Why a signal aborted.
#[derive(Debug, Clone, Copy, PartialEq, Eq, Structural)]
pub enum AbortReason {
    /// The reason given to `abort(reason)` (a script value, by handle).
    Given(u64),
    /// No reason was given: a `DOMException` named `AbortError`.
    AbortError,
}

/// `AbortSignal`.
pub struct AbortSignal {
    listeners: EventList,
    reason: Option<AbortReason>,
}

/// The view of an abort signal.
pub struct AbortSignalView {
    pub listeners: Seq<ItemView>,
    pub aborted: bool,
    pub reason: Option<AbortReason>,
}

impl View for AbortSignal {
    type V = AbortSignalView;

    closed spec fn view(&self) -> AbortSignalView {
        AbortSignalView { listeners: self.listeners@, aborted: self.reason is Some, reason: self.reason }
    }
}

/// The reason recorded for `abort(reason)`.
pub open spec fn recorded_reason(reason: Option<u64>) -> AbortReason {
    match reason {
        Some(r) => AbortReason::Given(r),
        None => AbortReason::AbortError,
    }
}

impl AbortSignal {
    /// A signal that has not aborted and has no listeners.
    pub fn new() -> (s: AbortSignal)
        ensures
            !s@.aborted,
            s@.reason is None,
            s@.listeners == Seq::<ItemView>::empty(),
    {
        AbortSignal { listeners: EventList::new(), reason: None }
    }

    /// `aborted`.
    pub fn aborted(&self) -> (b: bool)
        ensures
            b == self@.aborted,
    {
        self.reason.is_some()
    }

    /// `reason`: why the signal aborted, if it has.
    pub fn reason(&self) -> (r: Option<AbortReason>)
        ensures
            r == self@.reason,
            r is Some <==> self@.aborted,
    {
        self.reason
    }

    /// `throwIfAborted()`: the reason to throw once the signal has aborted.
    pub fn throw_if_aborted(&self) -> (r: Result<(), AbortReason>)
        ensures
            match r {
                Ok(()) => !self@.aborted,
                Err(e) => self@.aborted && self@.reason == Some(e),
            },
    {
        match self.reason {
            Some(r) => Err(r),
            None => Ok(()),
        }
    }

    /// The signal's listener registry (`addEventListener` and the rest).
    pub fn listeners(&self) -> (l: &EventList)
        ensures
            l@ == self@.listeners,
    {
        &self.listeners
    }

    /// The signal's listener registry, to register or remove listeners.
    pub fn listeners_mut(&mut self) -> (l: &mut EventList)
        ensures
            l@ == old(self)@.listeners,
            final(self)@ == (AbortSignalView { listeners: final(l)@, ..old(self)@ }),
    {
        &mut self.listeners
    }

    /// `onabort` (getter): the function assigned to the handler, if any.
    pub fn onabort(&self) -> (r: Option<u64>)
        ensures
            r == handler_function(self@.listeners, "abort"@),
    {
        self.listeners.get_handler_function("abort")
    }

    /// `onabort = f` (with `Some`) or `onabort = null` (with `None`).
    pub fn set_onabort(&mut self, f: Option<u64>)
        ensures
            final(self)@.aborted == old(self)@.aborted,
            final(self)@.reason == old(self)@.reason,
            final(self)@.listeners == match f {
                Some(g) => old(self)@.listeners.filter(keep_unless_handler("abort"@)).push(
                    ItemView {
                        ty: "abort"@,
                        callback: Listener::Js(EventCallback::Function(g)),
                        once: false,
                        capture: false,
                        handler: true,
                    },
                ),
                None => old(self)@.listeners.filter(keep_unless_handler("abort"@)),
            },
    {
        let cb = match f {
            Some(g) => Some(EventCallback::Function(g)),
            None => None,
        };
        self.listeners.set_handler("abort", cb);
    }

    /// Aborts the signal: the first time, records the reason and returns the `abort` listeners
    /// to run, in order (dropping the `once` ones); afterwards does nothing and returns `None`.
    pub fn abort(&mut self, reason: Option<u64>) -> (r: Option<Vec<Listener>>)
        ensures
            old(self)@.aborted ==> r is None && final(self)@ == old(self)@,
            !old(self)@.aborted ==> {
                &&& r matches Some(order) && order@ == dispatch_order(old(self)@.listeners, "abort"@)
                &&& final(self)@.aborted
                &&& final(self)@.reason == Some(recorded_reason(reason))
                &&& final(self)@.listeners == old(self)@.listeners.filter(keep_unless_once("abort"@))
            },
    {
        if self.reason.is_some() {
            return None;
        }
        let r = match reason {
            Some(v) => AbortReason::Given(v),
            None => AbortReason::AbortError,
        };
        let order = self.listeners.begin_dispatch("abort");
        self.reason = Some(r);
        Some(order)
    }
}

/// `AbortController`: owns the signal it aborts.
pub struct AbortController {
    signal: AbortSignal,
}

impl AbortController {
    /// A controller with a fresh signal.
    pub fn new() -> (c: AbortController)
        ensures
            !c.signal_view().aborted,
            c.signal_view().listeners == Seq::<ItemView>::empty(),
    {
        AbortController { signal: AbortSignal::new() }
    }

    /// The view of the controller's signal.
    pub closed spec fn signal_view(&self) -> AbortSignalView {
        self.signal@
    }

    /// `signal`.
    pub fn signal(&self) -> (s: &AbortSignal)
        ensures
            s@ == self.signal_view(),
    {
        &self.signal
    }

    /// The signal, to register listeners on it.
    pub fn signal_mut(&mut self) -> (s: &mut AbortSignal)
        ensures
            s@ == old(self).signal_view(),
            final(self).signal_view() == final(s)@,
    {
        &mut self.signal
    }

    /// `abort(reason)`: aborts the signal (see [`AbortSignal::abort`]).
    pub fn abort(&mut self, reason: Option<u64>) -> (r: Option<Vec<Listener>>)
        ensures
            old(self).signal_view().aborted ==> r is None && final(self).signal_view() == old(self).signal_view(),
            !old(self).signal_view().aborted ==> {
                &&& r matches Some(order) && order@ == dispatch_order(old(self).signal_view().listeners, "abort"@)
                &&& final(self).signal_view().aborted
                &&& final(self).signal_view().reason == Some(recorded_reason(reason))
            },
    {
        self.signal.abort(reason)
    }
}

} // verus!
