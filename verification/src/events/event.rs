//! `Event` and its subclasses' own fields: the flags set at construction and the two flags that
//! listeners set while an event is dispatched.
use vstd::prelude::*;

use crate::text::owned;

verus! {

/// `EventInit`: the flags an event is created with (each `false` when not given).
#[derive(Debug, Clone, Copy, PartialEq, Eq, Structural)]
pub struct EventInit {
    pub bubbles: bool,
    pub cancelable: bool,
    pub composed: bool,
}

impl EventInit {
    /// All flags `false`.
    pub fn none() -> (r: EventInit)
        ensures
            !r.bubbles && !r.cancelable && !r.composed,
    {
        EventInit { bubbles: false, cancelable: false, composed: false }
    }
}

/// The view of an event.
pub struct EventView {
    pub ty: Seq<char>,
    pub bubbles: bool,
    pub cancelable: bool,
    pub composed: bool,
    pub default_prevented: bool,
    pub stop_immediate: bool,
}

/// `Event` (and the `Event` part of every subclass).
pub struct Event {
    ty: String,
    bubbles: bool,
    cancelable: bool,
    composed: bool,
    default_prevented: bool,
    stop_immediate: bool,
}

impl View for Event {
    type V = EventView;

    closed spec fn view(&self) -> EventView {
        EventView {
            ty: self.ty@,
            bubbles: self.bubbles,
            cancelable: self.cancelable,
            composed: self.composed,
            default_prevented: self.default_prevented,
            stop_immediate: self.stop_immediate,
        }
    }
}

impl Event {
    /// A new event of type `ty` with the flags of `init` (none when it is not given), not yet
    /// cancelled or stopped.
    pub fn new(ty: String, init: Option<EventInit>) -> (e: Event)
        ensures
            e@.ty == ty@,
            e@.bubbles == (init matches Some(i) && i.bubbles),
            e@.cancelable == (init matches Some(i) && i.cancelable),
            e@.composed == (init matches Some(i) && i.composed),
            !e@.default_prevented,
            !e@.stop_immediate,
    {
        let i = match init {
            Some(i) => i,
            None => EventInit::none(),
        };
        Event {
            ty,
            bubbles: i.bubbles,
            cancelable: i.cancelable,
            composed: i.composed,
            default_prevented: false,
            stop_immediate: false,
        }
    }

    /// `type`.
    pub fn ty(&self) -> (t: String)
        ensures
            t@ == self@.ty,
    {
        owned(self.ty.as_str())
    }

    /// `bubbles`.
    pub fn bubbles(&self) -> (b: bool)
        ensures
            b == self@.bubbles,
    {
        self.bubbles
    }

    /// `cancelable`.
    pub fn cancelable(&self) -> (b: bool)
        ensures
            b == self@.cancelable,
    {
        self.cancelable
    }

    /// `composed`.
    pub fn composed(&self) -> (b: bool)
        ensures
            b == self@.composed,
    {
        self.composed
    }

    /// `defaultPrevented`.
    pub fn default_prevented(&self) -> (b: bool)
        ensures
            b == self@.default_prevented,
    {
        self.default_prevented
    }

    /// `isTrusted`: every event here was created by script.
    pub fn is_trusted(&self) -> (b: bool)
        ensures
            !b,
    {
        false
    }

    /// `preventDefault()`: marks the event cancelled when it is cancelable, and does nothing
    /// otherwise.
    pub fn prevent_default(&mut self)
        ensures
            final(self)@ == (EventView {
                default_prevented: old(self)@.default_prevented || old(self)@.cancelable,
                ..old(self)@
            }),
    {
        if self.cancelable {
            self.default_prevented = true;
        }
    }

    /// `stopPropagation()`: nothing to stop, as an event reaches a single target.
    pub fn stop_propagation(&mut self)
        ensures
            final(self)@ == old(self)@,
    {
    }

    /// `stopImmediatePropagation()`: no further listener of the current dispatch runs.
    pub fn stop_immediate_propagation(&mut self)
        ensures
            final(self)@ == (EventView { stop_immediate: true, ..old(self)@ }),
    {
        self.stop_immediate = true;
    }

    /// Whether `stopImmediatePropagation()` was called.
    pub fn stop_immediate_requested(&self) -> (b: bool)
        ensures
            b == self@.stop_immediate,
    {
        self.stop_immediate
    }

    /// What `dispatchEvent` returns once the listeners ran: `false` exactly when the event was
    /// cancelled.
    pub fn dispatch_result(&self) -> (b: bool)
        ensures
            b == !self@.default_prevented,
    {
        !self.default_prevented
    }

    /// `CustomEvent.initCustomEvent(type, bubbles, cancelable)`: resets the type and the two
    /// flags (each `false` when not given); the other state is kept.
    pub fn reinit(&mut self, ty: String, bubbles: Option<bool>, cancelable: Option<bool>)
        ensures
            final(self)@ == (EventView {
                ty: ty@,
                bubbles: bubbles == Some(true),
                cancelable: cancelable == Some(true),
                ..old(self)@
            }),
    {
        self.ty = ty;
        self.bubbles = match bubbles {
            Some(b) => b,
            None => false,
        };
        self.cancelable = match cancelable {
            Some(c) => c,
            None => false,
        };
    }
}

/// The fields `ErrorEvent` adds to an event.
pub struct ErrorEventFields {
    pub message: String,
    pub filename: String,
    pub lineno: u32,
    pub colno: u32,
}

impl ErrorEventFields {
    /// The fields from an `ErrorEventInit`: the empty string for a missing text, 0 for a missing
    /// number.
    pub fn from_init(message: Option<String>, filename: Option<String>, lineno: Option<u32>, colno: Option<u32>) -> (r: ErrorEventFields)
        ensures
            r.message@ == (match message {
                Some(m) => m@,
                None => Seq::<char>::empty(),
            }),
            r.filename@ == (match filename {
                Some(f) => f@,
                None => Seq::<char>::empty(),
            }),
            r.lineno == (match lineno {
                Some(l) => l,
                None => 0u32,
            }),
            r.colno == (match colno {
                Some(c) => c,
                None => 0u32,
            }),
    {
        ErrorEventFields {
            message: match message {
                Some(m) => m,
                None => String::new(),
            },
            filename: match filename {
                Some(f) => f,
                None => String::new(),
            },
            lineno: match lineno {
                Some(l) => l,
                None => 0,
            },
            colno: match colno {
                Some(c) => c,
                None => 0,
            },
        }
    }
}

/// `CustomEvent`: an event carrying a `detail` (a script value, by the handle the host keeps it
/// under; `None` is `null`).
pub struct CustomEvent {
    pub base: Event,
    pub detail: Option<u64>,
}

impl CustomEvent {
    /// `new CustomEvent(type, init)`: the event of [`Event::new`] and the init's `detail`
    /// (`null` when not given).
    pub fn new(ty: String, init: Option<EventInit>, detail: Option<u64>) -> (e: CustomEvent)
        ensures
            e.base@.ty == ty@,
            e.base@.bubbles == (init matches Some(i) && i.bubbles),
            e.base@.cancelable == (init matches Some(i) && i.cancelable),
            e.base@.composed == (init matches Some(i) && i.composed),
            !e.base@.default_prevented,
            !e.base@.stop_immediate,
            e.detail == detail,
    {
        CustomEvent { base: Event::new(ty, init), detail }
    }

    /// `initCustomEvent(type, bubbles, cancelable, detail)`: resets the type, the two flags
    /// (each `false` when not given) and the detail (`null` when not given).
    pub fn init_custom_event(&mut self, ty: String, bubbles: Option<bool>, cancelable: Option<bool>, detail: Option<u64>)
        ensures
            final(self).base@ == (EventView {
                ty: ty@,
                bubbles: bubbles == Some(true),
                cancelable: cancelable == Some(true),
                ..old(self).base@
            }),
            final(self).detail == detail,
    {
        self.base.reinit(ty, bubbles, cancelable);
        self.detail = detail;
    }
}

/// `ErrorEvent`: an event with an error's message, place and value (by handle; `None` is
/// `null`).
pub struct ErrorEvent {
    pub base: Event,
    pub fields: ErrorEventFields,
    pub error: Option<u64>,
}

impl ErrorEvent {
    /// `new ErrorEvent(type, init)`: the event of [`Event::new`], the fields of
    /// [`ErrorEventFields::from_init`] and the init's `error` (`null` when not given).
    pub fn new(
        ty: String,
        init: Option<EventInit>,
        message: Option<String>,
        filename: Option<String>,
        lineno: Option<u32>,
        colno: Option<u32>,
        error: Option<u64>,
    ) -> (e: ErrorEvent)
        ensures
            e.base@.ty == ty@,
            e.base@.bubbles == (init matches Some(i) && i.bubbles),
            e.base@.cancelable == (init matches Some(i) && i.cancelable),
            e.base@.composed == (init matches Some(i) && i.composed),
            !e.base@.default_prevented,
            !e.base@.stop_immediate,
            e.fields.message@ == (match message {
                Some(m) => m@,
                None => Seq::<char>::empty(),
            }),
            e.fields.filename@ == (match filename {
                Some(f) => f@,
                None => Seq::<char>::empty(),
            }),
            e.fields.lineno == (match lineno {
                Some(l) => l,
                None => 0u32,
            }),
            e.fields.colno == (match colno {
                Some(c) => c,
                None => 0u32,
            }),
            e.error == error,
    {
        ErrorEvent {
            base: Event::new(ty, init),
            fields: ErrorEventFields::from_init(message, filename, lineno, colno),
            error,
        }
    }
}

} // verus!
