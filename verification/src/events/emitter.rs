//! The listener registry of an event target: which callbacks are registered for which event
//! type, in what order, and what a dispatch runs.
//!
//! Callbacks live in the script engine; here each is known by a handle that the engine side
//! hands in, equal handles standing for the same callback.
use vstd::prelude::*;

use crate::text::{owned, str_equals};

verus! {

/// A script callback: a function, or an object whose `handleEvent` method is called.
#[derive(Debug, Clone, Copy, PartialEq, Eq, Structural)]
pub enum EventCallback {
    Function(u64),
    Object(u64),
}

/// A registered listener: a script callback or a native one.
#[derive(Debug, Clone, Copy, PartialEq, Eq, Structural)]
pub enum Listener {
    Js(EventCallback),
    Native(u64),
}

/// The options of `addEventListener` that the registry keeps (`passive` is accepted and has no
/// effect; `signal` is handled by the caller).
#[derive(Debug, Clone, Copy, PartialEq, Eq, Structural)]
pub struct EventListenerOptions {
    pub capture: bool,
    pub once: bool,
    pub passive: bool,
}

impl EventListenerOptions {
    /// The defaults: all `false`.
    pub fn defaults() -> (r: EventListenerOptions)
        ensures
            !r.capture && !r.once && !r.passive,
    {
        EventListenerOptions { capture: false, once: false, passive: false }
    }

    /// The legacy boolean form: `addEventListener(type, cb, capture)`.
    pub fn from_capture(capture: bool) -> (r: EventListenerOptions)
        ensures
            r.capture == capture && !r.once && !r.passive,
    {
        EventListenerOptions { capture, once: false, passive: false }
    }
}

/// A registered entry.
pub struct EventItem {
    ty: String,
    callback: Listener,
    once: bool,
    capture: bool,
    handler: bool,
}

/// The view of a registered entry.
pub struct ItemView {
    pub ty: Seq<char>,
    pub callback: Listener,
    pub once: bool,
    pub capture: bool,
    /// Whether the entry backs an `onX` handler attribute.
    pub handler: bool,
}

/// The view of an entry.
spec fn item_view(it: EventItem) -> ItemView {
    ItemView { ty: it.ty@, callback: it.callback, once: it.once, capture: it.capture, handler: it.handler }
}

/// The view of a list of entries.
spec fn items_view(v: Seq<EventItem>) -> Seq<ItemView> {
    Seq::new(v.len(), |i: int| item_view(v[i]))
}

/// The entry is the listener `(ty, callback, capture)` registered by `addEventListener`.
pub open spec fn is_listener(it: ItemView, ty: Seq<char>, cb: EventCallback, capture: bool) -> bool {
    it.ty == ty && it.capture == capture && it.callback == Listener::Js(cb)
}

/// Entries that `removeEventListener(ty, cb, capture)` keeps.
pub open spec fn keep_unless_listener(ty: Seq<char>, cb: EventCallback, capture: bool) -> spec_fn(ItemView) -> bool {
    |it: ItemView| !is_listener(it, ty, cb, capture)
}

/// Entries that are not the `onX` handler for `ty`.
pub open spec fn keep_unless_handler(ty: Seq<char>) -> spec_fn(ItemView) -> bool {
    |it: ItemView| !(it.ty == ty && it.handler)
}

/// Entries that survive a dispatch of `ty`: all but the `once` entries for `ty`.
pub open spec fn keep_unless_once(ty: Seq<char>) -> spec_fn(ItemView) -> bool {
    |it: ItemView| !(it.ty == ty && it.once)
}

/// Entries for `ty`.
pub open spec fn for_type(ty: Seq<char>) -> spec_fn(ItemView) -> bool {
    |it: ItemView| it.ty == ty
}

/// The handler entry's function for `ty`: the first `onX` entry whose callback is a function.
pub open spec fn handler_function(s: Seq<ItemView>, ty: Seq<char>) -> Option<u64>
    decreases s.len(),
{
    if s.len() == 0 {
        None
    } else if s[0].ty == ty && s[0].handler && s[0].callback matches Listener::Js(EventCallback::Function(_)) {
        match s[0].callback {
            Listener::Js(EventCallback::Function(f)) => Some(f),
            _ => None,
        }
    } else {
        handler_function(s.drop_first(), ty)
    }
}

/// The callbacks a dispatch of `ty` runs, in registration order.
pub open spec fn dispatch_order(s: Seq<ItemView>, ty: Seq<char>) -> Seq<Listener> {
    s.filter(for_type(ty)).map_values(|it: ItemView| it.callback)
}

/// The listener registry of one event target.
pub struct EventList {
    items: Vec<EventItem>,
}

impl View for EventList {
    type V = Seq<ItemView>;

    closed spec fn view(&self) -> Seq<ItemView> {
        items_view(self.items@)
    }
}

proof fn lemma_items_view_push(v: Seq<EventItem>, it: EventItem)
    ensures
        items_view(v.push(it)) == items_view(v).push(item_view(it)),
{
    assert(items_view(v.push(it)) =~= items_view(v).push(item_view(it)));
}

proof fn lemma_filter_step(s: Seq<ItemView>, i: int, p: spec_fn(ItemView) -> bool)
    requires
        0 <= i < s.len(),
    ensures
        s.subrange(0, i + 1).filter(p) == if p(s[i]) {
            s.subrange(0, i).filter(p).push(s[i])
        } else {
            s.subrange(0, i).filter(p)
        },
{
    reveal(Seq::filter);
    assert(s.subrange(0, i + 1).drop_last() =~= s.subrange(0, i));
}

/// Entries of a type other than `ty`.
pub open spec fn other_type(ty: Seq<char>) -> spec_fn(ItemView) -> bool {
    |it: ItemView| it.ty != ty
}

proof fn lemma_filter_push(a: Seq<ItemView>, x: ItemView, q: spec_fn(ItemView) -> bool)
    ensures
        a.push(x).filter(q) == if q(x) {
            a.filter(q).push(x)
        } else {
            a.filter(q)
        },
{
    reveal(Seq::filter);
    assert(a.push(x).drop_last() =~= a);
}

/// Filtering by `p` and then by a stricter `q` is filtering by `q`.
proof fn lemma_filter_twice(s: Seq<ItemView>, p: spec_fn(ItemView) -> bool, q: spec_fn(ItemView) -> bool)
    requires
        forall|x: ItemView| #[trigger] q(x) ==> p(x),
    ensures
        s.filter(p).filter(q) == s.filter(q),
    decreases s.len(),
{
    reveal(Seq::filter);
    if s.len() > 0 {
        let a = s.drop_last();
        let x = s.last();
        lemma_filter_twice(a, p, q);
        assert(s =~= a.push(x));
        lemma_filter_push(a, x, p);
        lemma_filter_push(a, x, q);
        if p(x) {
            lemma_filter_push(a.filter(p), x, q);
        }
    }
}

/// A dispatch of `ty` touches only entries of type `ty`: dropping its `once` entries leaves
/// every entry of another type, in the same order.
pub proof fn dispatch_leaves_other_types(s: Seq<ItemView>, ty: Seq<char>)
    ensures
        s.filter(keep_unless_once(ty)).filter(other_type(ty)) == s.filter(other_type(ty)),
{
    lemma_filter_twice(s, keep_unless_once(ty), other_type(ty));
}

fn copy_item(it: &EventItem) -> (r: EventItem)
    ensures
        item_view(r) == item_view(*it),
{
    EventItem { ty: owned(it.ty.as_str()), callback: it.callback, once: it.once, capture: it.capture, handler: it.handler }
}

impl EventList {
    /// A registry with no entries.
    pub fn new() -> (r: EventList)
        ensures
            r@ == Seq::<ItemView>::empty(),
    {
        let r = EventList { items: Vec::new() };
        assert(r@ =~= Seq::<ItemView>::empty());
        r
    }

    fn push_item(&mut self, it: EventItem)
        ensures
            final(self)@ == old(self)@.push(item_view(it)),
    {
        proof {
            lemma_items_view_push(self.items@, it);
        }
        self.items.push(it);
    }

    /// Keeps, in order, the entries that the pass `mode` does not drop.
    fn retain_items(&mut self, ty: &str, mode: RetainMode, cb: EventCallback, capture: bool)
        ensures
            final(self)@ == old(self)@.filter(mode_pred(mode, ty@, cb, capture)),
    {
        let ghost s = self@;
        let ghost p = mode_pred(mode, ty@, cb, capture);
        let mut out: Vec<EventItem> = Vec::new();
        let mut i: usize = 0;
        assert(s.subrange(0, 0).filter(p) =~= Seq::<ItemView>::empty()) by {
            reveal(Seq::filter);
        }
        assert(items_view(out@) =~= Seq::<ItemView>::empty());
        while i < self.items.len()
            invariant
                s == items_view(self.items@),
                p == mode_pred(mode, ty@, cb, capture),
                i <= s.len(),
                items_view(out@) == s.subrange(0, i as int).filter(p),
            decreases self.items.len() - i,
        {
            let it = &self.items[i];
            let same_ty = str_equals(it.ty.as_str(), ty);
            let keep = match mode {
                RetainMode::Listener => !(same_ty && it.capture == capture && it.callback == Listener::Js(cb)),
                RetainMode::Handler => !(same_ty && it.handler),
                RetainMode::Once => !(same_ty && it.once),
            };
            proof {
                lemma_filter_step(s, i as int, p);
                assert(s[i as int] == item_view(*it));
            }
            if keep {
                let c = copy_item(it);
                proof {
                    lemma_items_view_push(out@, c);
                }
                out.push(c);
            }
            i = i + 1;
        }
        assert(s.subrange(0, s.len() as int) =~= s);
        self.items = out;
    }

    /// `addEventListener(ty, cb, options)`, with `signal_aborted` telling whether the given
    /// signal has already aborted. Nothing is added when it has, or when the same `(ty, cb,
    /// capture)` listener is already registered; otherwise the listener is appended. Returns
    /// whether it was added.
    pub fn add_event_listener_native(&mut self, ty: &str, cb: EventCallback, options: EventListenerOptions, signal_aborted: bool) -> (added: bool)
        ensures
            added == (!signal_aborted && !(exists|i: int|
                0 <= i < old(self)@.len() && is_listener(#[trigger] old(self)@[i], ty@, cb, options.capture))),
            added ==> final(self)@ == old(self)@.push(
                ItemView { ty: ty@, callback: Listener::Js(cb), once: options.once, capture: options.capture, handler: false },
            ),
            !added ==> final(self)@ == old(self)@,
    {
        if signal_aborted {
            return false;
        }
        let ghost s = self@;
        let mut i: usize = 0;
        while i < self.items.len()
            invariant
                s == items_view(self.items@),
                i <= s.len(),
                forall|j: int| 0 <= j < i ==> !is_listener(#[trigger] s[j], ty@, cb, options.capture),
            decreases self.items.len() - i,
        {
            let it = &self.items[i];
            if str_equals(it.ty.as_str(), ty) && it.capture == options.capture && it.callback == Listener::Js(cb) {
                assert(is_listener(old(self)@[i as int], ty@, cb, options.capture));
                return false;
            }
            i = i + 1;
        }
        self.push_item(
            EventItem { ty: owned(ty), callback: Listener::Js(cb), once: options.once, capture: options.capture, handler: false },
        );
        true
    }

    /// `removeEventListener(ty, cb, capture)`: removes the matching listener.
    pub fn remove_event_listener_native(&mut self, ty: &str, cb: EventCallback, capture: bool)
        ensures
            final(self)@ == old(self)@.filter(keep_unless_listener(ty@, cb, capture)),
    {
        self.retain_items(ty, RetainMode::Listener, cb, capture);
        proof {
            assert(mode_pred(RetainMode::Listener, ty@, cb, capture) == keep_unless_listener(ty@, cb, capture));
        }
    }

    /// Registers a native listener for `ty`, after the existing ones.
    pub fn add_native_listener(&mut self, ty: &str, id: u64)
        ensures
            final(self)@ == old(self)@.push(
                ItemView { ty: ty@, callback: Listener::Native(id), once: false, capture: false, handler: false },
            ),
    {
        self.push_item(EventItem { ty: owned(ty), callback: Listener::Native(id), once: false, capture: false, handler: false });
    }

    /// Sets (with `Some`) or clears (with `None`) the `onX` handler for `ty`: the previous
    /// handler entry is removed and the new one, if any, is appended.
    pub fn set_handler(&mut self, ty: &str, cb: Option<EventCallback>)
        ensures
            final(self)@ == match cb {
                Some(c) => old(self)@.filter(keep_unless_handler(ty@)).push(
                    ItemView { ty: ty@, callback: Listener::Js(c), once: false, capture: false, handler: true },
                ),
                None => old(self)@.filter(keep_unless_handler(ty@)),
            },
    {
        self.retain_items(ty, RetainMode::Handler, EventCallback::Function(0), false);
        proof {
            assert(mode_pred(RetainMode::Handler, ty@, EventCallback::Function(0), false) == keep_unless_handler(ty@));
        }
        match cb {
            Some(c) => {
                self.push_item(EventItem { ty: owned(ty), callback: Listener::Js(c), once: false, capture: false, handler: true });
            },
            None => {},
        }
    }

    /// The function assigned to the `onX` handler for `ty`, if any.
    pub fn get_handler_function(&self, ty: &str) -> (r: Option<u64>)
        ensures
            r == handler_function(self@, ty@),
    {
        let ghost s = self@;
        let mut i: usize = 0;
        assert(s.skip(0) =~= s);
        while i < self.items.len()
            invariant
                s == items_view(self.items@),
                i <= s.len(),
                handler_function(s, ty@) == handler_function(s.skip(i as int), ty@),
            decreases self.items.len() - i,
        {
            let it = &self.items[i];
            assert(s.skip(i as int)[0] == item_view(*it));
            if it.handler && str_equals(it.ty.as_str(), ty) {
                match it.callback {
                    Listener::Js(EventCallback::Function(f)) => {
                        return Some(f);
                    },
                    _ => {},
                }
            }
            assert(s.skip(i as int).drop_first() =~= s.skip(i + 1));
            i = i + 1;
        }
        None
    }

    /// Starts a dispatch of `ty`: the callbacks registered for `ty` at this moment, in order;
    /// the `once` entries for `ty` are removed before any of them runs.
    pub fn begin_dispatch(&mut self, ty: &str) -> (r: Vec<Listener>)
        ensures
            r@ == dispatch_order(old(self)@, ty@),
            final(self)@ == old(self)@.filter(keep_unless_once(ty@)),
            final(self)@.filter(other_type(ty@)) == old(self)@.filter(other_type(ty@)),
    {
        let ghost s = self@;
        let ghost p = for_type(ty@);
        let mut out: Vec<Listener> = Vec::new();
        let mut i: usize = 0;
        assert(s.subrange(0, 0).filter(p) =~= Seq::<ItemView>::empty()) by {
            reveal(Seq::filter);
        }
        while i < self.items.len()
            invariant
                s == items_view(self.items@),
                p == for_type(ty@),
                i <= s.len(),
                out@ == s.subrange(0, i as int).filter(p).map_values(|it: ItemView| it.callback),
            decreases self.items.len() - i,
        {
            let it = &self.items[i];
            proof {
                lemma_filter_step(s, i as int, p);
                assert(s[i as int] == item_view(*it));
            }
            if str_equals(it.ty.as_str(), ty) {
                out.push(it.callback);
            }
            i = i + 1;
            assert(out@ =~= s.subrange(0, i as int).filter(p).map_values(|it: ItemView| it.callback));
        }
        assert(s.subrange(0, s.len() as int) =~= s);
        self.retain_items(ty, RetainMode::Once, EventCallback::Function(0), false);
        proof {
            assert(mode_pred(RetainMode::Once, ty@, EventCallback::Function(0), false) == keep_unless_once(ty@));
            dispatch_leaves_other_types(s, ty@);
        }
        out
    }
}

/// Which entries a pass over the registry drops.
enum RetainMode {
    Listener,
    Handler,
    Once,
}

spec fn mode_pred(mode: RetainMode, ty: Seq<char>, cb: EventCallback, capture: bool) -> spec_fn(ItemView) -> bool {
    match mode {
        RetainMode::Listener => keep_unless_listener(ty, cb, capture),
        RetainMode::Handler => keep_unless_handler(ty),
        RetainMode::Once => keep_unless_once(ty),
    }
}

/// A dispatch in progress: the callbacks still to run.
pub struct Dispatch {
    order: Vec<Listener>,
    next: usize,
    done: bool,
}

impl Dispatch {
    /// A dispatch over these callbacks, in order.
    pub fn new(order: Vec<Listener>) -> (d: Dispatch)
        ensures
            d.remaining() == order@,
    {
        let d = Dispatch { order, next: 0, done: false };
        assert(d.order@.skip(0) =~= d.order@);
        d
    }

    /// The callbacks still to run.
    pub closed spec fn remaining(&self) -> Seq<Listener> {
        if self.done || self.next > self.order@.len() {
            Seq::empty()
        } else {
            self.order@.skip(self.next as int)
        }
    }

    /// The next callback to run, given whether the event asked to stop immediate propagation:
    /// none once it has, or when every callback ran.
    pub fn next_listener(&mut self, stop_requested: bool) -> (r: Option<Listener>)
        ensures
            stop_requested ==> r is None && final(self).remaining() == Seq::<Listener>::empty(),
            !stop_requested ==> match r {
                Some(l) => old(self).remaining().len() > 0 && l == old(self).remaining()[0]
                    && final(self).remaining() == old(self).remaining().drop_first(),
                None => old(self).remaining().len() == 0 && final(self).remaining() == old(self).remaining(),
            },
    {
        if stop_requested {
            self.done = true;
            return None;
        }
        if self.done || self.next >= self.order.len() {
            return None;
        }
        let l = self.order[self.next];
        let ghost before = self.order@.skip(self.next as int);
        self.next = self.next + 1;
        assert(self.order@.skip(self.next as int) =~= before.drop_first());
        Some(l)
    }
}

/// Registering a listener makes it registered: adding the same `(ty, cb, capture)` again is a
/// no-op.
pub proof fn lemma_added_listener_is_registered(s: Seq<ItemView>, ty: Seq<char>, cb: EventCallback, options: EventListenerOptions)
    ensures
        ({
            let t = s.push(
                ItemView { ty: ty, callback: Listener::Js(cb), once: options.once, capture: options.capture, handler: false },
            );
            exists|i: int| 0 <= i < t.len() && is_listener(#[trigger] t[i], ty, cb, options.capture)
        }),
{
    let t = s.push(
        ItemView { ty: ty, callback: Listener::Js(cb), once: options.once, capture: options.capture, handler: false },
    );
    assert(is_listener(t[s.len() as int], ty, cb, options.capture));
}

/// After `removeEventListener(ty, cb, capture)` that listener is no longer registered, and a
/// dispatch of `ty` no longer runs it from that registration.
pub proof fn lemma_removed_listener_is_gone(s: Seq<ItemView>, ty: Seq<char>, cb: EventCallback, capture: bool, i: int)
    requires
        0 <= i < s.filter(keep_unless_listener(ty, cb, capture)).len(),
    ensures
        !is_listener(s.filter(keep_unless_listener(ty, cb, capture))[i], ty, cb, capture),
{
    s.lemma_filter_pred(keep_unless_listener(ty, cb, capture), i);
}

/// A `once` listener for `ty` is gone once a dispatch of `ty` started.
pub proof fn lemma_once_listeners_removed_by_dispatch(s: Seq<ItemView>, ty: Seq<char>, i: int)
    requires
        0 <= i < s.filter(keep_unless_once(ty)).len(),
    ensures
        !(s.filter(keep_unless_once(ty))[i].ty == ty && s.filter(keep_unless_once(ty))[i].once),
{
    s.lemma_filter_pred(keep_unless_once(ty), i);
}

/// Setting the `onX` handler to `g` makes the handler read back as `g`.
pub proof fn lemma_set_handler_reads_back(s: Seq<ItemView>, ty: Seq<char>, g: u64)
    ensures
        handler_function(
            s.filter(keep_unless_handler(ty)).push(
                ItemView { ty: ty, callback: Listener::Js(EventCallback::Function(g)), once: false, capture: false, handler: true },
            ),
            ty,
        ) == Some(g),
{
    let t = s.filter(keep_unless_handler(ty));
    assert forall|i: int| 0 <= i < t.len() implies !(#[trigger] t[i].ty == ty && t[i].handler) by {
        s.lemma_filter_pred(keep_unless_handler(ty), i);
    }
    lemma_handler_after_clean(
        t,
        ItemView { ty: ty, callback: Listener::Js(EventCallback::Function(g)), once: false, capture: false, handler: true },
        ty,
    );
}

/// Clearing the `onX` handler makes it read back as none.
pub proof fn lemma_cleared_handler_reads_none(s: Seq<ItemView>, ty: Seq<char>)
    ensures
        handler_function(s.filter(keep_unless_handler(ty)), ty) is None,
{
    let t = s.filter(keep_unless_handler(ty));
    assert forall|i: int| 0 <= i < t.len() implies !(#[trigger] t[i].ty == ty && t[i].handler) by {
        s.lemma_filter_pred(keep_unless_handler(ty), i);
    }
    lemma_no_handler(t, ty);
}

proof fn lemma_no_handler(t: Seq<ItemView>, ty: Seq<char>)
    requires
        forall|i: int| 0 <= i < t.len() ==> !(#[trigger] t[i].ty == ty && t[i].handler),
    ensures
        handler_function(t, ty) is None,
    decreases t.len(),
{
    if t.len() > 0 {
        assert(!(t[0].ty == ty && t[0].handler));
        assert forall|i: int| 0 <= i < t.drop_first().len() implies !(#[trigger] t.drop_first()[i].ty == ty
            && t.drop_first()[i].handler) by {
            assert(!(t[i + 1].ty == ty && t[i + 1].handler));
        }
        lemma_no_handler(t.drop_first(), ty);
    }
}

proof fn lemma_handler_after_clean(t: Seq<ItemView>, h: ItemView, ty: Seq<char>)
    requires
        forall|i: int| 0 <= i < t.len() ==> !(#[trigger] t[i].ty == ty && t[i].handler),
    ensures
        handler_function(t.push(h), ty) == handler_function(seq![h], ty),
    decreases t.len(),
{
    if t.len() > 0 {
        assert(!(t[0].ty == ty && t[0].handler));
        assert(t.push(h).drop_first() =~= t.drop_first().push(h));
        assert forall|i: int| 0 <= i < t.drop_first().len() implies !(#[trigger] t.drop_first()[i].ty == ty
            && t.drop_first()[i].handler) by {
            assert(!(t[i + 1].ty == ty && t[i + 1].handler));
        }
        lemma_handler_after_clean(t.drop_first(), h, ty);
    } else {
        assert(t.push(h) =~= seq![h]);
    }
}

} // verus!
