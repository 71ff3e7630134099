use klaver_wintertc::channel::MessagePort;
use klaver_wintertc::events::abort::{AbortController, AbortReason, AbortSignal};
use klaver_wintertc::events::emitter::{Dispatch, EventList, EventCallback, Listener, EventListenerOptions};
use klaver_wintertc::events::event::{CustomEvent, ErrorEvent, ErrorEventFields, Event, EventInit};

fn s(x: &str) -> String {
    x.to_string()
}

fn opts() -> EventListenerOptions {
    EventListenerOptions::defaults()
}

/// Dispatches `event` on `list`, running `call` for each listener in order (stopping when the
/// event asks to), and returns what `dispatchEvent` returns.
fn fire(list: &mut EventList, event: &mut Event, call: &mut dyn FnMut(Listener, &mut Event)) -> bool {
    let order = list.begin_dispatch(&event.ty());
    let mut run = Dispatch::new(order);
    while let Some(l) = run.next_listener(event.stop_immediate_requested()) {
        call(l, event);
    }
    event.dispatch_result()
}

fn plain(ty: &str) -> Event {
    Event::new(s(ty), None)
}

#[test]
fn listeners_run_synchronously() {
    let mut t = EventList::new();
    let mut called = false;
    t.add_event_listener_native("x", EventCallback::Function(1), opts(), false);
    fire(&mut t, &mut plain("x"), &mut |_, _| called = true);
    assert!(called);
}

#[test]
fn dispatch_event_returns_true_when_not_cancelled() {
    let mut t = EventList::new();
    t.add_event_listener_native("x", EventCallback::Function(1), opts(), false);
    assert!(fire(&mut t, &mut plain("x"), &mut |_, _| {}));
}

#[test]
fn prevent_default_makes_dispatch_event_return_false_when_cancelable() {
    let mut t = EventList::new();
    t.add_event_listener_native("x", EventCallback::Function(1), opts(), false);
    let init = EventInit { bubbles: false, cancelable: true, composed: false };
    let mut event = Event::new(s("x"), Some(init));
    let ret = fire(&mut t, &mut event, &mut |_, e| e.prevent_default());
    assert!(!ret);
    assert!(event.default_prevented());
}

#[test]
fn prevent_default_is_a_no_op_when_not_cancelable() {
    let mut t = EventList::new();
    t.add_event_listener_native("x", EventCallback::Function(1), opts(), false);
    let mut event = plain("x");
    let ret = fire(&mut t, &mut event, &mut |_, e| e.prevent_default());
    assert!(ret);
    assert!(!event.default_prevented());
}

#[test]
fn event_init_reflects_bubbles_cancelable_composed() {
    let event = Event::new(s("x"), Some(EventInit { bubbles: true, cancelable: true, composed: true }));
    assert!(event.bubbles());
    assert!(event.cancelable());
    assert!(event.composed());
    assert!(!event.is_trusted());
    let defaults = plain("y");
    assert!(!defaults.bubbles() && !defaults.cancelable() && !defaults.composed());
}

#[test]
fn duplicate_identical_listeners_are_a_no_op() {
    let mut t = EventList::new();
    let f = EventCallback::Function(7);
    assert!(t.add_event_listener_native("x", f, opts(), false));
    assert!(!t.add_event_listener_native("x", f, opts(), false));
    let mut n = 0;
    fire(&mut t, &mut plain("x"), &mut |_, _| n += 1);
    assert_eq!(n, 1);
}

#[test]
fn same_callback_with_different_capture_are_distinct_listeners() {
    let mut t = EventList::new();
    let f = EventCallback::Function(7);
    t.add_event_listener_native("x", f, EventListenerOptions::from_capture(false), false);
    t.add_event_listener_native("x", f, EventListenerOptions::from_capture(true), false);
    let mut n = 0;
    fire(&mut t, &mut plain("x"), &mut |_, _| n += 1);
    assert_eq!(n, 2);
}

#[test]
fn once_listener_is_removed_after_firing() {
    let mut t = EventList::new();
    let once = EventListenerOptions { capture: false, once: true, passive: false };
    t.add_event_listener_native("x", EventCallback::Function(1), once, false);
    let mut n = 0;
    fire(&mut t, &mut plain("x"), &mut |_, _| n += 1);
    fire(&mut t, &mut plain("x"), &mut |_, _| n += 1);
    assert_eq!(n, 1);
}

#[test]
fn remove_event_listener_removes_matching_callback() {
    let mut t = EventList::new();
    let f = EventCallback::Function(3);
    t.add_event_listener_native("x", f, opts(), false);
    t.remove_event_listener_native("x", f, false);
    let mut n = 0;
    fire(&mut t, &mut plain("x"), &mut |_, _| n += 1);
    assert_eq!(n, 0);
}

#[test]
fn event_listener_object_form_is_called_with_correct_this() {
    let mut t = EventList::new();
    let listener = EventCallback::Object(11);
    t.add_event_listener_native("x", listener, opts(), false);
    let mut seen = None;
    let mut seen_type = String::new();
    fire(&mut t, &mut plain("x"), &mut |l, e| {
        seen = Some(l);
        seen_type = e.ty();
    });
    assert_eq!(seen, Some(Listener::Js(EventCallback::Object(11))));
    assert_eq!(seen_type, "x");
}

#[test]
fn stop_immediate_propagation_stops_remaining_listeners() {
    let mut t = EventList::new();
    t.add_event_listener_native("x", EventCallback::Function(1), opts(), false);
    t.add_event_listener_native("x", EventCallback::Function(2), opts(), false);
    let mut order = Vec::new();
    fire(&mut t, &mut plain("x"), &mut |l, e| {
        if let Listener::Js(EventCallback::Function(id)) = l {
            order.push(id);
            if id == 1 {
                e.stop_immediate_propagation();
            }
        }
    });
    assert_eq!(order, vec![1]);
}

#[test]
fn a_throwing_listener_does_not_stop_others_or_propagate() {
    let mut t = EventList::new();
    t.add_event_listener_native("x", EventCallback::Function(1), opts(), false);
    t.add_event_listener_native("x", EventCallback::Function(2), opts(), false);
    let mut second_ran = false;
    let ret = fire(&mut t, &mut plain("x"), &mut |l, _| {
        // The first listener "throws": its error is reported and the dispatch goes on.
        let outcome: Result<(), &str> = if l == Listener::Js(EventCallback::Function(1)) { Err("boom") } else { Ok(()) };
        if outcome.is_ok() {
            second_ran = true;
        }
    });
    assert!(second_ran);
    assert!(ret);
}

#[test]
fn listener_can_add_and_remove_listeners_on_the_same_target_reentrantly() {
    let mut t = EventList::new();
    t.add_event_listener_native("x", EventCallback::Function(1), opts(), false);
    let order = t.begin_dispatch("x");
    let mut inner = 0;
    let mut run = Dispatch::new(order);
    let mut event = plain("x");
    while let Some(_) = run.next_listener(event.stop_immediate_requested()) {
        t.add_event_listener_native("y", EventCallback::Function(2), opts(), false);
        fire(&mut t, &mut plain("y"), &mut |_, _| inner += 1);
        t.remove_event_listener_native("y", EventCallback::Function(99), false);
    }
    assert!(event.dispatch_result());
    assert_eq!(inner, 1);
    event.stop_propagation();
}

#[test]
fn signal_option_skips_adding_an_already_aborted_listener() {
    let mut controller = AbortController::new();
    controller.abort(None);
    let mut t = EventList::new();
    let added = t.add_event_listener_native("x", EventCallback::Function(1), opts(), controller.signal().aborted());
    assert!(!added);
    let mut called = false;
    fire(&mut t, &mut plain("x"), &mut |_, _| called = true);
    assert!(!called);
}

#[test]
fn signal_option_removes_listener_once_aborted() {
    let mut controller = AbortController::new();
    let mut t = EventList::new();
    let f = EventCallback::Function(1);
    t.add_event_listener_native("x", f, opts(), controller.signal().aborted());
    // The signal gets a native listener that removes `f` from `t` when it fires.
    controller.signal_mut().listeners_mut().add_native_listener("abort", 500);

    let mut n = 0;
    fire(&mut t, &mut plain("x"), &mut |_, _| n += 1);
    assert_eq!(n, 1);

    let order = controller.abort(None).unwrap();
    for l in order {
        if l == Listener::Native(500) {
            t.remove_event_listener_native("x", f, false);
        }
    }
    fire(&mut t, &mut plain("x"), &mut |_, _| n += 1);
    assert_eq!(n, 1);
}

#[test]
fn subclassing_event_in_js_keeps_base_behavior() {
    let mut t = EventList::new();
    t.add_event_listener_native("custom", EventCallback::Function(1), opts(), false);
    let mut event = Event::new(s("custom"), Some(EventInit { bubbles: false, cancelable: true, composed: false }));
    let ret = fire(&mut t, &mut event, &mut |_, e| e.prevent_default());
    assert!(!ret);
    assert!(event.default_prevented());
}

#[test]
fn add_event_prototype_is_idempotent_across_contexts_on_the_same_runtime() {
    let mut event = Event::new(s("boom"), Some(EventInit { bubbles: true, cancelable: true, composed: false }));
    assert_eq!(event.ty(), "boom");
    assert!(event.bubbles());
    assert!(event.cancelable());
    event.prevent_default();
    assert!(event.default_prevented());
}

#[test]
fn onabort_fires_synchronously_exactly_once() {
    let mut controller = AbortController::new();
    controller.signal_mut().set_onabort(Some(1));
    let mut n = 0;
    for l in controller.abort(None).unwrap() {
        if l == Listener::Js(EventCallback::Function(1)) {
            n += 1;
        }
    }
    assert!(controller.abort(None).is_none());
    assert_eq!(n, 1);
}

#[test]
fn onabort_and_add_event_listener_both_fire() {
    let mut controller = AbortController::new();
    controller.signal_mut().set_onabort(Some(1));
    controller.signal_mut().listeners_mut().add_event_listener_native("abort", EventCallback::Function(2), opts(), false);
    let order = controller.abort(None).unwrap();
    assert_eq!(order, vec![Listener::Js(EventCallback::Function(1)), Listener::Js(EventCallback::Function(2))]);
}

#[test]
fn reassigning_onabort_replaces_the_previous_handler() {
    let mut controller = AbortController::new();
    controller.signal_mut().set_onabort(Some(1));
    controller.signal_mut().set_onabort(Some(2));
    let order = controller.abort(None).unwrap();
    assert_eq!(order, vec![Listener::Js(EventCallback::Function(2))]);
}

#[test]
fn clearing_onabort_with_null_removes_it() {
    let mut controller = AbortController::new();
    controller.signal_mut().set_onabort(Some(1));
    controller.signal_mut().set_onabort(None);
    let order = controller.abort(None).unwrap();
    assert!(order.is_empty());
    assert_eq!(controller.signal().onabort(), None);
}

#[test]
fn onabort_getter_reflects_currently_assigned_function() {
    let mut signal = AbortSignal::new();
    assert_eq!(signal.onabort(), None);
    signal.set_onabort(Some(42));
    assert_eq!(signal.onabort(), Some(42));
}

#[test]
fn abort_records_the_reason_once() {
    let mut controller = AbortController::new();
    assert!(controller.signal().throw_if_aborted().is_ok());
    assert!(controller.abort(Some(9)).is_some());
    assert_eq!(controller.signal().reason(), Some(AbortReason::Given(9)));
    assert!(controller.abort(None).is_none());
    assert_eq!(controller.signal().throw_if_aborted(), Err(AbortReason::Given(9)));

    let mut other = AbortSignal::new();
    other.abort(None);
    assert_eq!(other.reason(), Some(AbortReason::AbortError));
    assert!(other.aborted());
}

#[test]
fn init_custom_event_legacy_method_reinitializes_fields() {
    let mut event = CustomEvent::new(s("boom"), None, None);
    event.init_custom_event(s("bang"), Some(true), Some(true), Some(77));
    assert_eq!(event.base.ty(), "bang");
    assert!(event.base.bubbles());
    assert!(event.base.cancelable());
    assert_eq!(event.detail, Some(77));
    event.init_custom_event(s("b"), None, None, None);
    assert!(!event.base.bubbles() && !event.base.cancelable());
    assert_eq!(event.detail, None);
}

#[test]
fn reinit_keeps_the_other_state() {
    let mut event = plain("boom");
    event.stop_immediate_propagation();
    event.reinit(s("bang"), Some(true), None);
    assert_eq!(event.ty(), "bang");
    assert!(event.bubbles() && !event.cancelable());
    assert!(event.stop_immediate_requested());
}

#[test]
fn detail_defaults_to_null() {
    let event = CustomEvent::new(s("boom"), None, None);
    assert_eq!(event.detail, None);
    assert_eq!(event.base.ty(), "boom");
}

#[test]
fn fields_default_per_spec() {
    let event = ErrorEvent::new(s("error"), None, None, None, None, None, None);
    assert_eq!(event.base.ty(), "error");
    assert_eq!(event.fields.message, "");
    assert_eq!(event.fields.filename, "");
    assert_eq!(event.fields.lineno, 0);
    assert_eq!(event.fields.colno, 0);
    assert_eq!(event.error, None);
    let bare = ErrorEventFields::from_init(None, None, None, None);
    assert_eq!(bare.message, "");
}

#[test]
fn fields_are_set_from_init() {
    let init = EventInit { bubbles: true, cancelable: false, composed: false };
    let event = ErrorEvent::new(
        s("error"),
        Some(init),
        Some(s("bad things happened")),
        Some(s("app.js")),
        Some(42),
        Some(7),
        Some(5),
    );
    assert_eq!(event.fields.message, "bad things happened");
    assert_eq!(event.fields.filename, "app.js");
    assert_eq!(event.fields.lineno, 42);
    assert_eq!(event.fields.colno, 7);
    assert_eq!(event.error, Some(5));
    assert!(event.base.bubbles());
}

#[test]
fn message_event_inherits_base_event_behavior() {
    let mut event = Event::new(s("message"), Some(EventInit { bubbles: false, cancelable: true, composed: false }));
    assert_eq!(event.ty(), "message");
    event.prevent_default();
    assert!(event.default_prevented());
}

#[test]
fn onmessage_fires_synchronously_with_correct_this() {
    let mut port = MessagePort::create();
    port.set_onmessage(Some(5));
    let mut seen = Vec::new();
    fire(port.listeners_mut(), &mut plain("message"), &mut |l, _| seen.push(l));
    assert_eq!(seen, vec![Listener::Js(EventCallback::Function(5))]);
}

#[test]
fn onmessage_and_add_event_listener_both_fire() {
    let mut port = MessagePort::create();
    port.set_onmessage(Some(1));
    port.listeners_mut().add_event_listener_native("message", EventCallback::Function(2), opts(), false);
    let mut order = Vec::new();
    fire(port.listeners_mut(), &mut plain("message"), &mut |l, _| order.push(l));
    assert_eq!(order, vec![Listener::Js(EventCallback::Function(1)), Listener::Js(EventCallback::Function(2))]);
}

#[test]
fn reassigning_onmessage_replaces_the_previous_handler() {
    let mut port = MessagePort::create();
    port.set_onmessage(Some(1));
    port.set_onmessage(Some(2));
    let mut order = Vec::new();
    fire(port.listeners_mut(), &mut plain("message"), &mut |l, _| order.push(l));
    assert_eq!(order, vec![Listener::Js(EventCallback::Function(2))]);
}

#[test]
fn onmessage_getter_reflects_currently_assigned_function_and_clears() {
    let mut port = MessagePort::create();
    assert_eq!(port.get_onmessage(), None);
    port.set_onmessage(Some(8));
    assert_eq!(port.get_onmessage(), Some(8));
    port.set_onmessage(None);
    assert_eq!(port.get_onmessage(), None);
    let mut called = false;
    fire(port.listeners_mut(), &mut plain("message"), &mut |_, _| called = true);
    assert!(!called);
}

#[test]
fn detail_and_event_init_fields_are_set() {
    let event = CustomEvent::new(s("boom"), Some(EventInit { bubbles: true, cancelable: true, composed: false }), Some(1));
    assert_eq!(event.detail, Some(1));
    assert!(event.base.bubbles());
    assert!(event.base.cancelable());
}

#[test]
fn dispatches_through_event_target_with_detail_intact() {
    let mut target = EventList::new();
    target.add_event_listener_native("boom", EventCallback::Function(1), opts(), false);
    let mut event = CustomEvent::new(s("boom"), None, Some(42));
    let mut seen_type = String::new();
    fire(&mut target, &mut event.base, &mut |_, e| seen_type = e.ty());
    assert_eq!(seen_type, "boom");
    assert_eq!(event.detail, Some(42));
}

#[test]
fn dispatches_through_event_target() {
    let mut target = EventList::new();
    target.add_event_listener_native("error", EventCallback::Function(1), opts(), false);
    let mut n = 0;
    fire(&mut target, &mut plain("error"), &mut |_, _| n += 1);
    assert_eq!(n, 1);
}

#[test]
fn listeners_of_other_types_do_not_run() {
    let mut target = EventList::new();
    target.add_event_listener_native("a", EventCallback::Function(1), opts(), false);
    target.add_native_listener("b", 2);
    let mut seen = Vec::new();
    fire(&mut target, &mut plain("b"), &mut |l, _| seen.push(l));
    assert_eq!(seen, vec![Listener::Native(2)]);
}
