use screencapturekit::recording_output::{lookup_delegate, remove_delegate};
use screencapturekit::registry::CallbackRegistry;
use screencapturekit::content_sharing_picker::{observer_delivers, SCPickerEvent, SCPickerFilterOutcome};
use std::sync::atomic::{AtomicBool, AtomicUsize, Ordering};
use std::sync::Arc;

#[test]
fn duplicate_one_shot_callback_is_ignored_after_context_drop() {
    let calls = Arc::new(AtomicUsize::new(0));
    let observed = Arc::clone(&calls);
    let mut registry: CallbackRegistry<Box<dyn FnOnce(SCPickerFilterOutcome<u8>)>> = CallbackRegistry::new();
    let context = registry.insert(Box::new(move |_| {
        observed.fetch_add(1, Ordering::SeqCst);
    }));

    // The bridge fires the completion twice; each firing takes the context
    // out of the registry, so only the first finds it.
    for _ in 0..2 {
        let outcome = SCPickerFilterOutcome::<u8>::decode(0, None);
        if let Some(callback) = registry.remove(context) {
            callback(outcome);
        }
    }

    assert_eq!(calls.load(Ordering::SeqCst), 1);
}

#[test]
fn released_repeating_observer_ignores_late_callback() {
    type Handler = Box<dyn Fn(SCPickerEvent<u8, u8>)>;
    let calls = Arc::new(AtomicUsize::new(0));
    let observed = Arc::clone(&calls);
    let active = Arc::new(AtomicBool::new(true));
    let mut registry: CallbackRegistry<(Handler, Arc<AtomicBool>)> = CallbackRegistry::new();
    let handler: Handler = Box::new(move |_| {
        observed.fetch_add(1, Ordering::SeqCst);
    });
    let context = registry.insert((handler, Arc::clone(&active)));

    // The context release removes the context and clears its flag.
    if let Some((_, flag)) = registry.remove(context) {
        flag.store(false, Ordering::Release);
    }
    // A late cancellation finds no live context and is dropped.
    let found = registry.get(context);
    let live = found.map_or(false, |(_, flag)| flag.load(Ordering::Acquire));
    if observer_delivers(found.is_some(), live) {
        if let Some((handler, _)) = found {
            handler(SCPickerEvent::decode(0, None, None, None));
        }
    }

    assert_eq!(calls.load(Ordering::SeqCst), 0);
    assert!(!active.load(Ordering::Acquire));
}

#[test]
fn repeating_observer_preserves_stream_identity() {
    type Handler = Box<dyn Fn(SCPickerEvent<u8, u8>)>;
    let seen = Arc::new(AtomicUsize::new(0));
    let output = Arc::clone(&seen);
    let mut registry: CallbackRegistry<(Handler, Arc<AtomicBool>)> = CallbackRegistry::new();
    let handler: Handler = Box::new(move |event| {
        if let SCPickerEvent::Cancelled { stream: Some(s) } = event {
            output.store(usize::from(s), Ordering::SeqCst);
        }
    });
    let context = registry.insert((handler, Arc::new(AtomicBool::new(true))));
    let found = registry.get(context);
    let live = found.map_or(false, |(_, flag)| flag.load(Ordering::Acquire));
    assert!(observer_delivers(found.is_some(), live));
    if let Some((handler, _)) = found {
        handler(SCPickerEvent::decode(0, None, None, Some(42)));
    }
    assert_eq!(seen.load(Ordering::SeqCst), 42);
}

#[test]
fn ids_are_nonzero_and_distinct() {
    let mut registry: CallbackRegistry<u8> = CallbackRegistry::new();
    let a = registry.insert(1);
    let b = registry.insert(2);
    let c = registry.insert(3);
    assert!(a != 0 && b != 0 && c != 0);
    assert!(a != b && b != c && a != c);
    assert_eq!(registry.len(), 3);
    assert_eq!(registry.get(b), Some(&2));
    assert_eq!(registry.remove(b), Some(2));
    assert_eq!(registry.get(b), None);
    assert_eq!(registry.len(), 2);
}

#[test]
fn delegate_lookup_and_removal() {
    let mut registry: CallbackRegistry<&'static str> = CallbackRegistry::new();
    let id = registry.insert("delegate");
    assert_eq!(lookup_delegate(&registry, id), Some(&"delegate"));
    assert_eq!(lookup_delegate(&registry, id + 1), None);
    assert_eq!(remove_delegate(&mut registry, id), Some("delegate"));
    assert_eq!(remove_delegate(&mut registry, id), None);
    assert_eq!(lookup_delegate(&registry, id), None);
}
