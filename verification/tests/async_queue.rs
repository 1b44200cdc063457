use screencapturekit::async_api::recording::{
    allocate_recording_waiter, new_recording_state, poll_next_recording_event,
    push_recording_event, unregister_recording_waiter, AsyncSCRecordingOutput, RecordingEvent,
};
use screencapturekit::async_api::stream::{
    allocate_sample_waiter, begin_start, classify_start_completion, finish_start, finish_stop, close_sample_state, new_sample_state,
    poll_next_sample, record_stop_error, reopen_sample_state, sample_state_has_error,
    sample_state_is_closed, sample_state_is_stopped, sample_waiter_count,
    unregister_sample_waiter, AsyncSampleSender, AsyncStreamDelegate, SharedSampleState,
    StartCompletion, StartRequest,
};
use screencapturekit::async_api::waiters::QueuePoll;
use screencapturekit::async_api::{completion_outcome, AsyncSCShareableContent, AsyncSCStream};
use std::task::Waker;

type State = SharedSampleState<u32, u8, String>;

fn idle_state() -> (State, AsyncSampleSender<u32, u8, String>) {
    let state: State = new_sample_state(1).0;
    let (sender, _) = AsyncSampleSender::new(&state);
    (state, sender)
}

#[test]
fn dropped_sample_future_unregisters_its_waker() {
    let (state, _sender) = idle_state();
    let stream = AsyncSCStream::new((), state.clone());
    let future = stream.next();
    let waker = Waker::noop().clone();

    assert!(matches!(future.poll(waker).0, QueuePoll::Pending));
    assert_eq!(sample_waiter_count(&state).0, 1);
    // Dropping the future cancels it.
    future.cancel();
    assert_eq!(sample_waiter_count(&state).0, 0);
}

#[test]
fn typed_requests_and_streams_share_the_queue() {
    let (state, sender) = idle_state();
    let stream = AsyncSCStream::new((), state.clone());
    let typed = stream.next_typed();
    let frames = stream.frames();
    let typed_frames = stream.frames_typed();
    assert!(matches!(typed.poll(Waker::noop().clone()).0, QueuePoll::Pending));
    assert!(matches!(frames.poll_next(Waker::noop().clone()).0, QueuePoll::Pending));
    assert_eq!(sample_waiter_count(&state).0, 2);
    sender.did_output_sample_buffer(4, 2);
    assert_eq!(sample_waiter_count(&state).0, 0);
    assert!(matches!(typed_frames.poll_next(Waker::noop().clone()).0, QueuePoll::Ready(Some((4, 2)))));
    sender.release();
    assert!(matches!(frames.poll_next(Waker::noop().clone()).0, QueuePoll::Ready(None)));
    typed.cancel();
    frames.cancel();
    typed_frames.cancel();
    let direct = allocate_sample_waiter(&state).0.unwrap();
    assert!(matches!(poll_next_sample(&state, direct, Waker::noop().clone()).0, QueuePoll::Ready(None)));
    unregister_sample_waiter(&state, direct);
}

#[test]
fn failed_start_closes_the_queue_but_a_retry_reopens_it() {
    let (state, _sender) = idle_state();
    close_sample_state(&state, Some("denied".to_string()), false);
    assert!(sample_state_is_closed(&state).0);

    reopen_sample_state(&state);

    let (closed, stale_error) = (sample_state_is_closed(&state).0, sample_state_has_error(&state).0);
    assert!(!closed, "a retry must not see a permanently closed queue");
    assert!(!stale_error, "the stale error must not survive");
}

#[test]
fn reopen_refuses_once_stop_capture_has_succeeded() {
    let (state, _sender) = idle_state();
    close_sample_state(&state, None, true);

    reopen_sample_state(&state);

    let closed = sample_state_is_closed(&state).0;
    assert!(closed, "a stopped SCStream cannot be restarted");
    assert!(sample_state_is_stopped(&state).0);
}

#[test]
fn lossy_queue_keeps_the_newest_samples() {
    let state: State = new_sample_state(2).0;
    let (sender, _) = AsyncSampleSender::new(&state);
    let stream = AsyncSCStream::new((), state.clone());
    sender.did_output_sample_buffer(1, 0);
    sender.did_output_sample_buffer(2, 0);
    sender.did_output_sample_buffer(3, 1);
    assert_eq!(stream.buffered_count().0, 2);
    assert_eq!(stream.try_next().0, Some(2));
    assert_eq!(stream.try_next_typed().0, Some((3, 1)));
    assert_eq!(stream.try_next().0, None);
    assert!(!stream.is_closed().0);
}

#[test]
fn zero_capacity_is_treated_as_one() {
    let state: State = new_sample_state(0).0;
    let (sender, _) = AsyncSampleSender::new(&state);
    let stream = AsyncSCStream::new((), state.clone());
    sender.did_output_sample_buffer(5, 0);
    sender.did_output_sample_buffer(6, 0);
    assert_eq!(stream.buffered_count().0, 1);
    assert_eq!(stream.try_next().0, Some(6));
}

#[test]
fn last_sender_release_closes_and_buffered_samples_drain() {
    let state: State = new_sample_state(4).0;
    let (a, _) = AsyncSampleSender::new(&state);
    let (b, _) = AsyncSampleSender::new(&state);
    a.did_output_sample_buffer(7, 0);
    a.release();
    assert!(!sample_state_is_closed(&state).0);
    b.release();
    assert!(sample_state_is_closed(&state).0);
    let waiter = allocate_sample_waiter(&state).0.unwrap();
    match poll_next_sample(&state, waiter, Waker::noop().clone()).0 {
        QueuePoll::Ready(Some((7, 0))) => {}
        _ => panic!("the buffered sample must drain first"),
    }
    assert!(matches!(
        poll_next_sample(&state, waiter, Waker::noop().clone()).0,
        QueuePoll::Ready(None)
    ));
}

#[test]
fn delegate_error_is_kept_until_taken() {
    let (state, _sender) = idle_state();
    let stream = AsyncSCStream::new("handle", state.clone());
    let delegate = AsyncStreamDelegate::new(&state);
    delegate.did_stop_with_error("lost".to_string());
    assert!(stream.is_closed().0);
    assert!(!stream.refuses_restart().0);
    assert_eq!(stream.take_error().0, Some("lost".to_string()));
    assert_eq!(stream.take_error().0, None);
    assert_eq!(*stream.inner(), "handle");
}

#[test]
fn recorded_stop_error_and_clear_buffer() {
    let (state, sender) = idle_state();
    let stream = AsyncSCStream::new((), state.clone());
    record_stop_error(&state, "no handler".to_string());
    assert!(sample_state_has_error(&state).0);
    sender.did_output_sample_buffer(9, 0);
    stream.clear_buffer();
    assert_eq!(stream.buffered_count().0, 0);
}

#[test]
fn start_completion_is_classified() {
    assert_eq!(classify_start_completion(Ok(()), false), StartCompletion::Started);
    assert_eq!(classify_start_completion(Err("timeout".to_string()), true), StartCompletion::Unconfirmed);
    assert_eq!(
        classify_start_completion(Err("denied".to_string()), false),
        StartCompletion::Failed("denied".to_string())
    );
}

#[test]
fn completion_outcome_prefers_the_error() {
    assert_eq!(completion_outcome(Some("boom".to_string()), Some(1)), Err("boom".to_string()));
    assert_eq!(completion_outcome::<u8>(None, Some(1)), Ok(1));
    assert_eq!(completion_outcome::<u8>(None, None), Err("Unknown error".to_string()));
}

#[test]
fn recording_events_arrive_in_order_and_end_the_stream() {
    let (state, _) = new_recording_state();
    let output = AsyncSCRecordingOutput::new(state.clone());
    let next = output.next();
    assert!(matches!(next.poll(Waker::noop().clone()).0, QueuePoll::Pending));
    next.cancel();
    let waiter = allocate_recording_waiter(&state).0.unwrap();
    assert!(matches!(
        poll_next_recording_event(&state, waiter, Waker::noop().clone()).0,
        QueuePoll::Pending
    ));
    unregister_recording_waiter(&state, waiter);
    push_recording_event(&state, Some(RecordingEvent::Started));
    assert!(!output.is_finished().0);
    push_recording_event(&state, Some(RecordingEvent::Failed("disk full".to_string())));
    assert!(output.is_finished().0);
    let events = output.events();
    assert!(matches!(events.poll_next(Waker::noop().clone()).0, QueuePoll::Ready(Some(RecordingEvent::Started))));
    assert_eq!(output.try_next().0, Some(RecordingEvent::Failed("disk full".to_string())));
    assert_eq!(output.try_next().0, None);
    assert!(matches!(events.poll_next(Waker::noop().clone()).0, QueuePoll::Ready(None)));
    events.cancel();
}

#[test]
fn async_content_options_start_off() {
    let o = AsyncSCShareableContent::create();
    assert!(!o.exclude_desktop_windows());
    assert!(!o.on_screen_windows_only());
    let o = o.with_exclude_desktop_windows(true).with_on_screen_windows_only(true);
    assert!(o.exclude_desktop_windows());
    assert!(o.on_screen_windows_only());
}

#[test]
fn start_is_refused_after_a_stop_and_reopens_after_a_failure() {
    let (state, _sender) = idle_state();
    let stream = AsyncSCStream::new((), state.clone());

    // A first start is issued and reopens the queue.
    assert_eq!(begin_start(&stream, || true).0, StartRequest::Issue);
    // A start that is already claimed counts as started.
    assert_eq!(begin_start(&stream, || false).0, StartRequest::AlreadyStarted);

    // A failed start closes the queue with its error.
    let (c, _) = finish_start(&state, Err("denied".to_string()), false, "start failed: denied".to_string());
    assert_eq!(c, StartCompletion::Failed("denied".to_string()));
    assert!(stream.is_closed().0);
    assert!(sample_state_has_error(&state).0);

    // The retry reopens it and clears the stale error.
    assert_eq!(begin_start(&stream, || true).0, StartRequest::Issue);
    assert!(!stream.is_closed().0);
    assert!(!sample_state_has_error(&state).0);

    // A timed-out start leaves the queue alone.
    let (c, _) = finish_start(&state, Err("timeout".to_string()), true, "unused".to_string());
    assert_eq!(c, StartCompletion::Unconfirmed);
    assert!(!stream.is_closed().0);

    // A failed stop leaves the queue alone; a clean stop closes it for good.
    finish_stop(&state, &Err("busy".to_string()));
    assert!(!stream.is_closed().0);
    finish_stop(&state, &Ok(()));
    assert!(stream.is_closed().0);
    assert!(stream.refuses_restart().0);
    assert_eq!(stream.take_error().0, None);

    // Restarting a stopped stream is refused without claiming the start.
    let mut claimed = false;
    let request = begin_start(&stream, || {
        claimed = true;
        true
    })
    .0;
    assert_eq!(
        request,
        StartRequest::Refused(
            "an SCStream cannot be restarted after stop_capture(); create a new AsyncSCStream"
                .to_string()
        )
    );
    assert!(!claimed);
    assert!(stream.is_closed().0);
}

#[test]
fn failed_handler_registration_ends_the_stream_with_its_reason() {
    let (stream, _initial, failed) = AsyncSCStream::<&str, u32, u8, String>::open(
        3,
        "failed to register stream output handler".to_string(),
        |sender, _delegate| ("native", Some(sender)),
    );
    assert!(failed.is_some());
    assert_eq!(*stream.inner(), "native");
    assert!(stream.is_closed().0);
    let next = stream.next();
    assert!(matches!(next.poll(Waker::noop().clone()).0, QueuePoll::Ready(None)));
    next.cancel();
    assert_eq!(
        stream.take_error().0,
        Some("failed to register stream output handler".to_string())
    );
}

#[test]
fn registered_handler_feeds_the_stream_oldest_first() {
    let mut kept = None;
    let (stream, _initial, failed) = AsyncSCStream::<(), u32, u8, String>::open(
        2,
        "unused".to_string(),
        |sender, _delegate| {
            kept = Some(sender);
            ((), None)
        },
    );
    assert!(failed.is_none());
    let sender = kept.unwrap();
    assert!(!stream.is_closed().0);
    sender.did_output_sample_buffer(1, 0);
    sender.did_output_sample_buffer(2, 0);
    sender.did_output_sample_buffer(3, 0);
    let frames = stream.frames();
    assert!(matches!(frames.poll_next(Waker::noop().clone()).0, QueuePoll::Ready(Some(2))));
    assert!(matches!(frames.poll_next(Waker::noop().clone()).0, QueuePoll::Ready(Some(3))));
    assert!(matches!(frames.poll_next(Waker::noop().clone()).0, QueuePoll::Pending));
    sender.release();
    assert!(matches!(frames.poll_next(Waker::noop().clone()).0, QueuePoll::Ready(None)));
    frames.cancel();
}

#[test]
fn refused_registration_closes_the_queue_with_its_reason() {
    let (state, _first) = idle_state();
    let (second, _) = AsyncSampleSender::new(&state);
    second.registration_failed("audio handler refused".to_string());
    assert!(sample_state_is_closed(&state).0);
    assert!(sample_state_has_error(&state).0);
}

#[test]
fn extra_output_types_share_the_queue() {
    let mut kept = None;
    let (stream, _, _) = AsyncSCStream::<u8, u32, u8, String>::open(4, "unused".to_string(), |sender, _delegate| {
        kept = Some(sender);
        (1, None)
    });
    let screen = kept.unwrap();

    // A refused audio handler goes away; the screen handler keeps the queue open.
    let (added, _, released) = stream.add_output_type(|handle, sender| {
        assert_eq!(*handle, 1);
        Some(sender)
    });
    assert!(!added);
    assert!(released.is_some());
    assert!(!stream.is_closed().0);

    // An accepted one feeds the same queue.
    let mut audio = None;
    let (added, _, released) = stream.add_output_type(|_, sender| {
        audio = Some(sender);
        None
    });
    assert!(added);
    assert!(released.is_none());
    let audio = audio.unwrap();
    screen.did_output_sample_buffer(10, 0);
    audio.did_output_sample_buffer(20, 1);
    assert_eq!(stream.try_next_typed().0, Some((10, 0)));
    assert_eq!(stream.try_next_typed().0, Some((20, 1)));

    // The queue closes only when the last registered sender goes away.
    screen.release();
    assert!(!stream.is_closed().0);
    audio.release();
    assert!(stream.is_closed().0);
}

#[test]
fn a_closed_queue_hands_out_its_samples_oldest_first_then_nothing() {
    let (stream, _, _) = AsyncSCStream::<(), u32, u8, String>::open(3, "unused".to_string(), |s, _| {
        s.did_output_sample_buffer(1, 0);
        s.did_output_sample_buffer(2, 0);
        s.release();
        ((), None)
    });
    assert!(stream.is_closed().0);
    assert_eq!(stream.buffered_count().0, 2);
    assert_eq!(stream.try_next().0, Some(1));
    assert_eq!(stream.try_next().0, Some(2));
    assert_eq!(stream.try_next().0, None);
}

#[test]
fn opened_stream_starts_open_and_empty() {
    let mut kept = None;
    let (stream, _, failed) = AsyncSCStream::<(), u32, u8, String>::open(0, "unused".to_string(), |s, _| {
        kept = Some(s);
        ((), None)
    });
    assert!(failed.is_none());
    assert!(!stream.is_closed().0);
    assert_eq!(stream.buffered_count().0, 0);
    assert_eq!(stream.take_error().0, None);
    let sender = kept.unwrap();
    sender.did_output_sample_buffer(1, 0);
    sender.did_output_sample_buffer(2, 0);
    assert_eq!(stream.buffered_count().0, 1, "capacity 0 is treated as 1");
    sender.release();
    assert!(stream.is_closed().0);
    assert_eq!(stream.try_next().0, Some(2));
    assert_eq!(stream.try_next().0, None);
}
