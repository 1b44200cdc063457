use screencapturekit::content_sharing_picker::{
    SCContentSharingPicker, SCContentSharingPickerMode, SCPickedSource,
    SCPickerConfigurationError, SCPickerEvent, SCPickerFilterOutcome, SCPickerOutcome, SCPickerSubscription,
    observer_delivers,
};
use std::sync::atomic::{AtomicBool, Ordering};
use std::sync::Arc;
use screencapturekit::dispatch_queue::DispatchQoS;
use screencapturekit::recording_output::{
    check_output_path, same_text, InvalidOutputPath, InvalidRecordingIdentifier,
    SCRecordingOutputCodec, SCRecordingOutputFileType,
};

#[test]
fn codec_identifiers_and_names() {
    assert_eq!(SCRecordingOutputCodec::h264().identifier(), "avc1");
    assert_eq!(SCRecordingOutputCodec::default().identifier(), "avc1");
    assert_eq!(SCRecordingOutputCodec::hevc().display_name(), "HEVC");
    assert_eq!(SCRecordingOutputCodec::pro_res_422_hq().display_name(), "ProRes 422 HQ");
    assert_eq!(SCRecordingOutputCodec::hevc_with_alpha().identifier(), "muxa");
    let custom = SCRecordingOutputCodec::from_identifier("av01".to_string()).unwrap();
    assert_eq!(custom.identifier(), "av01");
    assert_eq!(custom.display_name(), "codec av01");
    assert_eq!(
        SCRecordingOutputCodec::from_identifier("a\0b".to_string()),
        Err(InvalidRecordingIdentifier)
    );
    // An identifier equal to a known one is the known codec.
    assert_eq!(SCRecordingOutputCodec::from_identifier("jpeg".to_string()).unwrap(), SCRecordingOutputCodec::jpeg());
}

#[test]
fn file_type_extensions_and_names() {
    assert_eq!(SCRecordingOutputFileType::default().extension(), Some("mp4"));
    assert_eq!(SCRecordingOutputFileType::mov().extension(), Some("mov"));
    assert_eq!(SCRecordingOutputFileType::m4v().extension(), Some("m4v"));
    assert_eq!(SCRecordingOutputFileType::m4a().extension(), Some("m4a"));
    assert_eq!(SCRecordingOutputFileType::mobile_3gpp().extension(), Some("3gp"));
    assert_eq!(SCRecordingOutputFileType::mobile_3gpp().display_name(), "3GPP");
    let custom = SCRecordingOutputFileType::from_identifier("public.avi".to_string()).unwrap();
    assert_eq!(custom.extension(), None);
    assert_eq!(custom.display_name(), "file type public.avi");
    assert!(SCRecordingOutputFileType::from_identifier("\0".to_string()).is_err());
    assert_eq!(
        InvalidRecordingIdentifier.message(),
        "recording identifier contains an interior NUL byte"
    );
}

#[test]
fn output_paths_are_checked() {
    assert_eq!(check_output_path(None), Err(InvalidOutputPath::NotUtf8));
    assert_eq!(check_output_path(Some("/tmp/a\0b.mov")), Err(InvalidOutputPath::InteriorNul));
    assert_eq!(check_output_path(Some("/tmp/out.mov")), Ok(()));
    assert_eq!(InvalidOutputPath::NotUtf8.message(), "output path is not valid UTF-8");
    assert!(same_text("é", "é"));
    assert!(!same_text("e", "é"));
}

#[test]
fn picker_modes_round_trip_through_values_and_masks() {
    let (single_window, multiple_windows, single_display, single_application, multiple_applications) = (
        SCContentSharingPickerMode::SingleWindow,
        SCContentSharingPickerMode::MultipleWindows,
        SCContentSharingPickerMode::SingleDisplay,
        SCContentSharingPickerMode::SingleApplication,
        SCContentSharingPickerMode::MultipleApplications,
    );
    assert_eq!(SCContentSharingPickerMode::default(), single_window);
    assert_eq!(
        SCContentSharingPickerMode::raw_values(&[single_display, multiple_applications]),
        vec![2, 4]
    );
    assert_eq!(SCContentSharingPickerMode::from_mask(0), vec![]);
    assert_eq!(SCContentSharingPickerMode::from_mask(17), vec![single_window, single_display]);
    assert_eq!(
        SCContentSharingPickerMode::from_mask(31),
        vec![single_window, multiple_windows, single_display, single_application, multiple_applications]
    );
    assert_eq!(single_application.mask_bit(), 4);
}

#[test]
fn picker_results_decode_by_code() {
    assert!(matches!(SCPickerFilterOutcome::decode(1, Some(5u8)), SCPickerFilterOutcome::Filter(5)));
    assert!(matches!(SCPickerFilterOutcome::<u8>::decode(0, None), SCPickerFilterOutcome::Cancelled));
    match SCPickerFilterOutcome::<u8>::decode(1, None) {
        SCPickerFilterOutcome::Error(m) => assert_eq!(m, "Picker failed"),
        _ => panic!("a pick without a filter is an error"),
    }
    assert!(matches!(SCPickerOutcome::decode(1, Some("r")), SCPickerOutcome::Picked("r")));
    assert!(matches!(SCPickerOutcome::<u8>::decode(0, Some(1)), SCPickerOutcome::Cancelled));
    assert!(matches!(SCPickerOutcome::<u8>::decode(-2, Some(1)), SCPickerOutcome::Error(_)));
}

#[test]
fn picked_source_prefers_windows_then_displays_then_apps() {
    assert_eq!(
        SCPickedSource::from_selection(Some(Some("Mail".to_string())), Some(1), None),
        SCPickedSource::Window("Mail".to_string())
    );
    assert_eq!(
        SCPickedSource::from_selection(Some(None), None, None),
        SCPickedSource::Window("Untitled".to_string())
    );
    assert_eq!(SCPickedSource::from_selection(None, Some(3), Some("X".to_string())), SCPickedSource::Display(3));
    assert_eq!(
        SCPickedSource::from_selection(None, None, Some("Notes".to_string())),
        SCPickedSource::Application("Notes".to_string())
    );
    assert_eq!(SCPickedSource::from_selection(None, None, None), SCPickedSource::Unknown);
}

#[test]
fn picker_configuration_results() {
    assert_eq!(
        SCContentSharingPicker::configuration_result(false, true),
        Err(SCPickerConfigurationError::Unavailable)
    );
    assert_eq!(SCContentSharingPicker::configuration_result(true, true), Ok(()));
    assert_eq!(
        SCContentSharingPicker::configuration_result(true, false),
        Err(SCPickerConfigurationError::MainThreadRequired)
    );
    assert_eq!(
        SCPickerConfigurationError::Unavailable.message(),
        "content sharing picker is unavailable"
    );
}

#[test]
fn dispatch_qos_values() {
    assert_eq!(DispatchQoS::default(), DispatchQoS::Default);
    assert_eq!(DispatchQoS::Background.raw(), 0);
    assert_eq!(DispatchQoS::Default.raw(), 2);
    assert_eq!(DispatchQoS::UserInteractive.raw(), 4);
}

#[test]
fn subscription_removes_a_live_observer_once() {
    let active = Arc::new(AtomicBool::new(true));
    let mut sub = SCPickerSubscription::new(7, Arc::clone(&active));
    assert_eq!(sub.token(), 7);
    assert!(sub.is_active());
    let mut seen = Vec::new();
    assert!(
        sub.unsubscribe(|t| {
            seen.push(t);
            true
        })
        .0
    );
    assert_eq!(seen, vec![7]);
    assert_eq!(sub.token(), 0);
    assert!(!sub.unsubscribe(|_| true).0);
}

#[test]
fn subscription_failed_removal_marks_inactive() {
    let active = Arc::new(AtomicBool::new(true));
    let mut sub = SCPickerSubscription::new(3, Arc::clone(&active));
    assert!(!sub.unsubscribe(|_| false).0);
    assert!(!active.load(Ordering::Acquire));
    let mut released = SCPickerSubscription::new(4, Arc::new(AtomicBool::new(false)));
    assert!(!released.unsubscribe(|_| panic!("a released observer is not removed again")).0);
    let mut kept = SCPickerSubscription::new(5, Arc::new(AtomicBool::new(true)));
    kept.detach();
    assert_eq!(kept.token(), 0);
    assert!(kept.is_active(), "detaching leaves the shared flag alone");
    assert!(!SCPickerSubscription::inactive().is_active());
}

#[test]
fn observer_events_are_decoded() {
    match SCPickerEvent::<&str, u8>::decode(1, Some("picked"), None, Some(9)) {
        SCPickerEvent::Updated { result, stream } => {
            assert_eq!(result, "picked");
            assert_eq!(stream, Some(9));
        }
        other => panic!("expected an update, got {other:?}"),
    }
    match SCPickerEvent::<&str, u8>::decode(1, None, Some("ignored".to_string()), None) {
        SCPickerEvent::Failed(m) => assert_eq!(m, "picker delivered an update without a result"),
        other => panic!("expected a failure, got {other:?}"),
    }
    match SCPickerEvent::<&str, u8>::decode(0, None, None, Some(4)) {
        SCPickerEvent::Cancelled { stream } => assert_eq!(stream, Some(4)),
        other => panic!("expected a cancellation, got {other:?}"),
    }
    match SCPickerEvent::<&str, u8>::decode(-1, None, Some("no permission".to_string()), None) {
        SCPickerEvent::Failed(m) => assert_eq!(m, "no permission"),
        other => panic!("expected a failure, got {other:?}"),
    }
    match SCPickerEvent::<&str, u8>::decode(7, None, None, None) {
        SCPickerEvent::Failed(m) => assert_eq!(m, "Content sharing picker failed to start"),
        other => panic!("expected a failure, got {other:?}"),
    }
}

#[test]
fn observer_events_reach_only_live_contexts() {
    assert!(observer_delivers(true, true));
    assert!(!observer_delivers(true, false));
    assert!(!observer_delivers(false, true));
    assert!(!observer_delivers(false, false));
}
