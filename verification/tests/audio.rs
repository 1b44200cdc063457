use screencapturekit::audio_devices::{AudioInputDevice, DeviceSnapshot};
use screencapturekit::cpal_adapter::{
    AudioFormat, AudioRingBuffer, AudioSampleFormat, CaptureStep, SckAudioConfig,
    SckAudioError, SckAudioState, ZeroCopyAudioStream,
};

#[test]
fn ring_buffer_is_fifo_and_fills_with_silence() {
    let mut rb = AudioRingBuffer::new(4, 0.0f32);
    assert!(rb.is_empty());
    assert_eq!(rb.write(&[1.0, 2.0, 3.0]), 3);
    assert_eq!(rb.available(), 3);
    let mut out = [9.0f32; 2];
    assert_eq!(rb.read(&mut out), 2);
    assert_eq!(out, [1.0, 2.0]);
    // Wraps around the end of the storage.
    assert_eq!(rb.write(&[4.0, 5.0, 6.0, 7.0]), 3);
    assert_eq!(rb.available(), 4);
    let mut out = [9.0f32; 6];
    assert_eq!(rb.read(&mut out), 4);
    assert_eq!(out, [3.0, 4.0, 5.0, 6.0, 0.0, 0.0]);
    assert!(rb.is_empty());
}

#[test]
fn ring_buffer_never_overwrites_and_clear_empties() {
    let mut rb = AudioRingBuffer::new(2, 0i16);
    assert_eq!(rb.write(&[1, 2, 3]), 2);
    assert_eq!(rb.write(&[4]), 0);
    rb.clear();
    assert_eq!(rb.available(), 0);
    let mut out = [7i16; 1];
    assert_eq!(rb.read(&mut out), 0);
    assert_eq!(out, [0]);
}

#[test]
fn zero_capacity_ring_buffer_accepts_nothing() {
    let mut rb = AudioRingBuffer::new(0, 0u8);
    assert_eq!(rb.write(&[1, 2]), 0);
    let mut out = [5u8; 2];
    assert_eq!(rb.read(&mut out), 0);
    assert_eq!(out, [0, 0]);
}

#[test]
fn sample_format_follows_the_capture_format() {
    let f = |is_float, bits| AudioFormat { sample_rate: 48000, channels: 2, bits_per_sample: bits, is_float };
    assert_eq!(f(true, 32).sample_format(), AudioSampleFormat::F32);
    assert_eq!(f(false, 8).sample_format(), AudioSampleFormat::I8);
    assert_eq!(f(false, 32).sample_format(), AudioSampleFormat::I32);
    assert_eq!(f(false, 16).sample_format(), AudioSampleFormat::I16);
    assert_eq!(f(false, 24).sample_format(), AudioSampleFormat::I16);
}

#[test]
fn audio_config_defaults_and_builders() {
    let c = SckAudioConfig::new(&"filter");
    assert_eq!((c.sample_rate, c.channels, c.buffer_size), (48000, 2, 96000));
    let c = c.with_sample_rate(44100).with_channels(1).with_buffer_size(512);
    assert_eq!((c.sample_rate, c.channels, c.buffer_size), (44100, 1, 512));
    assert_eq!(*c.filter(), "filter");
    assert_eq!(c.callback_buffer_len(), 1024);
    let info = c.callback_info();
    assert_eq!((info.sample_rate, info.channels), (44100, 1));
}

#[test]
fn capture_state_start_stop_and_delivery() {
    let mut s = SckAudioState::new(8, 0.0f32);
    assert_eq!(s.check_can_start(), Ok(()));
    assert_eq!(s.request_stop(), Err(SckAudioError::NotRunning));
    let mut buf = [0.0f32; 4];
    assert_eq!(s.poll_capture(&mut buf), CaptureStep::Stopped);
    s.mark_running();
    assert_eq!(s.check_can_start(), Err(SckAudioError::AlreadyRunning));
    assert_eq!(s.poll_capture(&mut buf), CaptureStep::Idle);
    assert!(s.needs_format());
    let fmt = AudioFormat { sample_rate: 48000, channels: 2, bits_per_sample: 32, is_float: true };
    s.record_format(Some(fmt));
    s.record_format(None);
    assert_eq!(s.format(), Some(fmt));
    assert_eq!(s.push_samples(&[0.5, 0.25]), 2);
    assert_eq!(s.available(), 2);
    assert_eq!(s.poll_capture(&mut buf), CaptureStep::Delivered(2));
    assert_eq!(buf, [0.5, 0.25, 0.0, 0.0]);
    assert_eq!(s.request_stop(), Ok(()));
    assert!(!s.is_running());
}

#[test]
fn zero_copy_stop_succeeds() {
    let z = ZeroCopyAudioStream::new(3u8);
    assert!(z.stop().is_ok());
}

fn device(id: &str, is_default: bool) -> AudioInputDevice {
    AudioInputDevice { id: id.to_string(), name: format!("Mic {id}"), is_default }
}

#[test]
fn default_position_is_taken_from_the_filtered_list() {
    let snapshot = DeviceSnapshot {
        present: true,
        raw_count: 3,
        raw_default_index: 2,
        entries: vec![Some(device("a", false)), None, Some(device("c", true))],
    };
    let (devices, index) = AudioInputDevice::list_with_default(&snapshot);
    assert_eq!(devices.len(), 2);
    assert_eq!(index, Some(1));
    assert_eq!(devices[1].id, "c");
    assert_eq!(AudioInputDevice::default_device(&snapshot), Some(device("c", true)));
    assert_eq!(AudioInputDevice::list(&snapshot), devices);
}

#[test]
fn invalid_default_index_and_missing_snapshot() {
    let snapshot = DeviceSnapshot {
        present: true,
        raw_count: 1,
        raw_default_index: 1,
        entries: vec![Some(device("a", false))],
    };
    assert_eq!(snapshot.default_index(), None);
    assert_eq!(AudioInputDevice::default_device(&snapshot), None);
    assert_eq!(AudioInputDevice::list_with_default(&snapshot).1, None);
    let missing = DeviceSnapshot { present: false, raw_count: 4, raw_default_index: 0, entries: vec![] };
    assert_eq!(missing.count(), 0);
    assert!(AudioInputDevice::list(&missing).is_empty());
    let negative = DeviceSnapshot { present: true, raw_count: -1, raw_default_index: 0, entries: vec![Some(device("x", true))] };
    assert_eq!(negative.count(), 0);
    assert!(negative.devices().is_empty());
}

#[test]
fn default_device_is_among_the_listed() {
    let snapshot = DeviceSnapshot {
        present: true,
        raw_count: 4,
        raw_default_index: 3,
        entries: vec![None, Some(device("b", false)), None, Some(device("d", true))],
    };
    let default = AudioInputDevice::default_device(&snapshot).unwrap();
    assert!(AudioInputDevice::list(&snapshot).contains(&default));
}
