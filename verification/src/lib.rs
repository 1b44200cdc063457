//! Verified core of the ScreenCaptureKit bindings.

pub mod cm;
pub mod content_sharing_picker;
pub mod output;
pub mod cpal_adapter;
pub mod dispatch_queue;
pub mod async_api;
pub mod audio_devices;
pub mod recording_output;
pub mod registry;
pub mod screenshot_manager;
pub mod shareable_content;
