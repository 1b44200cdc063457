use screencapturekit::shareable_content::snapshot::{
    batch_count, decode_applications, decode_windows, pool_used, read_str, read_string,
    window_title, ApplicationSnapshot, PackedApplication, PackedWindow, SnapshotTruncation,
    MAX_APPS, MAX_DISPLAYS, MAX_WINDOWS, STRING_POOL_BYTES,
};
use screencapturekit::shareable_content::SCShareableContentOptions;

#[test]
fn truncation_any_reflects_individual_flags() {
    assert!(!SnapshotTruncation::default().any());
    assert!(SnapshotTruncation {
        windows: true,
        ..Default::default()
    }
    .any());
    assert!(SnapshotTruncation {
        displays: true,
        ..Default::default()
    }
    .any());
    assert!(SnapshotTruncation {
        applications: true,
        ..Default::default()
    }
    .any());
}

#[test]
fn string_pool_reads_only_the_written_prefix() {
    let src = b"hello world";
    let bytes: &[u8] = &src[..];
    assert_eq!(bytes, src);
    assert_eq!(read_str(bytes, 0, 5), Some("hello"));
    assert_eq!(read_str(bytes, 6, 5), Some("world"));
    // Past the written prefix -> None, never a read beyond it.
    assert_eq!(read_str(bytes, 6, 99), None);
    assert_eq!(read_str(bytes, u32::MAX, 1), None);
}

#[test]
fn read_str_rejects_invalid_utf8() {
    let pool = [0x68u8, 0xff, 0xfe, 0x69];
    assert_eq!(read_str(&pool, 0, 1), Some("h"));
    assert_eq!(read_str(&pool, 1, 2), None);
    assert_eq!(read_str(&pool, 3, 1), Some("i"));
    assert_eq!(read_str(&pool, 4, 0), Some(""));
    assert_eq!(read_str(&pool, 5, 0), None);
}

#[test]
fn read_string_is_empty_for_unreadable_ranges() {
    let pool = "Grüße".as_bytes();
    assert_eq!(read_string(pool, 0, pool.len() as u32), "Grüße");
    // Splitting the two-byte 'ü' leaves invalid UTF-8.
    assert_eq!(read_string(pool, 0, 3), "");
    assert_eq!(read_string(pool, 10, 4), "");
}

#[test]
fn window_title_is_none_for_empty_or_unreadable() {
    let pool = b"Terminal";
    assert_eq!(window_title(pool, 0, 8), Some("Terminal".to_string()));
    assert_eq!(window_title(pool, 0, 0), None);
    assert_eq!(window_title(pool, 4, 10), None);
    assert_eq!(window_title(pool, 0, 4), Some("Term".to_string()));
}

#[test]
fn batch_count_flags_a_full_buffer() {
    assert_eq!(batch_count(0, MAX_DISPLAYS), (0, false));
    assert_eq!(batch_count(-3, MAX_DISPLAYS), (0, false));
    assert_eq!(batch_count(5, MAX_DISPLAYS), (5, false));
    assert_eq!(batch_count(64, MAX_DISPLAYS), (64, true));
    assert_eq!(batch_count(70, MAX_DISPLAYS), (64, true));
    assert_eq!(batch_count(4095, MAX_WINDOWS), (4095, false));
    assert_eq!(batch_count(1024, MAX_APPS), (1024, true));
}

#[test]
fn pool_used_is_clamped_to_the_pool() {
    assert_eq!(pool_used(-1), 0);
    assert_eq!(pool_used(0), 0);
    assert_eq!(pool_used(11), 11);
    assert_eq!(pool_used(1 << 20), STRING_POOL_BYTES);
    assert_eq!(STRING_POOL_BYTES, 256 * 1024);
}

#[test]
fn decode_applications_reads_names_from_the_pool() {
    let pool = b"com.apple.FinderFinder";
    let packed = [
        PackedApplication {
            process_id: 42,
            bundle_id_offset: 0,
            bundle_id_length: 16,
            app_name_offset: 16,
            app_name_length: 6,
        },
        PackedApplication {
            process_id: 7,
            bundle_id_offset: 100,
            bundle_id_length: 3,
            app_name_offset: 16,
            app_name_length: 6,
        },
    ];
    let apps = decode_applications(&packed, pool);
    assert_eq!(apps.len(), 2);
    assert_eq!(apps[0].process_id, 42);
    assert_eq!(apps[0].bundle_identifier, "com.apple.Finder");
    assert_eq!(apps[0].application_name, "Finder");
    assert_eq!(apps[1].bundle_identifier, "");
    assert_eq!(apps[1].application_name, "Finder");
}

fn app(pid: i32) -> ApplicationSnapshot {
    ApplicationSnapshot {
        process_id: pid,
        bundle_identifier: String::new(),
        application_name: String::new(),
    }
}

#[test]
fn decode_windows_resolves_owners_with_the_last_duplicate() {
    let pool = b"Inbox";
    let apps = vec![app(10), app(20), app(10)];
    let packed = [
        PackedWindow {
            window_id: 1,
            window_layer: 0,
            is_on_screen: true,
            is_active: false,
            title_offset: 0,
            title_length: 5,
            owning_app_process_id: 10,
        },
        PackedWindow {
            window_id: 2,
            window_layer: 3,
            is_on_screen: false,
            is_active: true,
            title_offset: 0,
            title_length: 0,
            owning_app_process_id: 99,
        },
        PackedWindow {
            window_id: 3,
            window_layer: 0,
            is_on_screen: true,
            is_active: true,
            title_offset: 0,
            title_length: 5,
            owning_app_process_id: 20,
        },
    ];
    let windows = decode_windows(&packed, pool, &apps);
    assert_eq!(windows.len(), 3);
    assert_eq!(windows[0].window_id, 1);
    assert_eq!(windows[0].title.as_deref(), Some("Inbox"));
    assert_eq!(windows[0].owning_app_index, Some(2));
    assert_eq!(windows[1].title, None);
    assert_eq!(windows[1].owning_app_index, None);
    assert_eq!(windows[1].window_layer, 3);
    assert!(windows[1].is_active && !windows[1].is_on_screen);
    assert_eq!(windows[2].owning_app_index, Some(1));
}

#[test]
fn content_options_builders_set_each_switch() {
    let o = SCShareableContentOptions::new();
    assert!(!o.is_excluding_desktop_windows());
    assert!(!o.is_on_screen_windows_only());
    let o = o.on_screen_windows_only(true).exclude_desktop_windows(true);
    assert!(o.is_excluding_desktop_windows());
    assert!(o.is_on_screen_windows_only());
    let o = o.exclude_desktop_windows(false);
    assert!(!o.is_excluding_desktop_windows());
    assert!(o.is_on_screen_windows_only());
    assert_eq!(SCShareableContentOptions::default(), SCShareableContentOptions::new());
}
