use crabgrab::content::{
    CapturableContent, MacosCapturableContent, ReportedWindow, ShareableContentReply,
    ShareableContentSnapshot,
};
use std::collections::hash_map::DefaultHasher;
use std::hash::{Hash, Hasher};
use crabgrab::error::CapturableContentError;
use crabgrab::filter::{
    contains_id, contains_string, CapturableContentFilter, CapturableWindowFilter,
    MacosCapturableContentFilter, MacosCapturableContentFilterExt,
};
use crabgrab::level::{
    get_window_layer, get_window_level, window_level_for_layer, MacosWindowLevel,
    WindowDescription, WindowLevels,
};
use crabgrab::window::{
    CapturableWindow, MacosCapturableApplication, MacosCapturableDisplay, MacosCapturableWindow,
    MacosCapturableWindowExt,
};

/// The thresholds that macOS reports for its window level keys.
fn macos_levels() -> WindowLevels {
    WindowLevels {
        desktop: -2147483623,
        desktop_icon: -2147483603,
        backstop: -20,
        normal: 0,
        floating: 3,
        torn_off_menu: 3,
        modal_panel: 8,
        utility: 19,
        dock: 20,
        main_menu: 24,
        status: 25,
        pop_up_menu: 101,
        overlay: 102,
        help: 200,
        dragging: 500,
        screen_saver: 1000,
        assistive_tech_high: 1500,
        cursor: 2147483630,
    }
}

fn app(bundle_id: &str) -> MacosCapturableApplication {
    MacosCapturableApplication {
        bundle_id: bundle_id.to_string(),
        app_name: "App".to_string(),
        process_id: 77,
    }
}

fn window(id: u32, bundle_id: &str) -> MacosCapturableWindow {
    MacosCapturableWindow {
        window_id: id,
        title: Some(format!("window {}", id)),
        on_screen: true,
        owning_app: Some(app(bundle_id)),
    }
}

fn layer(l: i32) -> Result<WindowDescription, ()> {
    Ok(WindowDescription { window_layer: l })
}

fn reported(windows: Vec<(MacosCapturableWindow, i32)>) -> Vec<ReportedWindow> {
    windows.into_iter().map(|(window, l)| ReportedWindow { window, description: layer(l) }).collect()
}

fn snapshot_of(windows: Vec<MacosCapturableWindow>) -> ShareableContentSnapshot {
    ShareableContentSnapshot {
        windows: reported(windows.into_iter().map(|w| (w, 0)).collect()),
        levels: macos_levels(),
        displays: vec![MacosCapturableDisplay::from_impl(1)],
    }
}

fn content_of(windows: Vec<MacosCapturableWindow>) -> CapturableContent {
    CapturableContent::new(&CapturableContentFilter::all_windows(), ShareableContentReply::Delivered(Ok(snapshot_of(windows))))
        .unwrap()
}

fn hash_of<T: Hash>(value: &T) -> u64 {
    let mut hasher = DefaultHasher::new();
    value.hash(&mut hasher);
    hasher.finish()
}

fn message(e: &CapturableContentError) -> String {
    e.message().clone()
}

#[test]
fn classifies_layers_by_the_first_threshold_above_them() {
    let levels = macos_levels();
    let cases = [
        (i32::MIN, MacosWindowLevel::BelowDesktop),
        (-2147483623, MacosWindowLevel::Desktop),
        (-2147483603, MacosWindowLevel::DesktopIcon),
        (-20, MacosWindowLevel::Backstop),
        (-1, MacosWindowLevel::Backstop),
        (0, MacosWindowLevel::Normal),
        (2, MacosWindowLevel::Normal),
        (3, MacosWindowLevel::TornOffMenu),
        (8, MacosWindowLevel::ModalPanel),
        (19, MacosWindowLevel::Utility),
        (20, MacosWindowLevel::Dock),
        (24, MacosWindowLevel::MainMenu),
        (25, MacosWindowLevel::Status),
        (101, MacosWindowLevel::PopupMenu),
        (102, MacosWindowLevel::Overlay),
        (200, MacosWindowLevel::Help),
        (500, MacosWindowLevel::Dragging),
        (1000, MacosWindowLevel::ScreenSaver),
        (1500, MacosWindowLevel::AssistiveTechHigh),
        (2147483630, MacosWindowLevel::Cursor),
        (i32::MAX, MacosWindowLevel::Cursor),
    ];
    for (l, expected) in cases {
        assert_eq!(window_level_for_layer(&levels, l), expected, "layer {}", l);
    }
}

#[test]
fn a_higher_layer_never_gets_a_lower_level() {
    let levels = macos_levels();
    let layers = [i32::MIN, -30, -20, 0, 1, 3, 4, 8, 19, 20, 22, 24, 25, 101, 102, 150, 200, 500, 1000, 1500, 2147483630, i32::MAX];
    for pair in layers.windows(2) {
        assert!(window_level_for_layer(&levels, pair[0]) <= window_level_for_layer(&levels, pair[1]));
    }
    assert!(window_level_for_layer(&levels, 19) < window_level_for_layer(&levels, 20));
    assert!(window_level_for_layer(&levels, 1500) < window_level_for_layer(&levels, i32::MAX));
}

#[test]
fn window_layer_and_level_follow_the_description() {
    let levels = macos_levels();
    assert_eq!(get_window_layer(layer(25)), Ok(25));
    assert_eq!(get_window_layer(Err(())), Err(()));
    assert_eq!(get_window_level(&levels, layer(0)), Ok(MacosWindowLevel::Normal));
    assert_eq!(get_window_level(&levels, Err(())), Err(()));
}

#[test]
fn level_values_and_names() {
    assert_eq!(MacosWindowLevel::BelowDesktop.as_i32(), 0);
    assert_eq!(MacosWindowLevel::Normal.as_i32(), 4);
    assert_eq!(MacosWindowLevel::ModalPanel.as_i32(), 7);
    assert_eq!(MacosWindowLevel::Dock.as_i32(), 9);
    assert_eq!(MacosWindowLevel::AssistiveTechHigh.as_i32(), 17);
    assert_eq!(MacosWindowLevel::Cursor.as_i32(), 18);
    assert!(MacosWindowLevel::Utility < MacosWindowLevel::Dock);
    assert!(MacosWindowLevel::AssistiveTechHigh < MacosWindowLevel::Cursor);
    assert_eq!(MacosWindowLevel::TornOffMenu.name(), "TornOffMenu");
    assert_eq!(MacosWindowLevel::Help.name(), format!("{:?}", MacosWindowLevel::Help));
    assert!(MacosWindowLevel::Normal < MacosWindowLevel::TornOffMenu);
}

#[test]
fn unrestricted_filter_keeps_every_window() {
    let filter = MacosCapturableContentFilter::default();
    let levels = macos_levels();
    assert!(filter.filter_scwindow(&window(1, "com.a"), &levels, layer(i32::MIN)));
    assert!(filter.filter_scwindow(&window(2, "com.b"), &levels, Err(())));
    let ownerless = MacosCapturableWindow { window_id: 3, title: None, on_screen: false, owning_app: None };
    assert!(filter.filter_scwindow(&ownerless, &levels, layer(0)));
    assert!(filter.filter_scdisplay(&MacosCapturableDisplay::from_impl(9)));
}

#[test]
fn normal_windows_filter_keeps_the_normal_band_inclusively() {
    let filter = MacosCapturableContentFilter::normal_windows();
    let levels = macos_levels();
    let w = window(1, "com.a");
    assert!(filter.filter_scwindow(&w, &levels, layer(0)));
    assert!(filter.filter_scwindow(&w, &levels, layer(3)));
    assert!(!filter.filter_scwindow(&w, &levels, layer(-1)));
    assert!(!filter.filter_scwindow(&w, &levels, layer(8)));
    assert!(!filter.filter_scwindow(&w, &levels, layer(25)));
    // A level that cannot be looked up does not reject the window.
    assert!(filter.filter_scwindow(&w, &levels, Err(())));
}

#[test]
fn level_range_builder_accepts_ordered_and_open_ranges() {
    let levels = macos_levels();
    let w = window(5, "com.a");
    let f = CapturableContentFilter::new(true, None)
        .with_window_level_range(Some(MacosWindowLevel::Dock), Some(MacosWindowLevel::Dock))
        .unwrap();
    assert!(f.displays);
    assert_eq!(f.windows, None);
    assert_eq!(f.impl_capturable_content_filter.window_level_range, (Some(MacosWindowLevel::Dock), Some(MacosWindowLevel::Dock)));
    assert!(f.impl_capturable_content_filter.filter_scwindow(&w, &levels, layer(20)));
    assert!(!f.impl_capturable_content_filter.filter_scwindow(&w, &levels, layer(24)));

    let lower_only = CapturableContentFilter::new(false, None)
        .with_window_level_range(Some(MacosWindowLevel::Help), None)
        .unwrap();
    assert!(lower_only.impl_capturable_content_filter.filter_scwindow(&w, &levels, layer(i32::MAX)));
    assert!(!lower_only.impl_capturable_content_filter.filter_scwindow(&w, &levels, layer(0)));

    let upper_only = CapturableContentFilter::new(false, None)
        .with_window_level_range(None, Some(MacosWindowLevel::Normal))
        .unwrap();
    assert!(upper_only.impl_capturable_content_filter.filter_scwindow(&w, &levels, layer(0)));
    assert!(!upper_only.impl_capturable_content_filter.filter_scwindow(&w, &levels, layer(3)));
}

#[test]
fn level_range_builder_rejects_an_inverted_range() {
    let result = CapturableContentFilter::new(false, None)
        .with_window_level_range(Some(MacosWindowLevel::Help), Some(MacosWindowLevel::Normal));
    let error = result.err().unwrap();
    assert_eq!(
        message(&error),
        "Invalid window level range: minimum level: Help is greater than maximum level: Normal"
    );
}

#[test]
fn level_range_builder_keeps_the_exclusions() {
    let f = CapturableContentFilter::new(false, None)
        .with_exclude_window_ids(&[4])
        .with_exclude_bundle_ids(&["com.x"])
        .with_window_level_range(Some(MacosWindowLevel::Normal), None)
        .unwrap();
    let inner = &f.impl_capturable_content_filter;
    assert_eq!(inner.excluded_window_ids, Some(vec![4]));
    assert_eq!(inner.excluded_bundle_ids, Some(vec!["com.x".to_string()]));
}

#[test]
fn excluded_window_ids_are_rejected_and_accumulate() {
    let levels = macos_levels();
    let f = CapturableContentFilter::new(false, None).with_exclude_window_ids(&[10, 11]);
    let f = f.with_exclude_window_ids(&[12]);
    assert_eq!(f.impl_capturable_content_filter.excluded_window_ids, Some(vec![10, 11, 12]));
    let inner = &f.impl_capturable_content_filter;
    assert!(!inner.filter_scwindow(&window(10, "com.a"), &levels, layer(0)));
    assert!(!inner.filter_scwindow(&window(12, "com.a"), &levels, Err(())));
    assert!(inner.filter_scwindow(&window(13, "com.a"), &levels, layer(0)));
}

#[test]
fn excluded_bundle_ids_are_lower_cased_and_compared_without_case() {
    let levels = macos_levels();
    let f = CapturableContentFilter::new(false, None).with_exclude_bundle_ids(&["COM.Example.App", "org.other"]);
    let f = f.with_exclude_bundle_ids(&["Net.Third"]);
    assert_eq!(
        f.impl_capturable_content_filter.excluded_bundle_ids,
        Some(vec!["com.example.app".to_string(), "org.other".to_string(), "net.third".to_string()])
    );
    let inner = &f.impl_capturable_content_filter;
    assert!(!inner.filter_scwindow(&window(1, "com.example.app"), &levels, layer(0)));
    assert!(!inner.filter_scwindow(&window(2, "Com.Example.APP"), &levels, layer(0)));
    assert!(!inner.filter_scwindow(&window(3, "NET.THIRD"), &levels, layer(0)));
    assert!(inner.filter_scwindow(&window(4, "com.example"), &levels, layer(0)));
}

#[test]
fn all_filters_combine() {
    let levels = macos_levels();
    let f = CapturableContentFilter::new(false, Some(CapturableWindowFilter { desktop_windows: false, onscreen_only: true }))
        .with_window_level_range(Some(MacosWindowLevel::Normal), Some(MacosWindowLevel::TornOffMenu))
        .unwrap()
        .with_exclude_window_ids(&[2])
        .with_exclude_bundle_ids(&["com.b"]);
    assert_eq!(f.windows, Some(CapturableWindowFilter { desktop_windows: false, onscreen_only: true }));
    let inner = &f.impl_capturable_content_filter;
    assert!(inner.filter_scwindow(&window(1, "com.a"), &levels, layer(0)));
    assert!(!inner.filter_scwindow(&window(2, "com.a"), &levels, layer(0)));
    assert!(!inner.filter_scwindow(&window(3, "com.b"), &levels, layer(0)));
    assert!(!inner.filter_scwindow(&window(4, "com.a"), &levels, layer(20)));
}

#[test]
fn filter_clone_keeps_the_options() {
    let f = CapturableContentFilter::new(false, None)
        .with_exclude_window_ids(&[1, 2])
        .with_exclude_bundle_ids(&["A.B"]);
    let copy = f.impl_capturable_content_filter.clone();
    assert_eq!(copy.excluded_window_ids, Some(vec![1, 2]));
    assert_eq!(copy.excluded_bundle_ids, Some(vec!["a.b".to_string()]));
    assert_eq!(copy.window_level_range, (None, None));
}

#[test]
fn all_windows_filter() {
    let f = CapturableContentFilter::all_windows();
    assert!(!f.displays);
    assert_eq!(f.windows, Some(CapturableWindowFilter { desktop_windows: true, onscreen_only: false }));
    assert_eq!(f.impl_capturable_content_filter.window_level_range, (None, None));
    assert_eq!(f.impl_capturable_content_filter.excluded_bundle_ids, None);
    assert_eq!(f.impl_capturable_content_filter.excluded_window_ids, None);
}

#[test]
fn window_ids_are_the_window_server_ids() {
    let w = MacosCapturableWindow::from_impl(0x0102_0304, None, true, None);
    assert_eq!(w.id(), 0x0102_0304);
    let c = CapturableWindow { impl_capturable_window: w };
    assert_eq!(c.get_window_id(), 0x0102_0304);
    let a = MacosCapturableWindow::from_impl(77, Some("a".to_string()), true, None);
    let b = MacosCapturableWindow::from_impl(77, None, false, Some(app("com.b")));
    assert!(a == b);
}

#[test]
fn equal_windows_hash_alike() {
    let a = window(5, "com.a");
    let b = MacosCapturableWindow { window_id: 5, title: None, on_screen: false, owning_app: None };
    assert_eq!(hash_of(&a), hash_of(&b));
    assert_eq!(hash_of(&a), hash_of(&5u32));
    assert_eq!(hash_of(&MacosCapturableDisplay::from_impl(3)), hash_of(&3u32));
}

#[test]
fn debug_output_of_a_display() {
    assert_eq!(format!("{:?}", MacosCapturableDisplay::from_impl(3)), "MacosCapturableDisplay { display: 3 }");
}

#[test]
fn window_accessors() {
    let w = MacosCapturableWindow::from_impl(7, Some("Editor".to_string()), false, Some(app("com.a")));
    assert_eq!(w.title(), "Editor");
    assert!(!w.is_visible());
    let a = w.application();
    assert_eq!(a.identifier(), "com.a");
    assert_eq!(a.name(), "App");
    assert_eq!(a.pid(), 77);
    let untitled = MacosCapturableWindow::from_impl(8, None, true, None);
    assert_eq!(untitled.title(), "Unknown");
    assert!(untitled.is_visible());
}

#[test]
fn windows_are_equal_when_their_ids_are() {
    let a = window(5, "com.a");
    let mut b = window(5, "com.b");
    b.title = None;
    assert!(a == b);
    assert!(a != window(6, "com.a"));
    assert_eq!(MacosCapturableDisplay::from_impl(3), MacosCapturableDisplay::from_impl(3));
    assert_ne!(MacosCapturableDisplay::from_impl(3), MacosCapturableDisplay::from_impl(4));
    assert_eq!(MacosCapturableDisplay::from_impl(3).id(), 3);
}

#[test]
fn content_keeps_every_window_and_display_of_the_reply() {
    let c = content_of(vec![window(1, "com.a"), window(2, "com.b")]);
    let inner: &MacosCapturableContent = &c.impl_capturable_content;
    assert_eq!(inner.windows.len(), 2);
    assert!(inner.excluding_windows.is_empty());
    assert_eq!(inner.windows[1].window_id, 2);
    assert_eq!(c.displays(), vec![MacosCapturableDisplay::from_impl(1)]);
    let ws = c.windows();
    assert_eq!(ws.len(), 2);
    assert_eq!(ws[0].get_window_id(), 1);
}

#[test]
fn content_applies_the_filter() {
    let filter = CapturableContentFilter::new(true, None)
        .with_window_level_range(Some(MacosWindowLevel::Normal), Some(MacosWindowLevel::TornOffMenu))
        .unwrap()
        .with_exclude_window_ids(&[3])
        .with_exclude_bundle_ids(&["COM.Hidden"]);
    let snapshot = ShareableContentSnapshot {
        windows: reported(vec![
            (window(1, "com.a"), 0),
            (window(2, "com.a"), 20),
            (window(3, "com.a"), 0),
            (window(4, "com.hidden"), 0),
            (window(5, "com.b"), 3),
        ]),
        levels: macos_levels(),
        displays: vec![MacosCapturableDisplay::from_impl(1), MacosCapturableDisplay::from_impl(2)],
    };
    let c = CapturableContent::new(&filter, ShareableContentReply::Delivered(Ok(snapshot))).unwrap();
    let kept: Vec<u32> = c.impl_capturable_content.windows.iter().map(|w| w.id()).collect();
    let excluded: Vec<u32> = c.impl_capturable_content.excluding_windows.iter().map(|w| w.id()).collect();
    assert_eq!(kept, vec![1, 5]);
    assert_eq!(excluded, vec![2, 3, 4]);
    assert_eq!(c.displays().len(), 2);
}

#[test]
fn content_errors_describe_the_reply() {
    let filter = CapturableContentFilter::all_windows();
    let denied = CapturableContent::new(&filter, ShareableContentReply::Delivered(Err(-3801))).err().unwrap();
    assert_eq!(message(&denied), "SCShareableContent error: Permission to screen capture was denied");
    let other = CapturableContent::new(&filter, ShareableContentReply::Delivered(Err(-3802))).err().unwrap();
    assert_eq!(message(&other), "SCShareableContent returned error code: -3802");
    let positive = MacosCapturableContent::new(&filter, ShareableContentReply::Delivered(Err(17))).err().unwrap();
    assert_eq!(positive, CapturableContentError::Other("SCShareableContent returned error code: 17".to_string()));
    let dropped = CapturableContent::new(&filter, ShareableContentReply::Dropped("oneshot canceled".to_string()))
        .err()
        .unwrap();
    assert_eq!(
        message(&dropped),
        "Failed to receive SCSharableContent result from completion handler future: oneshot canceled"
    );
}

#[test]
fn from_window_id_finds_the_first_window_with_that_id() {
    let mut first = window(42, "com.first");
    first.title = Some("first".to_string());
    let mut second = window(42, "com.second");
    second.title = Some("second".to_string());
    let content = content_of(vec![window(1, "com.a"), first, second]);
    let found = CapturableWindow::from_window_id(42, Ok(content)).unwrap();
    assert_eq!(found.get_window_id(), 42);
    assert_eq!(found.impl_capturable_window.title(), "first");
}

#[test]
fn from_window_id_reports_a_missing_window() {
    let content = content_of(vec![window(1, "com.a")]);
    let error = CapturableWindow::from_window_id(42, Ok(content)).err().unwrap();
    assert_eq!(message(&error), "No capturable window with id: 42 found");
    let error = CapturableWindow::from_window_id(4294967295, Ok(content_of(vec![]))).err().unwrap();
    assert_eq!(message(&error), "No capturable window with id: 4294967295 found");
}

#[test]
fn from_window_id_passes_on_a_listing_error() {
    let error = CapturableWindow::from_window_id(1, Err(CapturableContentError::Other("boom".to_string())))
        .err()
        .unwrap();
    assert_eq!(error, CapturableContentError::Other("boom".to_string()));
}

#[test]
fn window_ext_reads_layer_and_level() {
    let w = CapturableWindow { impl_capturable_window: window(9, "com.a") };
    let levels = macos_levels();
    assert_eq!(w.get_window_layer(layer(20)), Ok(20));
    assert_eq!(w.get_window_level(&levels, layer(20)), Ok(MacosWindowLevel::Dock));
    assert_eq!(message(&w.get_window_layer(Err(())).err().unwrap()), "Failed to retreive window layer");
    assert_eq!(message(&w.get_window_level(&levels, Err(())).err().unwrap()), "Failed to retreive window level");
    assert_eq!(w.get_window_id(), 9);
}

#[test]
fn exclusion_lists_are_searched_exactly() {
    let list = vec!["com.a".to_string(), "org.b".to_string()];
    assert!(contains_string(&list, &"org.b".to_string()));
    assert!(!contains_string(&list, &"ORG.B".to_string()));
    assert!(!contains_string(&list, &"org".to_string()));
    assert!(!contains_string(&vec![], &"com.a".to_string()));
    assert!(contains_id(&vec![3, 9], 9));
    assert!(!contains_id(&vec![3, 9], 4));
    assert!(!contains_id(&vec![], 0));
}
