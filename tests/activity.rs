use rp_core::{from_wire, to_wire, Activity, ActivityAssets, ActivityTimestamps};

#[test]
fn new_activity_is_empty() {
    let a = Activity::new();
    assert!(a.details.is_none());
    assert!(a.state.is_none());
    assert!(a.timestamps.is_none());
    assert!(a.assets.is_none());
}

#[test]
fn builders_set_one_field_each() {
    let a = Activity::new()
        .details("Coding".to_string())
        .state("On a deadline".to_string());
    assert_eq!(a.details.as_deref(), Some("Coding"));
    assert_eq!(a.state.as_deref(), Some("On a deadline"));
    assert!(a.timestamps.is_none());
    assert!(a.assets.is_none());
}

#[test]
fn empty_strings_pass_through() {
    let a = Activity::new().details(String::new());
    assert_eq!(a.details.as_deref(), Some(""));
}

#[test]
fn start_timestamp_at_sets_start_and_clears_end() {
    let a = Activity::new()
        .timestamps(ActivityTimestamps { start: Some(1), end: Some(2) })
        .start_timestamp_at(1_700_000_000);
    let t = a.timestamps.unwrap();
    assert_eq!(t.start, Some(1_700_000_000));
    assert_eq!(t.end, None);
}

#[test]
fn start_timestamp_reads_the_clock() {
    let a = Activity::new().start_timestamp();
    let t = a.timestamps.unwrap();
    assert!(t.start.unwrap() > 1_600_000_000);
    assert_eq!(t.end, None);
}

#[test]
fn from_now_reads_the_clock() {
    let t = ActivityTimestamps::from_now();
    assert!(t.start.unwrap() > 1_600_000_000);
    assert!(t.end.is_none());
}

#[test]
fn large_and_small_image_keep_each_other() {
    let a = Activity::new()
        .large_image("big".to_string(), Some("Big tip".to_string()))
        .small_image("small".to_string(), None);
    let s = a.assets.unwrap();
    assert_eq!(s.large_image.as_deref(), Some("big"));
    assert_eq!(s.large_text.as_deref(), Some("Big tip"));
    assert_eq!(s.small_image.as_deref(), Some("small"));
    assert_eq!(s.small_text, None);
}

#[test]
fn large_image_replaces_its_tooltip() {
    let a = Activity::new()
        .large_image("a".to_string(), Some("tip".to_string()))
        .large_image("b".to_string(), None);
    let s = a.assets.unwrap();
    assert_eq!(s.large_image.as_deref(), Some("b"));
    assert_eq!(s.large_text, None);
}

#[test]
fn assets_sets_both_images() {
    let a = Activity::new().assets(ActivityAssets {
        large_image: Some("l".to_string()),
        large_text: None,
        small_image: None,
        small_text: Some("st".to_string()),
    });
    let s = a.assets.unwrap();
    assert_eq!(s.large_image.as_deref(), Some("l"));
    assert_eq!(s.small_text.as_deref(), Some("st"));
}

#[test]
fn wire_round_trip_keeps_every_field() {
    let a = Activity::new()
        .details("d".to_string())
        .timestamps(ActivityTimestamps { start: Some(10), end: None })
        .small_image("s".to_string(), Some("t".to_string()));
    let w = to_wire(a);
    assert_eq!(w.details.as_deref(), Some("d"));
    assert!(w.state.is_none());
    let wt = w.timestamps.unwrap();
    assert_eq!(wt.start, Some(10));
    assert!(wt.end.is_none());
    let wa = w.assets.clone().unwrap();
    assert!(wa.large_image.is_none());
    assert!(wa.large_text.is_none());
    assert_eq!(wa.small_image.as_deref(), Some("s"));
    assert_eq!(wa.small_text.as_deref(), Some("t"));
    let b = from_wire(w);
    assert_eq!(b.details.as_deref(), Some("d"));
    assert!(b.state.is_none());
    assert_eq!(b.timestamps.unwrap().start, Some(10));
    assert_eq!(b.assets.unwrap().small_text.as_deref(), Some("t"));
}

#[test]
fn wire_of_empty_activity_is_empty() {
    let w = to_wire(Activity::new());
    assert!(w.details.is_none());
    assert!(w.state.is_none());
    assert!(w.timestamps.is_none());
    assert!(w.assets.is_none());
}

#[test]
fn build_activity_from_pieces() {
    let a = rp_core::build_activity(
        Some("Coding".to_string()),
        None,
        true,
        Some("big".to_string()),
        Some("Big tip".to_string()),
        None,
        Some("ignored".to_string()),
    );
    assert_eq!(a.details.as_deref(), Some("Coding"));
    assert!(a.state.is_none());
    let t = a.timestamps.unwrap();
    assert!(t.start.unwrap() > 1_600_000_000);
    assert!(t.end.is_none());
    let s = a.assets.unwrap();
    assert_eq!(s.large_image.as_deref(), Some("big"));
    assert_eq!(s.large_text.as_deref(), Some("Big tip"));
    assert!(s.small_image.is_none());
    assert!(s.small_text.is_none());
}

#[test]
fn build_activity_without_images_or_timer() {
    let a = rp_core::build_activity(None, Some("s".to_string()), false, None, Some("t".to_string()), None, None);
    assert_eq!(a.state.as_deref(), Some("s"));
    assert!(a.timestamps.is_none());
    assert!(a.assets.is_none());
}
