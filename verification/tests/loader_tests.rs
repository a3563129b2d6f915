use stream_browser::keys::Key;
use stream_browser::keys::Stage;
use stream_browser::loader::Catalog;
use stream_browser::loader::ReadEnd;
use stream_browser::loader::build_catalog;
use stream_browser::loader::contains_string;
use stream_browser::loader::dedup_keep_first;
use stream_browser::loader::reads_all_log;
use stream_browser::model::EventRecord;
use stream_browser::nav::RefreshTarget;
use stream_browser::nav::StreamsView;
use stream_browser::text::stream_name_of;

fn strings(xs: &[&str]) -> Vec<String> {
    xs.iter().map(|s| s.to_string()).collect()
}

#[test]
fn stream_name_is_what_follows_the_last_at() {
    assert_eq!(stream_name_of("5@orders"), "orders");
    assert_eq!(stream_name_of("a@b@c"), "c");
    assert_eq!(stream_name_of("x@"), "");
    assert_eq!(stream_name_of("noatsign"), "");
    assert_eq!(stream_name_of(""), "");
}

#[test]
fn dedup_keeps_first_occurrence_in_order() {
    let out = dedup_keep_first(&strings(&["a", "b", "a", "c", "b"]));
    assert_eq!(out, strings(&["a", "b", "c"]));
    let empty = dedup_keep_first(&strings(&[]));
    assert!(empty.is_empty());
}

#[test]
fn contains_string_compares_contents() {
    let v = strings(&["a", "bb"]);
    assert!(contains_string(&v, &"bb".to_string()));
    assert!(!contains_string(&v, &"b".to_string()));
}

#[test]
fn missing_source_is_a_benign_empty_result() {
    let r = build_catalog(strings(&[]), ReadEnd::NotFound, strings(&["s1", "s1"]), ReadEnd::Done);
    let c = r.expect("a missing source must not fail the load");
    assert!(c.last_created.is_empty());
    assert_eq!(c.recently_changed, strings(&["s1"]));
}

#[test]
fn catalog_maps_payloads_and_dedups_identifiers() {
    let r = build_catalog(
        strings(&["3@orders", "0@billing"]),
        ReadEnd::Done,
        strings(&["orders", "billing", "orders"]),
        ReadEnd::NotFound,
    );
    let c = r.unwrap();
    assert_eq!(c.last_created, strings(&["orders", "billing"]));
    assert_eq!(c.recently_changed, strings(&["orders", "billing"]));
}

#[test]
fn transport_failure_aborts_the_whole_load() {
    let r = build_catalog(
        strings(&["3@orders"]),
        ReadEnd::Failed("boom".to_string()),
        strings(&["x"]),
        ReadEnd::Done,
    );
    assert_eq!(r.err().as_deref(), Some("boom"));
    let r = build_catalog(
        strings(&["3@orders"]),
        ReadEnd::Done,
        strings(&["x"]),
        ReadEnd::Failed("later".to_string()),
    );
    assert_eq!(r.err().as_deref(), Some("later"));
}

#[test]
fn the_global_log_marker_is_exact() {
    assert!(reads_all_log(&"$all".to_string()));
    assert!(!reads_all_log(&"orders".to_string()));
    assert!(!reads_all_log(&"$allx".to_string()));
}

#[test]
fn refresh_is_skipped_under_the_preview() {
    let mut v = StreamsView::default();
    v.stage = Stage::StreamPreview;
    v.model.selected_stream = Some("orders".to_string());
    assert!(matches!(v.refresh_target(), RefreshTarget::Skip));
}

#[test]
fn refresh_targets_the_selected_stream_or_the_catalog() {
    let mut v = StreamsView::default();
    assert!(matches!(v.refresh_target(), RefreshTarget::Catalog));
    v.model.selected_stream = Some("orders".to_string());
    match v.refresh_target() {
        RefreshTarget::Events(name) => assert_eq!(name, "orders"),
        _ => panic!("expected an event reload"),
    }
}

#[test]
fn applying_a_catalog_replaces_the_model_wholesale() {
    let mut v = StreamsView::default();
    v.model.selected_stream = Some("stale".to_string());
    let r = v.apply_catalog(Ok(Catalog {
        last_created: strings(&["a", "b"]),
        recently_changed: strings(&["c"]),
    }));
    assert!(r.is_ok());
    assert_eq!(v.model.last_created, strings(&["a", "b"]));
    assert_eq!(v.model.recently_changed, strings(&["c"]));
    assert!(v.model.selected_stream.is_none());
    assert!(v.model.selected_stream_events.is_empty());
}

#[test]
fn a_failed_catalog_load_changes_nothing() {
    let mut v = StreamsView::default();
    v.model.last_created = strings(&["keep"]);
    let r = v.apply_catalog(Err("down".to_string()));
    assert_eq!(r.err().as_deref(), Some("down"));
    assert_eq!(v.model.last_created, strings(&["keep"]));
    assert!(v.last_error.is_none());
}

fn record(stream: &str, revision: u64) -> EventRecord {
    EventRecord {
        stream_id: stream.to_string(),
        revision,
        event_type: "created".to_string(),
        created_ms: 0,
        data: Vec::new(),
        is_json: false,
    }
}

#[test]
fn a_successful_event_load_replaces_the_list() {
    let mut v = StreamsView::default();
    v.stage = Stage::Stream;
    v.model.selected_stream = Some("orders".to_string());
    v.apply_events(Ok(vec![record("orders", 1), record("orders", 0)]));
    assert_eq!(v.model.selected_stream_events.len(), 2);
    assert!(v.last_error.is_none());
}

#[test]
fn a_failed_refresh_discards_events_and_raises_the_overlay() {
    let mut v = StreamsView::default();
    v.stage = Stage::Stream;
    v.model.selected_stream = Some("orders".to_string());
    v.model.selected_stream_events = vec![record("orders", 0)];
    v.selected = 0;
    v.apply_events(Err("transport error".to_string()));
    assert!(v.model.selected_stream_events.is_empty());
    let e = v.last_error.as_ref().expect("the failure must be captured");
    assert_eq!(e.stream_name, "orders");
    assert_eq!(e.message, "transport error");
    // dismissing the overlay returns to Main and clears the selection
    v.on_key_pressed(Key::Char('q'));
    assert!(v.last_error.is_none());
    assert_eq!(v.stage, Stage::Main);
    assert!(v.model.selected_stream.is_none());
}

#[test]
fn a_shrunken_event_list_pulls_the_selection_back() {
    let mut v = StreamsView::default();
    v.stage = Stage::Stream;
    v.model.selected_stream = Some("orders".to_string());
    v.model.selected_stream_events = vec![record("orders", 0), record("orders", 1), record("orders", 2)];
    v.selected = 2;
    v.apply_events(Ok(vec![record("orders", 0)]));
    assert_eq!(v.selected, 0);
}
