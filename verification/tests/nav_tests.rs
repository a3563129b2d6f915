use stream_browser::keys::Key;
use stream_browser::keys::Request;
use stream_browser::keys::Stage;
use stream_browser::model::ErrorOverlay;
use stream_browser::nav::StreamsView;

fn view_with_created(names: &[&str]) -> StreamsView {
    let mut v = StreamsView::default();
    v.model.last_created = names.iter().map(|s| s.to_string()).collect();
    v
}

#[test]
fn default_state_is_main_and_empty() {
    let v = StreamsView::default();
    assert_eq!(v.stage, Stage::Main);
    assert_eq!(v.selected_tab, 0);
    assert_eq!(v.selected, 0);
    assert_eq!(v.scroll, 0);
    assert_eq!(v.buffer, "");
    assert!(v.model.last_created.is_empty());
    assert!(v.model.recently_changed.is_empty());
    assert!(v.model.selected_stream.is_none());
    assert!(v.model.selected_stream_events.is_empty());
    assert!(v.last_error.is_none());
}

#[test]
fn down_stops_at_list_end() {
    let mut v = view_with_created(&["a", "b", "c"]);
    assert_eq!(v.on_key_pressed(Key::Down), Request::Noop);
    assert_eq!(v.on_key_pressed(Key::Down), Request::Noop);
    assert_eq!(v.selected, 2);
    v.on_key_pressed(Key::Down);
    assert_eq!(v.selected, 2);
}

#[test]
fn down_on_empty_stream_stays_at_zero() {
    let mut v = StreamsView::default();
    v.stage = Stage::Stream;
    assert!(v.model.selected_stream_events.is_empty());
    let r = v.on_key_pressed(Key::Down);
    assert_eq!(r, Request::Noop);
    assert_eq!(v.selected, 0);
}

#[test]
fn down_on_empty_catalog_stays_at_zero() {
    let mut v = StreamsView::default();
    v.on_key_pressed(Key::Down);
    assert_eq!(v.selected, 0);
}

#[test]
fn search_enter_round_trip() {
    let mut v = StreamsView::default();
    assert_eq!(v.on_key_pressed(Key::Char('/')), Request::Noop);
    assert_eq!(v.stage, Stage::Search);
    for c in "orders".chars() {
        assert_eq!(v.on_key_pressed(Key::Char(c)), Request::Noop);
    }
    assert_eq!(v.buffer, "orders");
    let r = v.on_key_pressed(Key::Enter);
    assert_eq!(r, Request::Refresh);
    assert_eq!(v.stage, Stage::Stream);
    assert_eq!(v.model.selected_stream.as_deref(), Some("orders"));
    assert_eq!(v.selected, 0);
    assert_eq!(v.buffer, "");
}

#[test]
fn search_backspace_and_escape() {
    let mut v = StreamsView::default();
    v.on_key_pressed(Key::Char('/'));
    v.on_key_pressed(Key::Char('a'));
    v.on_key_pressed(Key::Char('b'));
    v.on_key_pressed(Key::Backspace);
    assert_eq!(v.buffer, "a");
    v.on_key_pressed(Key::Backspace);
    v.on_key_pressed(Key::Backspace);
    assert_eq!(v.buffer, "");
    assert_eq!(v.on_key_pressed(Key::Esc), Request::Noop);
    assert_eq!(v.stage, Stage::Main);
}

#[test]
fn search_takes_quit_key_as_text() {
    let mut v = StreamsView::default();
    v.on_key_pressed(Key::Char('/'));
    assert_eq!(v.on_key_pressed(Key::Char('q')), Request::Noop);
    assert_eq!(v.stage, Stage::Search);
    assert_eq!(v.buffer, "q");
}

#[test]
fn quit_in_main_requests_exit() {
    let mut v = StreamsView::default();
    assert_eq!(v.on_key_pressed(Key::Char('q')), Request::Exit);
    assert_eq!(v.on_key_pressed(Key::Char('Q')), Request::Exit);
}

#[test]
fn left_right_toggle_tab_and_reset_selection() {
    let mut v = view_with_created(&["a", "b"]);
    v.on_key_pressed(Key::Down);
    assert_eq!(v.selected, 1);
    v.on_key_pressed(Key::Right);
    assert_eq!(v.selected_tab, 1);
    assert_eq!(v.selected, 0);
    v.on_key_pressed(Key::Left);
    assert_eq!(v.selected_tab, 0);
}

#[test]
fn enter_in_main_selects_highlighted_row() {
    let mut v = view_with_created(&["a", "b", "c"]);
    v.on_key_pressed(Key::Down);
    let r = v.on_key_pressed(Key::Enter);
    assert_eq!(r, Request::Refresh);
    assert_eq!(v.stage, Stage::Stream);
    assert_eq!(v.model.selected_stream.as_deref(), Some("b"));
    assert_eq!(v.selected, 0);
}

#[test]
fn enter_in_main_on_empty_list_is_ignored() {
    let mut v = StreamsView::default();
    assert_eq!(v.on_key_pressed(Key::Enter), Request::Noop);
    assert_eq!(v.stage, Stage::Main);
    assert!(v.model.selected_stream.is_none());
}

#[test]
fn quit_leaves_stream_and_preview_stages() {
    let mut v = StreamsView::default();
    v.stage = Stage::StreamPreview;
    v.scroll = 5;
    assert_eq!(v.on_key_pressed(Key::Char('q')), Request::Noop);
    assert_eq!(v.stage, Stage::Stream);
    assert_eq!(v.scroll, 0);
    v.selected = 0;
    assert_eq!(v.on_key_pressed(Key::Char('q')), Request::Noop);
    assert_eq!(v.stage, Stage::Main);
    assert_eq!(v.selected, 0);
}

#[test]
fn enter_in_stream_opens_preview() {
    let mut v = StreamsView::default();
    v.stage = Stage::Stream;
    assert_eq!(v.on_key_pressed(Key::Enter), Request::Refresh);
    assert_eq!(v.stage, Stage::StreamPreview);
}

#[test]
fn preview_scroll_moves_and_never_underflows() {
    let mut v = StreamsView::default();
    v.stage = Stage::StreamPreview;
    v.on_key_pressed(Key::Up);
    assert_eq!(v.scroll, 0);
    v.on_key_pressed(Key::Down);
    v.on_key_pressed(Key::Down);
    assert_eq!(v.scroll, 2);
    v.on_key_pressed(Key::Up);
    assert_eq!(v.scroll, 1);
}

#[test]
fn error_overlay_eats_everything_but_dismiss() {
    let mut v = view_with_created(&["a"]);
    v.stage = Stage::Stream;
    v.model.selected_stream = Some("orders".to_string());
    v.last_error = Some(ErrorOverlay {
        stream_name: "orders".to_string(),
        message: "boom".to_string(),
    });
    assert_eq!(v.on_key_pressed(Key::Down), Request::Noop);
    assert_eq!(v.stage, Stage::Stream);
    assert!(v.last_error.is_some());
    assert_eq!(v.on_key_pressed(Key::Enter), Request::Noop);
    assert!(v.last_error.is_some());
    assert_eq!(v.on_key_pressed(Key::Char('q')), Request::Noop);
    assert!(v.last_error.is_none());
    assert_eq!(v.stage, Stage::Main);
    assert!(v.model.selected_stream.is_none());
    assert_eq!(v.selected, 0);
}

#[test]
fn unload_resets_everything() {
    let mut v = view_with_created(&["a", "b"]);
    v.stage = Stage::Stream;
    v.selected = 1;
    v.scroll = 3;
    v.model.selected_stream = Some("s".to_string());
    v.unload();
    assert_eq!(v.stage, Stage::Main);
    assert_eq!(v.selected, 0);
    assert_eq!(v.selected_tab, 0);
    assert_eq!(v.scroll, 0);
    assert!(v.model.last_created.is_empty());
    assert!(v.model.recently_changed.is_empty());
    assert!(v.model.selected_stream.is_none());
    assert!(v.model.selected_stream_events.is_empty());
    assert!(v.last_error.is_none());
}

#[test]
fn keybindings_follow_the_stage() {
    let mut v = StreamsView::default();
    let main = v.keybindings();
    assert_eq!(main.len(), 6);
    assert_eq!(main[0].0, "↑");
    assert_eq!(main[4], ("/".to_string(), "Search".to_string()));
    v.stage = Stage::Stream;
    assert_eq!(v.keybindings().len(), 4);
    v.stage = Stage::StreamPreview;
    let p = v.keybindings();
    assert_eq!(p.len(), 3);
    assert_eq!(p[2], ("q".to_string(), "Close".to_string()));
}
