use vstd::prelude::*;
use crate::keys::Key;
use crate::keys::Request;
use crate::keys::Stage;
use crate::keys::is_ascii_char;
use crate::keys::is_quit_key;
use crate::loader::no_dup;
use crate::model::EventView;
use crate::model::OverlayView;

verus! {

/// Fixed margin of the preview pane: the pane's borders take these lines.
pub const SCROLL_MARGIN: u16 = 2;

/// Mathematical image of the whole browser: model, navigation and overlay.
#[verifier::ext_equal]
pub ghost struct ViewState {
    pub stage: Stage,
    pub tab: int,
    pub selected: int,
    pub scroll: int,
    pub buffer: Seq<char>,
    pub last_created: Seq<Seq<char>>,
    pub recently_changed: Seq<Seq<char>>,
    pub selected_stream: Option<Seq<char>>,
    pub events: Seq<EventView>,
    pub error: Option<OverlayView>,
}

/// The length of the list the selection currently indexes: the active
/// catalog tab in Main and Search, the event list in Stream and preview.
pub open spec fn active_len(s: ViewState) -> int {
    match s.stage {
        Stage::Main | Stage::Search => if s.tab == 0 {
            s.last_created.len() as int
        } else {
            s.recently_changed.len() as int
        },
        Stage::Stream | Stage::StreamPreview => s.events.len() as int,
    }
}

/// Well-formedness of the browser state: the tab is one of the two catalog
/// columns, the selection stays inside the active list (and is 0 when that
/// list is empty), the scroll offset fits its register, and the recently
/// changed list holds no duplicate identifier.
pub open spec fn wf(s: ViewState) -> bool {
    &&& 0 <= s.tab <= 1
    &&& if active_len(s) == 0 {
        s.selected == 0
    } else {
        0 <= s.selected < active_len(s)
    }
    &&& 0 <= s.scroll <= u16::MAX
    &&& no_dup(s.recently_changed)
}

/// One key handled while the error overlay is up: dismiss clears the
/// overlay and the selection and forces the Main stage; all else is eaten.
pub open spec fn step_error(s: ViewState, k: Key) -> (ViewState, Request) {
    if is_quit_key(k) {
        (
            ViewState { error: None, stage: Stage::Main, selected_stream: None, selected: 0, ..s },
            Request::Noop,
        )
    } else {
        (s, Request::Noop)
    }
}

/// One key in the Search stage.
pub open spec fn step_search(s: ViewState, k: Key) -> (ViewState, Request) {
    match k {
        Key::Esc => (ViewState { stage: Stage::Main, ..s }, Request::Noop),
        Key::Backspace => (
            ViewState {
                buffer: if s.buffer.len() > 0 {
                    s.buffer.drop_last()
                } else {
                    s.buffer
                },
                ..s
            },
            Request::Noop,
        ),
        Key::Enter => (
            ViewState {
                stage: Stage::Stream,
                selected: 0,
                selected_stream: Some(s.buffer),
                buffer: Seq::empty(),
                ..s
            },
            Request::Refresh,
        ),
        Key::Char(c) => if is_ascii_char(c) {
            (ViewState { buffer: s.buffer.push(c), ..s }, Request::Noop)
        } else {
            (s, Request::Noop)
        },
        Key::Left | Key::Right => (
            ViewState { tab: if s.tab == 0 { 1 } else { 0 }, selected: 0, ..s },
            Request::Noop,
        ),
        _ => (s, Request::Noop),
    }
}

/// One key in the Main stage.
pub open spec fn step_main(s: ViewState, k: Key) -> (ViewState, Request) {
    match k {
        Key::Char(c) => if c == 'q' || c == 'Q' {
            (s, Request::Exit)
        } else if c == '/' {
            (ViewState { stage: Stage::Search, ..s }, Request::Noop)
        } else {
            (s, Request::Noop)
        },
        Key::Left | Key::Right => (
            ViewState { tab: if s.tab == 0 { 1 } else { 0 }, selected: 0, ..s },
            Request::Noop,
        ),
        Key::Up => (
            ViewState {
                selected: if s.selected > 0 {
                    s.selected - 1
                } else {
                    s.selected
                },
                ..s
            },
            Request::Noop,
        ),
        Key::Down => (
            ViewState {
                selected: if s.selected + 1 < active_len(s) {
                    s.selected + 1
                } else {
                    s.selected
                },
                ..s
            },
            Request::Noop,
        ),
        Key::Enter => if 0 <= s.selected < active_len(s) {
            (
                ViewState {
                    stage: Stage::Stream,
                    selected: 0,
                    selected_stream: Some(
                        if s.tab == 0 {
                            s.last_created[s.selected]
                        } else {
                            s.recently_changed[s.selected]
                        },
                    ),
                    ..s
                },
                Request::Refresh,
            )
        } else {
            (s, Request::Noop)
        },
        _ => (s, Request::Noop),
    }
}

/// One key in the Stream stage.
pub open spec fn step_stream(s: ViewState, k: Key) -> (ViewState, Request) {
    match k {
        Key::Char(c) => if c == 'q' || c == 'Q' {
            (ViewState { stage: Stage::Main, selected: 0, ..s }, Request::Noop)
        } else {
            (s, Request::Noop)
        },
        Key::Up => (
            ViewState {
                selected: if s.selected > 0 {
                    s.selected - 1
                } else {
                    s.selected
                },
                ..s
            },
            Request::Noop,
        ),
        Key::Down => (
            ViewState {
                selected: if s.selected + 1 < s.events.len() {
                    s.selected + 1
                } else {
                    s.selected
                },
                ..s
            },
            Request::Noop,
        ),
        Key::Enter => (ViewState { stage: Stage::StreamPreview, ..s }, Request::Refresh),
        _ => (s, Request::Noop),
    }
}

/// One key in the preview stage. A Down past the end is allowed and is
/// clamped lazily at render time.
pub open spec fn step_preview(s: ViewState, k: Key) -> (ViewState, Request) {
    match k {
        Key::Char(c) => if c == 'q' || c == 'Q' {
            (ViewState { stage: Stage::Stream, scroll: 0, ..s }, Request::Noop)
        } else {
            (s, Request::Noop)
        },
        Key::Up => (
            ViewState {
                scroll: if s.scroll > 0 {
                    s.scroll - 1
                } else {
                    s.scroll
                },
                ..s
            },
            Request::Noop,
        ),
        Key::Down => (
            ViewState {
                scroll: if s.scroll < u16::MAX {
                    s.scroll + 1
                } else {
                    s.scroll
                },
                ..s
            },
            Request::Noop,
        ),
        _ => (s, Request::Noop),
    }
}

/// One key press: the error overlay intercepts first, then the current
/// stage's handler decides.
pub open spec fn step(s: ViewState, k: Key) -> (ViewState, Request) {
    if s.error is Some {
        step_error(s, k)
    } else {
        match s.stage {
            Stage::Main => step_main(s, k),
            Stage::Search => step_search(s, k),
            Stage::Stream => step_stream(s, k),
            Stage::StreamPreview => step_preview(s, k),
        }
    }
}

/// The state after a whole sequence of key presses.
pub open spec fn run(s: ViewState, keys: Seq<Key>) -> ViewState
    decreases keys.len(),
{
    if keys.len() == 0 {
        s
    } else {
        run(step(s, keys[0]).0, keys.drop_first())
    }
}

/// Every single key press keeps the browser state well formed; in
/// particular the selection stays inside `[0, len-1]` of the active list,
/// or at 0 when that list is empty.
pub proof fn lemma_step_keeps_wf(s: ViewState, k: Key)
    requires
        wf(s),
    ensures
        wf(step(s, k).0),
{
}

/// Every sequence of key presses keeps the browser state well formed:
/// after each key the selection is inside `[0, len-1]` of the active list,
/// or at 0 when that list is empty.
pub proof fn lemma_run_keeps_wf(s: ViewState, keys: Seq<Key>)
    requires
        wf(s),
    ensures
        wf(run(s, keys)),
    decreases keys.len(),
{
    if keys.len() > 0 {
        lemma_step_keeps_wf(s, keys[0]);
        lemma_run_keeps_wf(step(s, keys[0]).0, keys.drop_first());
    }
}

/// An index forced back into a list's bounds: unchanged while it is inside,
/// the last row when it fell off the end, 0 for an empty list.
pub open spec fn clamp_index(i: int, len: int) -> int {
    if len == 0 {
        0
    } else if i < len {
        i
    } else {
        len - 1
    }
}

/// A finished catalog load replaces the whole model: both summary lists are
/// installed, the drill-down is cleared, and the selection is forced back
/// into the active list's bounds.
pub open spec fn apply_catalog_spec(
    s: ViewState,
    created: Seq<Seq<char>>,
    changed: Seq<Seq<char>>,
) -> ViewState {
    let t = ViewState {
        last_created: created,
        recently_changed: changed,
        selected_stream: None,
        events: Seq::empty(),
        ..s
    };
    ViewState { selected: clamp_index(s.selected, active_len(t)), ..t }
}

/// A finished event load for the drilled-into stream. On success the event
/// list is replaced wholesale; on failure it is discarded and the failure is
/// captured into the overlay together with the active stream name. Either
/// way the selection is forced back into the active list's bounds.
pub open spec fn apply_events_spec(s: ViewState, r: Result<Seq<EventView>, Seq<char>>) -> ViewState {
    match r {
        Ok(es) => {
            let t = ViewState { events: es, ..s };
            ViewState { selected: clamp_index(s.selected, active_len(t)), ..t }
        },
        Err(m) => {
            let t = ViewState {
                events: Seq::empty(),
                error: Some(
                    OverlayView {
                        stream_name: match s.selected_stream {
                            Some(n) => n,
                            None => Seq::empty(),
                        },
                        message: m,
                    },
                ),
                ..s
            };
            ViewState { selected: clamp_index(s.selected, active_len(t)), ..t }
        },
    }
}

/// A catalog load keeps the state well formed as long as what it installs
/// as the recently changed list holds no duplicates.
pub proof fn lemma_apply_catalog_keeps_wf(
    s: ViewState,
    created: Seq<Seq<char>>,
    changed: Seq<Seq<char>>,
)
    requires
        wf(s),
        no_dup(changed),
    ensures
        wf(apply_catalog_spec(s, created, changed)),
{
}

/// An event load, successful or failed, keeps the state well formed.
pub proof fn lemma_apply_events_keeps_wf(s: ViewState, r: Result<Seq<EventView>, Seq<char>>)
    requires
        wf(s),
    ensures
        wf(apply_events_spec(s, r)),
{
}

/// The inputs one catalog load installs, as the loader leaves them: the
/// creation names in read order and the changed identifiers already
/// deduplicated keep-first.
pub ghost struct CatalogLoad {
    pub created: Seq<Seq<char>>,
    pub changed_ids: Seq<Seq<char>>,
}

/// The state after a whole sequence of catalog loads, each replacing the
/// model wholesale and deduplicating the changed identifiers keep-first.
pub open spec fn run_loads(s: ViewState, ls: Seq<CatalogLoad>) -> ViewState
    decreases ls.len(),
{
    if ls.len() == 0 {
        s
    } else {
        run_loads(
            apply_catalog_spec(s, ls[0].created, crate::loader::dedup_first(ls[0].changed_ids)),
            ls.drop_first(),
        )
    }
}

/// After every sequence of catalog loads the recently changed list holds
/// each identifier at most once, and the state stays well formed.
pub proof fn lemma_loads_keep_unique(s: ViewState, ls: Seq<CatalogLoad>)
    requires
        wf(s),
    ensures
        wf(run_loads(s, ls)),
        no_dup(run_loads(s, ls).recently_changed),
    decreases ls.len(),
{
    if ls.len() == 0 {
    } else {
        crate::loader::lemma_dedup_first_no_dup(ls[0].changed_ids);
        lemma_apply_catalog_keeps_wf(
            s,
            ls[0].created,
            crate::loader::dedup_first(ls[0].changed_ids),
        );
        lemma_loads_keep_unique(
            apply_catalog_spec(s, ls[0].created, crate::loader::dedup_first(ls[0].changed_ids)),
            ls.drop_first(),
        );
    }
}

/// Whether every key of the sequence is an ASCII character key: the
/// presses that type text into the search box.
pub open spec fn all_ascii_char_keys(keys: Seq<Key>) -> bool {
    forall|i: int| 0 <= i < keys.len() ==> keys[i] is Char && is_ascii_char(keys[i]->Char_0)
}

/// The text a sequence of character keys types, in order.
pub open spec fn text_of(keys: Seq<Key>) -> Seq<char>
    decreases keys.len(),
{
    if keys.len() == 0 {
        Seq::empty()
    } else {
        Seq::empty().push(keys[0]->Char_0) + text_of(keys.drop_first())
    }
}

/// Typing ASCII character keys in the Search stage accumulates exactly
/// their text at the end of the buffer and changes nothing else.
pub proof fn lemma_typing(s: ViewState, keys: Seq<Key>)
    requires
        s.error is None,
        s.stage == Stage::Search,
        all_ascii_char_keys(keys),
    ensures
        run(s, keys) == (ViewState { buffer: s.buffer + text_of(keys), ..s }),
    decreases keys.len(),
{
    if keys.len() == 0 {
        assert(s.buffer + text_of(keys) =~= s.buffer);
        assert((ViewState { buffer: s.buffer + text_of(keys), ..s }) =~= s);
    } else {
        assert(keys[0] is Char && is_ascii_char(keys[0]->Char_0));
        let c = keys[0]->Char_0;
        let s1 = step(s, keys[0]).0;
        assert(s1 == (ViewState { buffer: s.buffer.push(c), ..s }));
        assert(all_ascii_char_keys(keys.drop_first())) by {
            assert(forall|i: int| 0 <= i < keys.drop_first().len() ==> keys.drop_first()[i]
                == keys[i + 1]);
        }
        lemma_typing(s1, keys.drop_first());
        assert(s.buffer.push(c) + text_of(keys.drop_first()) =~= s.buffer + text_of(keys));
        assert(run(s, keys) == run(s1, keys.drop_first()));
    }
}

/// One more key at the end of a sequence is one more step at the end.
pub proof fn lemma_run_push(s: ViewState, keys: Seq<Key>, k: Key)
    ensures
        run(s, keys.push(k)) == step(run(s, keys), k).0,
    decreases keys.len(),
{
    let kp = keys.push(k);
    if keys.len() == 0 {
        assert(kp[0] == k);
        assert(kp.drop_first() =~= Seq::<Key>::empty());
        assert(run(s, kp) == run(step(s, kp[0]).0, kp.drop_first()));
        assert(run(step(s, k).0, Seq::<Key>::empty()) == step(s, k).0);
        assert(run(s, keys) == s);
    } else {
        assert(kp[0] == keys[0]);
        assert(kp.drop_first() =~= keys.drop_first().push(k));
        lemma_run_push(step(s, keys[0]).0, keys.drop_first(), k);
        assert(run(s, kp) == run(step(s, kp[0]).0, kp.drop_first()));
        assert(run(s, keys) == run(step(s, keys[0]).0, keys.drop_first()));
    }
}

/// Round trip through the search box: typing a name in the Search stage
/// and pressing Enter drills into exactly the text the buffer then held —
/// no trimming, no case change — lands in the Stream stage with the
/// selection at 0 and an empty buffer, and asks the host for a refresh.
pub proof fn lemma_search_round_trip(s: ViewState, keys: Seq<Key>)
    requires
        s.error is None,
        s.stage == Stage::Search,
        all_ascii_char_keys(keys),
    ensures
        ({
            let t = run(s, keys.push(Key::Enter));
            &&& t.stage == Stage::Stream
            &&& t.selected_stream == Some(s.buffer + text_of(keys))
            &&& t.selected == 0
            &&& t.buffer == Seq::<char>::empty()
        }),
        step(run(s, keys), Key::Enter).1 == Request::Refresh,
{
    lemma_typing(s, keys);
    lemma_run_push(s, keys, Key::Enter);
}

/// The render-time clamp of the preview scroll, for content height `c` and
/// visible height `h`: no scrolling when everything fits under the margin,
/// else at most the offset that reveals the final line.
pub open spec fn clamp_scroll_spec(scroll: int, c: int, h: int) -> int {
    if h >= c + SCROLL_MARGIN {
        0
    } else if scroll > c + SCROLL_MARGIN - h {
        c + SCROLL_MARGIN - h
    } else {
        scroll
    }
}

} // verus!
