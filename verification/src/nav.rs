use vstd::prelude::*;
use vstd::string::StringExecFns;
use crate::keys::Key;
use crate::keys::Request;
use crate::keys::Stage;
use crate::loader::Catalog;
use crate::loader::no_dup;
use crate::model::ErrorOverlay;
use crate::model::EventRecord;
use crate::model::EventView;
use crate::model::Model;
use crate::state::SCROLL_MARGIN;
use crate::state::ViewState;
use crate::state::active_len;
use crate::state::apply_catalog_spec;
use crate::state::apply_events_spec;
use crate::state::clamp_index;
use crate::state::clamp_scroll_spec;
use crate::state::lemma_apply_catalog_keeps_wf;
use crate::state::lemma_apply_events_keeps_wf;
use crate::state::lemma_step_keeps_wf;
use crate::state::step;
use crate::state::wf;
use crate::text::pop_char;
use crate::text::push_char;

verus! {

/// What the host's next refresh call must do for the current state.
pub enum RefreshTarget {
    /// Nothing: refresh is a deliberate no-op under the preview.
    Skip,
    /// Reload the two catalog summary lists.
    Catalog,
    /// Reload the named stream's event list.
    Events(String),
}

/// The browsing component: the four-stage navigation state machine together
/// with the catalog model it owns and the single error overlay slot.
pub struct StreamsView {
    /// Which catalog column is active in Main and Search: 0 or 1.
    pub selected_tab: usize,
    /// The highlighted row of the active list.
    pub selected: usize,
    /// The current stage.
    pub stage: Stage,
    /// The preview pane's scroll offset; clamped lazily at render time.
    pub scroll: u16,
    /// The search box's accumulated input.
    pub buffer: String,
    /// The catalog and drill-down model.
    pub model: Model,
    /// The captured failure, if one is pending.
    pub last_error: Option<ErrorOverlay>,
}

/// The `(key, action)` hint shown at position `i` for the given stage.
pub open spec fn keybinding_spec(stage: Stage, i: int) -> (Seq<char>, Seq<char>) {
    if i == 0 {
        ("↑"@, "Scroll up"@)
    } else if i == 1 {
        ("↓"@, "Scroll down"@)
    } else {
        match stage {
            Stage::StreamPreview => ("q"@, "Close"@),
            Stage::Stream => if i == 2 {
                ("Enter"@, "Select"@)
            } else {
                ("q"@, "Close"@)
            },
            Stage::Main | Stage::Search => if i == 2 {
                ("→"@, "Move right"@)
            } else if i == 3 {
                ("← "@, "Move left"@)
            } else if i == 4 {
                ("/"@, "Search"@)
            } else {
                ("Enter"@, "Select"@)
            },
        }
    }
}

/// One `(key, action)` hint.
fn hint(k: &str, a: &str) -> (p: (String, String))
    ensures
        p.0@ == k@,
        p.1@ == a@,
{
    (String::from_str(k), String::from_str(a))
}

/// The freshly activated browser: Main stage, first tab, everything empty.
pub open spec fn init_state() -> ViewState {
    ViewState {
        stage: Stage::Main,
        tab: 0,
        selected: 0,
        scroll: 0,
        buffer: Seq::empty(),
        last_created: Seq::empty(),
        recently_changed: Seq::empty(),
        selected_stream: None,
        events: Seq::empty(),
        error: None,
    }
}

/// Deactivation resets navigation and model; only the search buffer's text
/// survives until the next search.
pub open spec fn unloaded_spec(s: ViewState) -> ViewState {
    ViewState { buffer: s.buffer, ..init_state() }
}

impl StreamsView {
    /// Mathematical image of the whole component.
    pub open spec fn vs(&self) -> ViewState {
        ViewState {
            stage: self.stage,
            tab: self.selected_tab as int,
            selected: self.selected as int,
            scroll: self.scroll as int,
            buffer: self.buffer@,
            last_created: self.model.last_created.deep_view(),
            recently_changed: self.model.recently_changed.deep_view(),
            selected_stream: self.model.selected_stream.deep_view(),
            events: self.model.selected_stream_events.deep_view(),
            error: self.last_error.deep_view(),
        }
    }

    /// Well-formedness of the component.
    pub open spec fn inv(&self) -> bool {
        wf(self.vs())
    }

    /// Forces the selection back into the active list's bounds.
    fn clamp_selected(&mut self)
        ensures
            final(self).vs() == (ViewState {
                selected: clamp_index(old(self).vs().selected, active_len(old(self).vs())),
                ..old(self).vs()
            }),
    {
        let len: usize = match self.stage {
            Stage::Main | Stage::Search => if self.selected_tab == 0 {
                self.model.last_created.len()
            } else {
                self.model.recently_changed.len()
            },
            Stage::Stream | Stage::StreamPreview => self.model.selected_stream_events.len(),
        };
        if len == 0 {
            self.selected = 0;
        } else if self.selected >= len {
            self.selected = len - 1;
        }
        proof {
            assert(final(self).vs() =~= (ViewState {
                selected: clamp_index(old(self).vs().selected, active_len(old(self).vs())),
                ..old(self).vs()
            }));
        }
    }

    /// Handles one key press: the error overlay intercepts first, then the
    /// current stage decides. Returns what the host must do next.
    pub fn on_key_pressed(&mut self, key: Key) -> (r: Request)
        ensures
            final(self).vs() == step(old(self).vs(), key).0,
            r == step(old(self).vs(), key).1,
            old(self).inv() ==> final(self).inv(),
    {
        proof {
            if old(self).inv() {
                lemma_step_keeps_wf(old(self).vs(), key);
            }
        }
        let mut req = Request::Noop;
        if self.last_error.is_some() {
            if let Key::Char(c) = key {
                if c == 'q' || c == 'Q' {
                    self.last_error = None;
                    self.stage = Stage::Main;
                    self.model.selected_stream = None;
                    self.selected = 0;
                }
            }
            proof {
                assert(final(self).vs() =~= step(old(self).vs(), key).0);
            }
            return req;
        }
        match self.stage {
            Stage::Search => {
                match key {
                    Key::Esc => {
                        self.stage = Stage::Main;
                    },
                    Key::Backspace => {
                        let _ = pop_char(&mut self.buffer);
                    },
                    Key::Enter => {
                        self.selected = 0;
                        self.stage = Stage::Stream;
                        let entered = self.buffer.clone();
                        self.model.selected_stream = Some(entered);
                        self.buffer = String::new();
                        req = Request::Refresh;
                    },
                    Key::Char(c) => {
                        if (c as u32) < 128 {
                            push_char(&mut self.buffer, c);
                        }
                    },
                    Key::Left | Key::Right => {
                        self.selected_tab = if self.selected_tab == 0 {
                            1
                        } else {
                            0
                        };
                        self.selected = 0;
                    },
                    _ => {},
                }
            },
            Stage::Main => {
                match key {
                    Key::Char(c) => {
                        if c == 'q' || c == 'Q' {
                            req = Request::Exit;
                        } else if c == '/' {
                            self.stage = Stage::Search;
                        }
                    },
                    Key::Left | Key::Right => {
                        self.selected_tab = if self.selected_tab == 0 {
                            1
                        } else {
                            0
                        };
                        self.selected = 0;
                    },
                    Key::Up => {
                        if self.selected > 0 {
                            self.selected = self.selected - 1;
                        }
                    },
                    Key::Down => {
                        let len: usize = if self.selected_tab == 0 {
                            self.model.last_created.len()
                        } else {
                            self.model.recently_changed.len()
                        };
                        if len > 0 && self.selected < len - 1 {
                            self.selected = self.selected + 1;
                        }
                    },
                    Key::Enter => {
                        let len: usize = if self.selected_tab == 0 {
                            self.model.last_created.len()
                        } else {
                            self.model.recently_changed.len()
                        };
                        if self.selected < len {
                            let name = if self.selected_tab == 0 {
                                self.model.last_created[self.selected].clone()
                            } else {
                                self.model.recently_changed[self.selected].clone()
                            };
                            self.stage = Stage::Stream;
                            self.model.selected_stream = Some(name);
                            self.selected = 0;
                            req = Request::Refresh;
                        }
                    },
                    _ => {},
                }
            },
            Stage::Stream => {
                match key {
                    Key::Char(c) => {
                        if c == 'q' || c == 'Q' {
                            self.stage = Stage::Main;
                            self.selected = 0;
                        }
                    },
                    Key::Up => {
                        if self.selected > 0 {
                            self.selected = self.selected - 1;
                        }
                    },
                    Key::Down => {
                        let len: usize = self.model.selected_stream_events.len();
                        if len > 0 && self.selected < len - 1 {
                            self.selected = self.selected + 1;
                        }
                    },
                    Key::Enter => {
                        self.stage = Stage::StreamPreview;
                        req = Request::Refresh;
                    },
                    _ => {},
                }
            },
            Stage::StreamPreview => {
                match key {
                    Key::Char(c) => {
                        if c == 'q' || c == 'Q' {
                            self.stage = Stage::Stream;
                            self.scroll = 0;
                        }
                    },
                    Key::Up => {
                        if self.scroll > 0 {
                            self.scroll = self.scroll - 1;
                        }
                    },
                    Key::Down => {
                        if self.scroll < u16::MAX {
                            self.scroll = self.scroll + 1;
                        }
                    },
                    _ => {},
                }
            },
        }
        proof {
            assert(final(self).vs() =~= step(old(self).vs(), key).0);
        }
        req
    }

    /// Says what the next refresh must do: nothing under the preview, the
    /// drilled-into stream's events while one is selected, else the catalog.
    pub fn refresh_target(&self) -> (t: RefreshTarget)
        ensures
            self.vs().stage == Stage::StreamPreview ==> t is Skip,
            self.vs().stage != Stage::StreamPreview && self.vs().selected_stream is Some ==> t
                is Events && t->Events_0@ == self.vs().selected_stream->0,
            self.vs().stage != Stage::StreamPreview && self.vs().selected_stream is None ==> t
                is Catalog,
    {
        if let Stage::StreamPreview = self.stage {
            return RefreshTarget::Skip;
        }
        match &self.model.selected_stream {
            Some(name) => RefreshTarget::Events(name.clone()),
            None => RefreshTarget::Catalog,
        }
    }

    /// Installs a finished catalog load: the two summary lists replace the
    /// model wholesale and any drill-down is cleared; a failure leaves the
    /// component as it was and is handed back to the caller.
    pub fn apply_catalog(&mut self, outcome: Result<Catalog, String>) -> (r: Result<(), String>)
        ensures
            outcome matches Err(m) ==> *final(self) == *old(self) && r == Err::<(), String>(m),
            outcome matches Ok(c) ==> {
                &&& final(self).vs() == apply_catalog_spec(
                    old(self).vs(),
                    c.last_created.deep_view(),
                    c.recently_changed.deep_view(),
                )
                &&& r is Ok
                &&& old(self).inv() && no_dup(c.recently_changed.deep_view()) ==> final(self).inv()
            },
    {
        match outcome {
            Err(m) => Err(m),
            Ok(c) => {
                proof {
                    if old(self).inv() && no_dup(c.recently_changed.deep_view()) {
                        lemma_apply_catalog_keeps_wf(
                            old(self).vs(),
                            c.last_created.deep_view(),
                            c.recently_changed.deep_view(),
                        );
                    }
                }
                self.model.last_created = c.last_created;
                self.model.recently_changed = c.recently_changed;
                self.model.selected_stream = None;
                self.model.selected_stream_events = Vec::new();
                self.clamp_selected();
                proof {
                    assert(final(self).vs() =~= apply_catalog_spec(
                        old(self).vs(),
                        c.last_created.deep_view(),
                        c.recently_changed.deep_view(),
                    ));
                }
                Ok(())
            },
        }
    }

    /// Installs a finished event load for the drilled-into stream: on
    /// success the event list is replaced wholesale; on failure it is
    /// discarded and the failure is captured into the error overlay with
    /// the active stream name.
    pub fn apply_events(&mut self, outcome: Result<Vec<EventRecord>, String>)
        ensures
            final(self).vs() == apply_events_spec(
                old(self).vs(),
                match outcome {
                    Ok(es) => Ok::<Seq<EventView>, Seq<char>>(es.deep_view()),
                    Err(m) => Err::<Seq<EventView>, Seq<char>>(m@),
                },
            ),
            old(self).inv() ==> final(self).inv(),
    {
        proof {
            if old(self).inv() {
                lemma_apply_events_keeps_wf(
                    old(self).vs(),
                    match &outcome {
                        Ok(es) => Ok::<Seq<EventView>, Seq<char>>(es.deep_view()),
                        Err(m) => Err::<Seq<EventView>, Seq<char>>(m@),
                    },
                );
            }
        }
        match outcome {
            Ok(es) => {
                self.model.selected_stream_events = es;
                self.clamp_selected();
                proof {
                    assert(final(self).vs() =~= apply_events_spec(
                        old(self).vs(),
                        Ok::<Seq<EventView>, Seq<char>>(es.deep_view()),
                    ));
                }
            },
            Err(m) => {
                let name: String = match &self.model.selected_stream {
                    Some(n) => n.clone(),
                    None => String::new(),
                };
                self.last_error = Some(ErrorOverlay { stream_name: name, message: m });
                self.model.selected_stream_events = Vec::new();
                self.clamp_selected();
                proof {
                    assert(final(self).vs() =~= apply_events_spec(
                        old(self).vs(),
                        Err::<Seq<EventView>, Seq<char>>(m@),
                    ));
                }
            },
        }
    }

    /// The render-time clamp of the preview scroll, against the rendered
    /// content height and the visible pane height.
    pub fn clamp_scroll(&mut self, content_height: u16, viewport_height: u16)
        ensures
            final(self).vs() == (ViewState {
                scroll: clamp_scroll_spec(
                    old(self).vs().scroll,
                    content_height as int,
                    viewport_height as int,
                ),
                ..old(self).vs()
            }),
    {
        let limit: u32 = content_height as u32 + SCROLL_MARGIN as u32;
        if viewport_height as u32 >= limit {
            self.scroll = 0;
        } else {
            let cap: u32 = limit - viewport_height as u32;
            if self.scroll as u32 > cap {
                self.scroll = cap as u16;
            }
        }
        proof {
            assert(final(self).vs() =~= (ViewState {
                scroll: clamp_scroll_spec(
                    old(self).vs().scroll,
                    content_height as int,
                    viewport_height as int,
                ),
                ..old(self).vs()
            }));
        }
    }

    /// The key hints the host shows for the current stage, as
    /// `(key, action)` pairs.
    pub fn keybindings(&self) -> (r: Vec<(String, String)>)
        ensures
            self.stage == Stage::StreamPreview ==> r@.len() == 3,
            self.stage == Stage::Stream ==> r@.len() == 4,
            self.stage == Stage::Main || self.stage == Stage::Search ==> r@.len() == 6,
            forall|i: int| 0 <= i < r@.len() ==> (#[trigger] r@[i]).0@ == keybinding_spec(
                self.stage,
                i,
            ).0 && r@[i].1@ == keybinding_spec(self.stage, i).1,
    {
        let mut r: Vec<(String, String)> = Vec::new();
        match self.stage {
            Stage::StreamPreview => {
                r.push(hint("↑", "Scroll up"));
                r.push(hint("↓", "Scroll down"));
                r.push(hint("q", "Close"));
            },
            Stage::Stream => {
                r.push(hint("↑", "Scroll up"));
                r.push(hint("↓", "Scroll down"));
                r.push(hint("Enter", "Select"));
                r.push(hint("q", "Close"));
            },
            Stage::Main | Stage::Search => {
                r.push(hint("↑", "Scroll up"));
                r.push(hint("↓", "Scroll down"));
                r.push(hint("→", "Move right"));
                r.push(hint("← ", "Move left"));
                r.push(hint("/", "Search"));
                r.push(hint("Enter", "Select"));
            },
        }
        r
    }

    /// Deactivation: navigation reset to the Main stage, model and overlay
    /// cleared.
    pub fn unload(&mut self)
        ensures
            final(self).vs() == unloaded_spec(old(self).vs()),
            final(self).inv(),
    {
        self.selected = 0;
        self.selected_tab = 0;
        self.scroll = 0;
        self.stage = Stage::Main;
        self.model.clear();
        self.last_error = None;
        proof {
            assert(final(self).vs() =~= unloaded_spec(old(self).vs()));
        }
    }
}

impl Default for StreamsView {
    /// The freshly activated browser.
    fn default() -> (r: StreamsView)
        ensures
            r.vs() == init_state(),
            r.inv(),
    {
        let r = StreamsView {
            selected_tab: 0,
            selected: 0,
            stage: Stage::Main,
            scroll: 0,
            buffer: String::new(),
            model: Model::new(),
            last_error: None,
        };
        proof {
            assert(r.vs() =~= init_state());
        }
        r
    }
}

} // verus!
