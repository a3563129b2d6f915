use vstd::prelude::*;

verus! {

/// Default bound on each catalog list (recently created, recently changed).
pub const CATALOG_MAX: u64 = 20;

/// Default bound on the event list of the selected stream.
pub const EVENTS_MAX: u64 = 500;

/// A fully resolved event record: the plain data the browser reads and shows.
pub struct EventRecord {
    /// The owning stream's identifier.
    pub stream_id: String,
    /// Per-stream monotonically increasing revision number.
    pub revision: u64,
    /// The event-type label.
    pub event_type: String,
    /// Creation time, milliseconds since the Unix epoch.
    pub created_ms: i64,
    /// The raw payload.
    pub data: Vec<u8>,
    /// Whether the payload is JSON-encoded.
    pub is_json: bool,
}

/// Mathematical image of an `EventRecord`.
pub ghost struct EventView {
    pub stream_id: Seq<char>,
    pub revision: u64,
    pub event_type: Seq<char>,
    pub created_ms: i64,
    pub data: Seq<u8>,
    pub is_json: bool,
}

impl View for EventRecord {
    type V = EventView;

    open spec fn view(&self) -> EventView {
        EventView {
            stream_id: self.stream_id@,
            revision: self.revision,
            event_type: self.event_type@,
            created_ms: self.created_ms,
            data: self.data@,
            is_json: self.is_json,
        }
    }
}

impl DeepView for EventRecord {
    type V = EventView;

    open spec fn deep_view(&self) -> EventView {
        self.view()
    }
}

/// The one captured failure; while present it intercepts all input but dismiss.
pub struct ErrorOverlay {
    /// The stream name that was active when the failure happened.
    pub stream_name: String,
    /// The failure's message.
    pub message: String,
}

/// Mathematical image of an `ErrorOverlay`.
pub ghost struct OverlayView {
    pub stream_name: Seq<char>,
    pub message: Seq<char>,
}

impl View for ErrorOverlay {
    type V = OverlayView;

    open spec fn view(&self) -> OverlayView {
        OverlayView { stream_name: self.stream_name@, message: self.message@ }
    }
}

impl DeepView for ErrorOverlay {
    type V = OverlayView;

    open spec fn deep_view(&self) -> OverlayView {
        self.view()
    }
}

/// The catalog and drill-down model shown by the browser.
pub struct Model {
    /// Recently created streams, most recent first.
    pub last_created: Vec<String>,
    /// Recently changed streams, most recent first, no duplicate identifier.
    pub recently_changed: Vec<String>,
    /// The stream currently drilled into, if any.
    pub selected_stream: Option<String>,
    /// The selected stream's events, most recent first.
    pub selected_stream_events: Vec<EventRecord>,
}

impl Model {
    /// An empty model.
    pub fn new() -> (m: Model)
        ensures
            m.last_created@.len() == 0,
            m.recently_changed@.len() == 0,
            m.selected_stream is None,
            m.selected_stream_events@.len() == 0,
    {
        Model {
            last_created: Vec::new(),
            recently_changed: Vec::new(),
            selected_stream: None,
            selected_stream_events: Vec::new(),
        }
    }

    /// Clears every field, as deactivation demands.
    pub fn clear(&mut self)
        ensures
            final(self).last_created@.len() == 0,
            final(self).recently_changed@.len() == 0,
            final(self).selected_stream is None,
            final(self).selected_stream_events@.len() == 0,
    {
        self.last_created = Vec::new();
        self.recently_changed = Vec::new();
        self.selected_stream = None;
        self.selected_stream_events = Vec::new();
    }
}

} // verus!
