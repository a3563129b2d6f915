use vstd::prelude::*;

verus! {

/// One logical key code, as the host's input collaborator delivers it.
#[derive(Copy, Clone, PartialEq, Eq, Structural, Debug)]
pub enum Key {
    Char(char),
    Up,
    Down,
    Left,
    Right,
    Enter,
    Esc,
    Backspace,
    Other,
}

/// What the state machine asks of the host after one key press.
#[derive(Copy, Clone, PartialEq, Eq, Structural, Debug)]
pub enum Request {
    Noop,
    Refresh,
    Exit,
}

/// The four stages of the browser.
#[derive(Copy, Clone, PartialEq, Eq, Structural, Debug)]
pub enum Stage {
    Main,
    Search,
    Stream,
    StreamPreview,
}

/// A character the search box accepts: ASCII input.
pub open spec fn is_ascii_char(c: char) -> bool {
    (c as u32) < 128
}

/// The quit / dismiss key, case-insensitive.
pub open spec fn is_quit_key(k: Key) -> bool {
    k == Key::Char('q') || k == Key::Char('Q')
}

} // verus!
