use vstd::prelude::*;
use vstd::string::StringExecFns;
use crate::model::EventRecord;
use crate::model::EventView;

verus! {

/// The fixed placeholder shown for a payload that has no JSON rendering.
pub open spec fn placeholder_text() -> Seq<char> {
    "<BINARY>"@
}

/// The pretty-printed JSON rendering of a payload: `Some` exactly when the
/// bytes parse as a JSON document. The rendering depends on the bytes alone.
pub uninterp spec fn pretty_json_of(data: Seq<u8>) -> Option<Seq<char>>;

/// Relies on `serde_json::from_slice` to parse the payload and on
/// `serde_json::to_string_pretty` to render the parsed document. Parsing and
/// rendering are functions of the payload bytes alone, and rendering a
/// `serde_json::Value` document never fails.
#[verifier::external_body]
fn render_json(data: &Vec<u8>) -> (r: Option<String>)
    ensures
        r.deep_view() == pretty_json_of(data@),
{
    let v: serde_json::Value = match serde_json::from_slice(data.as_slice()) {
        Ok(v) => v,
        Err(_) => return None,
    };
    serde_json::to_string_pretty(&v).ok()
}

/// What the preview pane shows for one event's payload: the pretty-printed
/// document for a JSON payload, the fixed placeholder otherwise. A payload
/// flagged JSON that does not parse degrades to the placeholder rather than
/// aborting.
pub open spec fn preview_text_spec(e: EventView) -> Seq<char> {
    if e.is_json {
        match pretty_json_of(e.data) {
            Some(t) => t,
            None => placeholder_text(),
        }
    } else {
        placeholder_text()
    }
}

/// Renders one event's payload for the preview pane.
pub fn preview_content(e: &EventRecord) -> (r: String)
    ensures
        r@ == preview_text_spec(e@),
{
    if e.is_json {
        match render_json(&e.data) {
            Some(s) => s,
            None => String::from_str("<BINARY>"),
        }
    } else {
        String::from_str("<BINARY>")
    }
}

} // verus!
