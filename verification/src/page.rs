use vstd::prelude::*;

use crate::text::{
    contains, joined, lemma_nth_segment_of_joined, nth_segment, nth_segment_of, occurs_at,
    spec_contains,
};

verus! {

/// Pattern of the hidden field that carries the step the server's flow form is on.
pub const FLOW_STEP_PATTERN: &'static str = r#"name="flow_ImmediateCashTransfer_step"\s*value="(?P<step>\d+)""#;

/// Pattern of the hidden field that carries the flow instance of a transfer.
pub const FLOW_INSTANCE_PATTERN: &'static str = r#"name="flow_ImmediateCashTransfer_instance" value="([^"]+)""#;

/// Marker of the success alert on the confirmation screen.
pub const SUCCESS_ALERT_MARKER: &'static str = "c-alert--success";

/// Marker of the confirmation heading on the confirmation screen.
pub const CONFIRMATION_HEADING_MARKER: &'static str = ">Confirmation</h3>";

/// What the `regex` crate reports as the text of capture group 1 of the
/// leftmost-first match of `pattern` in `haystack` (`None` when the pattern
/// does not compile, does not match, or the group takes no part in the match).
pub uninterp spec fn regex_first_capture(pattern: Seq<char>, haystack: Seq<char>) -> Option<Seq<char>>;

/// Calls `regex::Regex::new`, `Regex::captures`, `Captures::get(1)` and
/// `Match::as_str`. Trusted: the result is the named `regex_first_capture` of
/// the pattern and the haystack, and a captured text is a piece of the
/// haystack (`Match::as_str` returns the slice of the haystack that matched).
/// Nothing is stated of which text the pattern selects.
#[verifier::external_body]
fn first_capture(pattern: &str, haystack: &str) -> (r: Option<String>)
    ensures
        r matches Some(c) ==> regex_first_capture(pattern@, haystack@) == Some(c@),
        r matches Some(c) ==> spec_contains(haystack@, c@),
        r is None ==> regex_first_capture(pattern@, haystack@) is None,
{
    let re = regex::Regex::new(pattern).ok()?;
    let caps = re.captures(haystack)?;
    match caps.get(1) {
        Some(m) => Some(m.as_str().to_string()),
        None => None,
    }
}

/// The flow step the page's flow form reports, if the page carries one.
pub open spec fn spec_flow_step(body: Seq<char>) -> Option<Seq<char>> {
    regex_first_capture(FLOW_STEP_PATTERN@, body)
}

/// The flow instance the page's transfer form carries, if any.
pub open spec fn spec_flow_instance(body: Seq<char>) -> Option<Seq<char>> {
    regex_first_capture(FLOW_INSTANCE_PATTERN@, body)
}

/// A page is the confirmation screen when it carries no flow step and shows
/// one of the two success markers.
pub open spec fn spec_confirmation_page(flow_step: Option<Seq<char>>, body: Seq<char>) -> bool {
    flow_step is None && (spec_contains(body, SUCCESS_ALERT_MARKER@) || spec_contains(
        body,
        CONFIRMATION_HEADING_MARKER@,
    ))
}

/// A page that carries a flow step is never the confirmation screen; a page
/// without one is exactly when it shows the success alert or the
/// confirmation heading (either, or both).
pub proof fn lemma_confirmation_markers(flow_step: Option<Seq<char>>, body: Seq<char>)
    ensures
        flow_step is Some ==> !spec_confirmation_page(flow_step, body),
        flow_step is None ==> (spec_confirmation_page(flow_step, body) <==> (spec_contains(
            body,
            "c-alert--success"@,
        ) || spec_contains(body, ">Confirmation</h3>"@))),
{
}

/// Whatever surrounds it, a page without a flow step that embeds a success
/// marker is the confirmation screen.
pub proof fn lemma_embedded_marker_confirms(before: Seq<char>, marker: Seq<char>, after: Seq<char>)
    requires
        marker == "c-alert--success"@ || marker == ">Confirmation</h3>"@,
    ensures
        spec_confirmation_page(None, before + marker + after),
{
    let s = before + marker + after;
    assert(s.subrange(before.len() as int, before.len() + marker.len() as int) =~= marker);
    assert(occurs_at(s, marker, before.len() as int));
}

/// The step number the server reports in the flow form it returns, as text,
/// or `None` when the response carries no flow form.
pub fn extract_flow_step(body: &str) -> (r: Option<String>)
    ensures
        r matches Some(s) ==> spec_flow_step(body@) == Some(s@) && spec_contains(body@, s@),
        r is None ==> spec_flow_step(body@) is None,
{
    first_capture(FLOW_STEP_PATTERN, body)
}

/// The flow instance of a transfer, read from the first step's page.
pub fn extract_flow_instance(body: &str) -> (r: Option<String>)
    ensures
        r matches Some(s) ==> spec_flow_instance(body@) == Some(s@) && spec_contains(body@, s@),
        r is None ==> spec_flow_instance(body@) is None,
{
    first_capture(FLOW_INSTANCE_PATTERN, body)
}

/// Whether a page whose flow step was read as `flow_step` is the
/// confirmation screen: no flow form and a success marker.
pub fn is_confirmation_given_step(flow_step: &Option<String>, body: &str) -> (b: bool)
    ensures
        b == spec_confirmation_page(
            match flow_step {
                Some(s) => Some(s@),
                None => None,
            },
            body@,
        ),
{
    match flow_step {
        Some(_) => false,
        None => contains(body, SUCCESS_ALERT_MARKER) || contains(body, CONFIRMATION_HEADING_MARKER),
    }
}

/// Whether a response is the confirmation screen that ends the flow.
///
/// Deliberately conservative: it requires both that the flow form is gone and
/// that a success marker is present. A re-rendered form is never a success.
pub fn is_confirmation_page(body: &str) -> (b: bool)
    ensures
        b == spec_confirmation_page(spec_flow_step(body@), body@),
        b ==> spec_flow_step(body@) is None,
{
    let step = extract_flow_step(body);
    is_confirmation_given_step(&step, body)
}

/// The transfer id in the `Location` of the reply that opens a transfer:
/// `/compte/cav/<account>/virements/immediat/nouveau/<id>/1` gives `<id>`,
/// the eighth piece of the path cut at every `/`.
pub open spec fn spec_transfer_id(location: Seq<char>) -> Option<Seq<char>> {
    nth_segment(location, '/', 7)
}

/// The transfer id is the eighth piece of the `Location` path: for a path
/// made of pieces without `/` joined by `/`, it is the piece at index 7 when
/// there are at least eight pieces, and there is none otherwise.
pub proof fn lemma_transfer_id_is_eighth_piece(pieces: Seq<Seq<char>>)
    requires
        pieces.len() >= 1,
        forall|k: int| 0 <= k < pieces.len() ==> !(#[trigger] pieces[k]).contains('/'),
    ensures
        spec_transfer_id(joined(pieces, '/')) == (if pieces.len() >= 8 {
            Some(pieces[7])
        } else {
            None::<Seq<char>>
        }),
{
    lemma_nth_segment_of_joined(pieces, '/', 7);
}

/// The transfer id carried by the `Location` header, if the path is long enough.
pub fn transfer_id_from_location(location: &str) -> (r: Option<String>)
    ensures
        r matches Some(id) ==> spec_transfer_id(location@) == Some(id@),
        r is None ==> spec_transfer_id(location@) is None,
{
    nth_segment_of(location, '/', 7)
}

} // verus!
