//! The extension lifecycle: the one-time init transition and the
//! per-keystroke input transition, each a decision from plain values to plain
//! values. The host performs the outside work around them: it looks the
//! configuration option up, runs the matcher, renders the entries and, on
//! selection, invokes the deferred action.

use vstd::prelude::*;
use crate::config::{init_state, resolve_prefix, SharedConfig};
use crate::matcher::{MatchDescriptor, trigger_phrase};
use crate::response::{build_entry, hint_text, icon_name, zero_width_space, ClipboardAction,
    ResultEntry};

verus! {

/// The binary exit signal both transitions answer the host with. Nothing in
/// normal operation reaches `Failure`; it is the contract slot for catastrophic
/// failures outside this crate's control.
#[derive(Clone, Copy, Debug, PartialEq, Eq, Structural)]
pub enum ExitSignal {
    Success,
    Failure,
}

/// One input event as the host hands it over: the raw query text and the
/// optional prefix marker. Read-only to the extension and not retained past
/// the call; the host keeps the response-collecting target on its side.
pub struct InputEvent {
    pub query: String,
    pub prefix: Option<String>,
}

/// Whether an input transition consults the matcher: an event is present and
/// its query is non-empty. An absent event or an empty query is a silent
/// no-op, not an error.
pub open spec fn consults_matcher(event: Option<InputEvent>) -> bool {
    match event {
        Some(e) => e.query@.len() > 0,
        None => false,
    }
}

/// How many result entries an input transition yields, given the matcher's
/// answer: exactly one on a match, none otherwise.
pub open spec fn result_count(event: Option<InputEvent>, outcome: Option<MatchDescriptor>) -> nat {
    if consults_matcher(event) && outcome is Some {
        1
    } else {
        0
    }
}

/// The init transition: resolve the host's configuration lookup and store it
/// in the shared state, overwriting any earlier value. Always answers the success signal —
/// a missing option falls back to the default and is no failure.
pub fn on_init(lookup: Option<String>, state: &mut SharedConfig) -> (r: ExitSignal)
    ensures
        final(state)@ == init_state(old(state)@, lookup.deep_view()),
        r == ExitSignal::Success,
{
    let prefix = resolve_prefix(lookup);
    state.store(prefix);
    ExitSignal::Success
}

/// The text the matcher is to be run on, if it is to be run at all: the
/// event's full query, unless the event is absent or the query empty.
pub fn match_query<'a>(event: &'a Option<InputEvent>) -> (r: Option<&'a String>)
    ensures
        r is Some <==> consults_matcher(*event),
        r matches Some(q) ==> (*event matches Some(e) && q@ == e.query@),
{
    match event {
        Some(e) => {
            if e.query.as_str().is_empty() {
                None
            } else {
                Some(&e.query)
            }
        },
        None => None,
    }
}

/// The input transition, given the matcher's answer for the event's query.
///
/// An absent event, an empty query, or a below-threshold answer each yield no
/// entries; a match yields exactly one entry titled with the trigger phrase,
/// hinting at what selection does, carrying the match's highlight blocks
/// unmodified and a deferred action whose payload is the zero-width-space
/// character. Either way the transition answers the success signal.
pub fn on_input(
    event: &Option<InputEvent>,
    extension_name: &String,
    outcome: Option<MatchDescriptor>,
) -> (r: (Vec<ResultEntry>, ExitSignal))
    ensures
        r.1 == ExitSignal::Success,
        r.0.len() == result_count(*event, outcome),
        consults_matcher(*event) ==> (outcome matches Some(d) ==> {
            &&& r.0[0].extension@ == extension_name@
            &&& r.0[0].title@ == "Zero Width Space"@
            &&& r.0[0].hint@ == "Press enter to copy to clipboard"@
            &&& r.0[0].icon@ == "spacer-symbolic"@
            &&& r.0[0].descriptor == d
            &&& r.0[0].on_select.text@ == "\u{200B}"@
        }),
{
    let mut results: Vec<ResultEntry> = Vec::new();
    if match_query(event).is_some() {
        if let Some(d) = outcome {
            let action = ClipboardAction { text: zero_width_space() };
            let entry = build_entry(
                extension_name.clone(),
                trigger_phrase(),
                hint_text(),
                icon_name(),
                d,
                action,
            );
            results.push(entry);
        }
    }
    (results, ExitSignal::Success)
}

/// The optional prefix gate, a policy the host can switch on: the event is
/// then handled only if its prefix marker equals the stored configuration
/// value and its query is non-empty.
pub open spec fn gate_passes(stored: Seq<char>, event: InputEvent) -> bool {
    &&& event.query@.len() > 0
    &&& (event.prefix matches Some(p) && p@ == stored)
}

/// Decide the optional prefix gate for one event against the stored
/// configuration value.
pub fn prefix_gate(stored: &String, event: &InputEvent) -> (r: bool)
    ensures
        r == gate_passes(stored@, *event),
{
    if event.query.as_str().is_empty() {
        false
    } else {
        match &event.prefix {
            Some(p) => *p == *stored,
            None => false,
        }
    }
}

} // verus!
