//! The result builder: pure assembly of the one entry a matching input event
//! yields, with its deferred clipboard action.

use vstd::prelude::*;
use crate::matcher::MatchDescriptor;

verus! {

/// The deferred action a result entry carries: the text to hand the host's
/// clipboard capability if and when the user selects the entry. The builder
/// only stores it; invoking it, at most once, is the host's responsibility,
/// on whatever thread the host chooses.
pub struct ClipboardAction {
    pub text: String,
}

/// One selectable result entry, handed to the host for display. Ownership
/// moves to the host; the deferred action owns everything it needs.
pub struct ResultEntry {
    /// The name of the extension that built the entry, so the host can route
    /// the selection callback back to it.
    pub extension: String,
    /// The displayed title.
    pub title: String,
    /// The displayed hint below the title.
    pub hint: String,
    /// The symbolic name of a themed icon; the host's theming resolves it.
    pub icon: String,
    /// The match that earned the entry, kept unmodified for highlighting.
    pub descriptor: MatchDescriptor,
    /// The action to run on selection.
    pub on_select: ClipboardAction,
}

/// Assemble a result entry. Pure: every field of the result is exactly the
/// argument handed in, the highlight blocks of `descriptor` among them.
pub fn build_entry(
    extension: String,
    title: String,
    hint: String,
    icon: String,
    descriptor: MatchDescriptor,
    on_select: ClipboardAction,
) -> (r: ResultEntry)
    ensures
        r.extension@ == extension@,
        r.title@ == title@,
        r.hint@ == hint@,
        r.icon@ == icon@,
        r.descriptor == descriptor,
        r.on_select == on_select,
{
    ResultEntry { extension, title, hint, icon, descriptor, on_select }
}

/// The payload a selection copies: the single zero-width-space character,
/// U+200B.
pub fn zero_width_space() -> (r: String)
    ensures
        r@ == "\u{200B}"@,
        r@.len() == 1,
        r@[0] == '\u{200B}',
{
    proof {
        reveal_strlit("\u{200B}");
    }
    "\u{200B}".to_owned()
}

/// The hint text shown under a matching entry.
pub fn hint_text() -> (r: String)
    ensures
        r@ == "Press enter to copy to clipboard"@,
{
    "Press enter to copy to clipboard".to_owned()
}

/// The symbolic icon name a matching entry carries.
pub fn icon_name() -> (r: String)
    ensures
        r@ == "spacer-symbolic"@,
{
    "spacer-symbolic".to_owned()
}

} // verus!
