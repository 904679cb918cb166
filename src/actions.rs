//! What happens when the user triggers an entry: which bound action applies,
//! and what it asks of the outside world.
use vstd::prelude::*;
use crate::row::{PuszAction, PuszEntry, PuszEvent};

verus! {

/// Whether `s` parses as an absolute URL.
pub uninterp spec fn parses_as_url(s: Seq<char>) -> bool;

/// Relies on url::Url::parse: whether `s` parses as an absolute URL.
#[verifier::external_body]
fn is_url(s: &str) -> (r: bool)
    ensures
        r == parses_as_url(s@),
{
    url::Url::parse(s).is_ok()
}

/// What the caller carries out for a triggered entry.
#[derive(PartialEq, Eq, Debug)]
pub enum Effect {
    /// Put this text on the system clipboard.
    SetClipboard(String),
    /// Open this link in the browser.
    OpenBrowser(String),
    /// Hand this text to the owning plugin's `action_request`.
    PluginRequest(String),
    /// Nothing to do.
    Nothing,
}

/// The outcome of triggering an entry: the effect, and whether the trigger
/// was consumed.
#[derive(PartialEq, Eq, Debug)]
pub struct Handled {
    pub effect: Effect,
    pub consumed: bool,
}

/// The action that `event` triggers on `entry`, if one is bound.
pub fn resolve_action(entry: &PuszEntry, event: PuszEvent) -> (r: Option<PuszAction>)
    ensures
        r == entry.actions.lookup(event),
{
    entry.actions.get(&event)
}

/// What triggering `entry` with `event` does. No bound action: nothing, and
/// the trigger passes on. Copy: the content goes to the clipboard. Open
/// link: the content opens in the browser where it is a URL. A custom
/// action goes to the plugin, which decides; the trigger passes on.
pub fn handle_action(entry: &PuszEntry, event: PuszEvent) -> (r: Handled)
    ensures
        match entry.actions.lookup(event) {
            None => r.effect == Effect::Nothing && !r.consumed,
            Some(PuszAction::SetClipboard) => r.effect matches Effect::SetClipboard(t) && t@
                == entry.content@ && r.consumed,
            Some(PuszAction::OpenBrowserIfLink) => {
                &&& r.consumed
                &&& parses_as_url(entry.content@) ==> (r.effect matches Effect::OpenBrowser(t)
                    && t@ == entry.content@)
                &&& !parses_as_url(entry.content@) ==> r.effect == Effect::Nothing
            },
            Some(PuszAction::CustomAction) => r.effect matches Effect::PluginRequest(t) && t@
                == entry.content@ && !r.consumed,
        },
{
    match resolve_action(entry, event) {
        None => Handled { effect: Effect::Nothing, consumed: false },
        Some(PuszAction::SetClipboard) => Handled {
            effect: Effect::SetClipboard(entry.content.clone()),
            consumed: true,
        },
        Some(PuszAction::OpenBrowserIfLink) => {
            if is_url(entry.content.as_str()) {
                Handled { effect: Effect::OpenBrowser(entry.content.clone()), consumed: true }
            } else {
                Handled { effect: Effect::Nothing, consumed: true }
            }
        },
        Some(PuszAction::CustomAction) => Handled {
            effect: Effect::PluginRequest(entry.content.clone()),
            consumed: false,
        },
    }
}

} // verus!
