//! The interface between the host and its plugins: what a plugin answers,
//! what it declares about itself, and the interface version both sides agree on.
use vstd::prelude::*;
use crate::row::{ActionMap, PuszAction, PuszEntry, PuszRow, PuszRowIdentifier};
use crate::text::{str_eq, string_of};

verus! {

/// The interface version that host and plugins must agree on exactly.
pub const COMMON_INTERFACE_VERSION: &'static str = "1";

pub open spec fn common_interface_version() -> Seq<char> {
    seq!['1']
}

/// The message a plugin gives when the host speaks another interface version.
pub open spec fn version_mismatch_message(expected: Seq<char>, actual: Seq<char>) -> Seq<char> {
    let head = seq!['c', 'o', 'm', 'p', 'a', 't', 'i', 'b', 'l', 'e', ' ', 'w', 'i', 't', 'h', ':', ' '];
    let middle = seq![
        ' ', 'b', 'u', 't', ' ', 'y', 'o', 'u', 'r', ' ', 'v', 'e', 'r', 's', 'i', 'o', 'n', ' ',
        'i', 's', ':', ' ',
    ];
    head + expected + middle + actual
}

/// `needle` occurs in `hay` as a contiguous run.
pub open spec fn contains_text(hay: Seq<char>, needle: Seq<char>) -> bool {
    exists|i: int| 0 <= i <= hay.len() - needle.len() && #[trigger] hay.subrange(i, i + needle.len()) == needle
}

/// The mismatch message names both the expected and the actual version.
pub proof fn lemma_mismatch_names_both(expected: Seq<char>, actual: Seq<char>)
    ensures
        contains_text(version_mismatch_message(expected, actual), expected),
        contains_text(version_mismatch_message(expected, actual), actual),
{
    let m = version_mismatch_message(expected, actual);
    assert(m.subrange(17, 17 + expected.len() as int) =~= expected);
    let i = m.len() - actual.len();
    assert(m.subrange(i, i + actual.len()) =~= actual);
}

/// Accepts exactly the host's interface version; any other is refused with a
/// message that names both versions.
pub fn check_interface_version(plugin_interface_version: &str) -> (r: Result<(), String>)
    ensures
        r is Ok <==> plugin_interface_version@ == common_interface_version(),
        r matches Err(m) ==> m@ == version_mismatch_message(
            common_interface_version(),
            plugin_interface_version@,
        ),
{
    proof {
        reveal_strlit("1");
        assert(COMMON_INTERFACE_VERSION@ =~= common_interface_version());
    }
    if str_eq(plugin_interface_version, COMMON_INTERFACE_VERSION) {
        Ok(())
    } else {
        let mut m = string_of("compatible with: ");
        m.append(COMMON_INTERFACE_VERSION);
        m.append(" but your version is: ");
        m.append(plugin_interface_version);
        proof {
            reveal_strlit("compatible with: ");
            reveal_strlit(" but your version is: ");
            assert(m@ =~= version_mismatch_message(
                common_interface_version(),
                plugin_interface_version@,
            ));
        }
        Err(m)
    }
}


/// The actions of a plain entry: a click copies its content.
pub open spec fn click_copies(a: ActionMap) -> bool {
    &&& a.click == Some(PuszAction::SetClipboard)
    &&& a.double_click is None
    &&& a.return_key is None
}

/// `row` is a plain, non-removable row with one entry that shows and holds
/// `content`.
pub open spec fn is_plain_row(row: PuszRow, content: Seq<char>) -> bool {
    &&& row.main_entry.content@ == content
    &&& row.main_entry.label@ == content
    &&& click_copies(row.main_entry.actions)
    &&& row.additional_entries@.len() == 0
    &&& !row.is_removable
}

/// `id` names item `key` of plugin `plugin`, with no further data.
pub open spec fn identifies(id: PuszRowIdentifier, plugin: Seq<char>, key: Seq<char>) -> bool {
    &&& id.plugin_id@ == plugin
    &&& id.identifier@ == key
    &&& id.data is None
}

/// Collects the parts of a `PuszRow`; `build` checks that each required part is there.
#[derive(Clone, Debug)]
pub struct PuszRowBuilder {
    pub main_entry: Option<PuszEntry>,
    pub additional_entries: Option<Vec<PuszEntry>>,
    pub identifier: Option<PuszRowIdentifier>,
    pub is_removable: Option<bool>,
}

impl PuszRowBuilder {
    /// A builder for a plain row: one entry that shows `content` and copies
    /// it on a click, not removable.
    pub fn new(content: String, identifier: PuszRowIdentifier) -> (r: PuszRowBuilder)
        ensures
            r.main_entry matches Some(e) && e.content == content && e.label == content
                && click_copies(e.actions),
            r.additional_entries is None,
            r.identifier == Some(identifier),
            r.is_removable == Some(false),
    {
        let label = content.clone();
        PuszRowBuilder {
            main_entry: Some(
                PuszEntry {
                    actions: ActionMap::copy_on_click(),
                    label,
                    content,
                },
            ),
            additional_entries: None,
            identifier: Some(identifier),
            is_removable: Some(false),
        }
    }

    pub fn main_entry(self, value: PuszEntry) -> (r: PuszRowBuilder)
        ensures
            r == (PuszRowBuilder { main_entry: Some(value), ..self }),
    {
        PuszRowBuilder { main_entry: Some(value), ..self }
    }

    pub fn additional_entries(self, value: Vec<PuszEntry>) -> (r: PuszRowBuilder)
        ensures
            r == (PuszRowBuilder { additional_entries: Some(value), ..self }),
    {
        PuszRowBuilder { additional_entries: Some(value), ..self }
    }

    pub fn identifier(self, value: PuszRowIdentifier) -> (r: PuszRowBuilder)
        ensures
            r == (PuszRowBuilder { identifier: Some(value), ..self }),
    {
        PuszRowBuilder { identifier: Some(value), ..self }
    }

    pub fn is_removable(self, value: bool) -> (r: PuszRowBuilder)
        ensures
            r == (PuszRowBuilder { is_removable: Some(value), ..self }),
    {
        PuszRowBuilder { is_removable: Some(value), ..self }
    }

    /// The row, or the name of the first required part that is missing.
    /// Further entries default to none.
    pub fn build(self) -> (r: Result<PuszRow, String>)
        ensures
            r is Ok <==> self.main_entry is Some && self.identifier is Some
                && self.is_removable is Some,
            r matches Ok(row) ==> {
                &&& Some(row.main_entry) == self.main_entry
                &&& Some(row.identifier) == self.identifier
                &&& Some(row.is_removable) == self.is_removable
                &&& match self.additional_entries {
                    Some(v) => row.additional_entries == v,
                    None => row.additional_entries@.len() == 0,
                }
            },
    {
        let main_entry = match self.main_entry {
            Some(e) => e,
            None => return Err(String::from_str("`main_entry` must be initialized")),
        };
        let identifier = match self.identifier {
            Some(i) => i,
            None => return Err(String::from_str("`identifier` must be initialized")),
        };
        let is_removable = match self.is_removable {
            Some(b) => b,
            None => return Err(String::from_str("`is_removable` must be initialized")),
        };
        let additional_entries = match self.additional_entries {
            Some(v) => v,
            None => Vec::new(),
        };
        Ok(PuszRow { main_entry, additional_entries, identifier, is_removable })
    }
}

/// A plain row showing `content`, identified by `identifier`.
pub fn plain_row(content: String, identifier: PuszRowIdentifier) -> (r: PuszRow)
    ensures
        is_plain_row(r, content@),
        r.identifier == identifier,
{
    let label = content.clone();
    PuszRow {
        main_entry: PuszEntry {
            actions: ActionMap::copy_on_click(),
            label,
            content,
        },
        additional_entries: Vec::new(),
        identifier,
        is_removable: false,
    }
}

/// What a plugin answers to a query.
#[derive(PartialEq, Debug)]
pub enum PluginResult {
    /// Nothing to show.
    Nothing,
    /// The query failed, for the reason given.
    Error(String),
    /// The rows that answer the query.
    Rows(Vec<PuszRow>),
}

/// What a plugin declares about itself.
#[derive(PartialEq, Eq, Structural, Clone, Copy, Debug)]
pub struct PluginSettings {
    /// The plugin answers only when addressed by name.
    pub requies_explicit_query: bool,
    /// The plugin wants to hear of clipboard changes.
    pub interested_in_clipboard: bool,
}

impl PluginSettings {
    /// What a plugin declares unless it says otherwise: it answers only when
    /// addressed, and does not follow the clipboard.
    pub fn standard() -> (r: PluginSettings)
        ensures
            r.requies_explicit_query,
            !r.interested_in_clipboard,
    {
        PluginSettings { requies_explicit_query: true, interested_in_clipboard: false }
    }
}

/// An event that a plugin may subscribe to.
#[derive(PartialEq, Debug)]
pub enum PluginEvent {
    Clipboard(String),
}

/// A source of rows. `query` is the one required method; the others forward
/// to it or do nothing unless a plugin says otherwise.
pub trait Plugin {
    fn query(&mut self, query: &str) -> PluginResult;

    /// Called when the input as a whole is committed.
    fn query_return(&mut self, query: &str) -> PluginResult {
        self.query(query)
    }

    /// Called for an entry action that only the plugin can carry out.
    fn action_request(&mut self, query: &str) -> PluginResult {
        self.query(query)
    }

    fn name(&self) -> &'static str;

    fn settings(&self) -> PluginSettings {
        PluginSettings::standard()
    }

    fn on_subscribed_event(&mut self, _event: &PluginEvent) {
    }
}

} // verus!
