//! The row model: what a plugin hands back for one query, and the actions
//! bound to each entry of a row.
use vstd::prelude::*;

verus! {

/// Who produced a row, and which of that producer's items it shows.
#[derive(PartialEq, Clone, Debug)]
pub struct PuszRowIdentifier {
    pub plugin_id: &'static str,
    pub identifier: String,
    pub data: Option<String>,
}

impl PuszRowIdentifier {
    pub fn new(plugin_id: &'static str, identifier: String) -> (r: Self)
        ensures
            r.plugin_id@ == plugin_id@,
            r.identifier == identifier,
            r.data is None,
    {
        Self { plugin_id, identifier, data: None }
    }
}

/// What happens when an entry is triggered.
#[derive(PartialEq, Eq, Structural, Clone, Copy, Debug)]
pub enum PuszAction {
    SetClipboard,
    OpenBrowserIfLink,
    CustomAction,
}

#[derive(PartialEq, Eq, Structural, Clone, Copy, Debug, PartialOrd, Ord)]
pub enum SpecialKey {
    Return,
}

/// The user interactions that can trigger an action.
#[derive(PartialEq, Eq, Structural, Clone, Copy, Debug, PartialOrd, Ord)]
pub enum PuszEvent {
    Click,
    DoubleClick,
    SpecialKeyPress(SpecialKey),
}

/// A map from trigger event to action. There is one slot per event, so no
/// event can be bound twice.
#[derive(PartialEq, Eq, Structural, Clone, Copy, Debug)]
pub struct ActionMap {
    pub click: Option<PuszAction>,
    pub double_click: Option<PuszAction>,
    pub return_key: Option<PuszAction>,
}

impl ActionMap {
    /// The action bound to `e`, if any.
    pub open spec fn lookup(self, e: PuszEvent) -> Option<PuszAction> {
        match e {
            PuszEvent::Click => self.click,
            PuszEvent::DoubleClick => self.double_click,
            PuszEvent::SpecialKeyPress(SpecialKey::Return) => self.return_key,
        }
    }

    pub open spec fn spec_len(self) -> nat {
        (if self.click is Some { 1nat } else { 0nat }) + (if self.double_click is Some {
            1nat
        } else {
            0nat
        }) + (if self.return_key is Some { 1nat } else { 0nat })
    }

    pub fn new() -> (r: Self)
        ensures
            forall|e: PuszEvent| (#[trigger] r.lookup(e)) is None,
    {
        ActionMap { click: None, double_click: None, return_key: None }
    }

    /// The map that binds `a` to `e` and nothing else.
    pub fn single(e: PuszEvent, a: PuszAction) -> (r: Self)
        ensures
            r.lookup(e) == Some(a),
            forall|f: PuszEvent| f != e ==> (#[trigger] r.lookup(f)) is None,
    {
        let mut m = ActionMap::new();
        m.insert(e, a);
        m
    }

    /// The map of a plain entry: a click copies the content, nothing else is bound.
    pub fn copy_on_click() -> (r: Self)
        ensures
            r.click == Some(PuszAction::SetClipboard),
            r.double_click is None,
            r.return_key is None,
    {
        ActionMap { click: Some(PuszAction::SetClipboard), double_click: None, return_key: None }
    }

    pub fn get(&self, e: &PuszEvent) -> (r: Option<PuszAction>)
        ensures
            r == self.lookup(*e),
    {
        match e {
            PuszEvent::Click => self.click,
            PuszEvent::DoubleClick => self.double_click,
            PuszEvent::SpecialKeyPress(SpecialKey::Return) => self.return_key,
        }
    }

    /// Binds `a` to `e`, replacing and returning the action bound before.
    pub fn insert(&mut self, e: PuszEvent, a: PuszAction) -> (r: Option<PuszAction>)
        ensures
            r == old(self).lookup(e),
            final(self).lookup(e) == Some(a),
            forall|f: PuszEvent| f != e ==> #[trigger] final(self).lookup(f) == old(self).lookup(f),
    {
        match e {
            PuszEvent::Click => {
                let r = self.click;
                self.click = Some(a);
                r
            },
            PuszEvent::DoubleClick => {
                let r = self.double_click;
                self.double_click = Some(a);
                r
            },
            PuszEvent::SpecialKeyPress(SpecialKey::Return) => {
                let r = self.return_key;
                self.return_key = Some(a);
                r
            },
        }
    }

    pub fn len(&self) -> (r: usize)
        ensures
            r == self.spec_len(),
    {
        let mut n: usize = 0;
        if self.click.is_some() {
            n = n + 1;
        }
        if self.double_click.is_some() {
            n = n + 1;
        }
        if self.return_key.is_some() {
            n = n + 1;
        }
        n
    }
}

/// A label/content pair with the actions bound to it.
#[derive(PartialEq, Clone, Debug)]
pub struct PuszEntry {
    pub actions: ActionMap,
    pub label: String,
    pub content: String,
}

/// One result line: a main entry, further entries in display order, and the
/// identity of what it shows.
#[derive(PartialEq, Clone, Debug)]
pub struct PuszRow {
    pub main_entry: PuszEntry,
    pub additional_entries: Vec<PuszEntry>,
    pub identifier: PuszRowIdentifier,
    pub is_removable: bool,
}

impl PuszRow {
    /// The row's entries in display order: the main entry first, then the
    /// others in the order the plugin gave them.
    pub fn into_entries(self) -> (r: Vec<PuszEntry>)
        ensures
            r@ == seq![self.main_entry] + self.additional_entries@,
    {
        let mut entries = self.additional_entries;
        entries.insert(0, self.main_entry);
        assert(entries@ =~= seq![self.main_entry] + self.additional_entries@);
        entries
    }
}

} // verus!
