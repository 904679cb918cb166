//! The clipboard history plugin: remembers every text that passes through
//! the clipboard and offers the remembered texts that fuzzily match a query.
use vstd::prelude::*;
use crate::clip_store::{added, ClipStore, ClipView, DataModel, PersistAction, PersistPhase, Timestamp};
use crate::clock::now;
use crate::plugin::{
    check_interface_version, common_interface_version, identifies, is_plain_row, plain_row,
    version_mismatch_message, Plugin, PluginEvent, PluginResult, PluginSettings,
};
use crate::ranking::{fuzzy_score, ranked, select_matches, skim_score};
use crate::row::{PuszRow, PuszRowIdentifier};

verus! {

/// The name under which the clipboard plugin answers.
pub const CLIP_PLUGIN_NAME: &'static str = "clip";

pub open spec fn clip_plugin_name() -> Seq<char> {
    seq!['c', 'l', 'i', 'p']
}

/// The fuzzy score of each clip of `v` against `q`, in clip order.
pub open spec fn clip_scores(v: Seq<ClipView>, q: Seq<char>) -> Seq<Option<i64>> {
    v.map_values(|c: ClipView| skim_score(c.0, q))
}

#[derive(Debug)]
pub struct ClipboardPlugin {
    pub store: ClipStore,
}

impl ClipboardPlugin {
    /// The plugin over clips read from a file with modification time `modified`.
    pub fn new(model: DataModel, modified: Timestamp) -> (r: Self)
        ensures
            r.store.model@ == model@,
            r.store.last_known_modification_time == modified,
            r.store.phase == PersistPhase::Idle,
    {
        ClipboardPlugin { store: ClipStore::new(model, modified) }
    }

    /// The plugin over clips read from a file with modification time
    /// `modified`, where the host speaks the same interface version.
    pub fn load(plugin_interface_version: &str, model: DataModel, modified: Timestamp) -> (r:
        Result<Self, String>)
        ensures
            r is Ok <==> plugin_interface_version@ == common_interface_version(),
            r matches Ok(p) ==> p.store.model@ == model@ && p.store.last_known_modification_time
                == modified && p.store.phase == PersistPhase::Idle,
            r matches Err(m) ==> m@ == version_mismatch_message(
                common_interface_version(),
                plugin_interface_version@,
            ),
    {
        match check_interface_version(plugin_interface_version) {
            Ok(()) => Ok(ClipboardPlugin::new(model, modified)),
            Err(m) => Err(m),
        }
    }

    /// The name under which the plugin answers.
    pub fn plugin_name() -> (r: &'static str)
        ensures
            r@ == clip_plugin_name(),
    {
        proof {
            reveal_strlit("clip");
            assert(CLIP_PLUGIN_NAME@ =~= clip_plugin_name());
        }
        CLIP_PLUGIN_NAME
    }

    /// The plugin answers free text, unaddressed, and follows the clipboard.
    pub fn plugin_settings() -> (r: PluginSettings)
        ensures
            !r.requies_explicit_query,
            r.interested_in_clipboard,
    {
        PluginSettings { interested_in_clipboard: true, requies_explicit_query: false }
    }

    /// Committing the input offers nothing beyond the matches already shown.
    pub fn answer_return(&self, _query: &str) -> (r: PluginResult)
        ensures
            r is Nothing,
    {
        PluginResult::Nothing
    }

    /// One plain row per clip that matches `query` well enough (see
    /// `ranked`), best first; each row is identified by the clip's text.
    pub fn matching_rows(&self, query: &str) -> (r: Vec<PuszRow>)
        ensures
            exists|sel: Seq<usize>|
                {
                    &&& ranked(clip_scores(self.store.model@, query@), sel)
                    &&& sel.len() == r@.len()
                    &&& forall|k: int|
                        0 <= k < sel.len() ==> {
                            let text = (#[trigger] self.store.model@[sel[k] as int]).0;
                            &&& is_plain_row(r@[k], text)
                            &&& identifies(r@[k].identifier, clip_plugin_name(), text)
                        }
                },
    {
        let clips = &self.store.model.clips;
        let n = clips.len();
        let mut scores: Vec<Option<i64>> = Vec::new();
        let mut i: usize = 0;
        while i < n
            invariant
                n == clips@.len(),
                *clips == self.store.model.clips,
                i <= n,
                scores@ =~= clip_scores(self.store.model@, query@).subrange(0, i as int),
            decreases n - i,
        {
            scores.push(fuzzy_score(clips[i].text.as_str(), query));
            i = i + 1;
        }
        assert(scores@ =~= clip_scores(self.store.model@, query@));
        let sel = select_matches(&scores);
        let mut rows: Vec<PuszRow> = Vec::new();
        let mut k: usize = 0;
        while k < sel.len()
            invariant
                n == clips@.len(),
                *clips == self.store.model.clips,
                scores@ == clip_scores(self.store.model@, query@),
                ranked(scores@, sel@),
                k <= sel@.len(),
                rows@.len() == k,
                forall|j: int|
                    0 <= j < k ==> {
                        let text = (#[trigger] self.store.model@[sel@[j] as int]).0;
                        &&& is_plain_row(rows@[j], text)
                        &&& identifies(rows@[j].identifier, clip_plugin_name(), text)
                    },
            decreases sel@.len() - k,
        {
            let p = sel[k];
            assert(0 <= p < n) by {
                assert(crate::ranking::kept(scores@, sel@[k as int] as int));
            }
            let text = clips[p].text.clone();
            proof {
                reveal_strlit("clip");
                assert(CLIP_PLUGIN_NAME@ =~= clip_plugin_name());
            }
            let id = PuszRowIdentifier::new(CLIP_PLUGIN_NAME, text.clone());
            rows.push(plain_row(text, id));
            k = k + 1;
        }
        rows
    }

    /// Remembers `text` as seen at `at` and starts saving the clips.
    pub fn record_clipboard(&mut self, text: &str, at: Timestamp) -> (r: PersistAction)
        ensures
            final(self).store.model@ == added(old(self).store.model@, text@, at),
            final(self).store.phase == PersistPhase::Checking,
            r == PersistAction::CheckFileTime,
    {
        self.store.add_entry(text, at)
    }
}

impl Plugin for ClipboardPlugin {
    fn query(&mut self, query: &str) -> PluginResult {
        PluginResult::Rows(self.matching_rows(query))
    }

    fn query_return(&mut self, query: &str) -> PluginResult {
        self.answer_return(query)
    }

    fn name(&self) -> &'static str {
        ClipboardPlugin::plugin_name()
    }

    fn settings(&self) -> PluginSettings {
        ClipboardPlugin::plugin_settings()
    }

    fn on_subscribed_event(&mut self, event: &PluginEvent) {
        match event {
            PluginEvent::Clipboard(text) => {
                let at = now();
                self.record_clipboard(text.as_str(), at);
            },
        }
    }
}

} // verus!
