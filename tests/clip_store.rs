use fuzzy_matcher::skim::fuzzy_match;
use pusz::clip_store::{ClipStore, DataEntry, DataModel, PersistAction, PersistEvent, PersistPhase, Timestamp};
use pusz::clipboard_plugin::ClipboardPlugin;
use pusz::plugin::{Plugin, PluginEvent, PluginResult};
use pusz::ranking::select_matches;

fn at(secs: u64) -> Timestamp {
    Timestamp { secs, nanos: 0 }
}

fn model(texts: &[(&str, u64)]) -> DataModel {
    DataModel {
        clips: texts
            .iter()
            .map(|(t, s)| DataEntry { text: t.to_string(), last_use_timestamp: at(*s) })
            .collect(),
    }
}

fn texts(m: &DataModel) -> Vec<(String, u64)> {
    m.clips.iter().map(|e| (e.text.clone(), e.last_use_timestamp.secs)).collect()
}

#[test]
fn adding_twice_keeps_one_entry_with_second_time() {
    let mut m = DataModel::new();
    m.add_entry("hello", at(10));
    m.add_entry("other", at(11));
    m.add_entry("hello", at(20));
    assert_eq!(texts(&m), vec![("hello".to_string(), 20), ("other".to_string(), 11)]);
}

#[test]
fn adding_new_text_appends() {
    let mut m = model(&[("a", 1)]);
    m.add_entry("b", at(2));
    assert_eq!(texts(&m), vec![("a".to_string(), 1), ("b".to_string(), 2)]);
    m.add_entry("", at(3));
    assert_eq!(m.clips.len(), 3);
}

#[test]
fn timestamps_order() {
    assert!(at(2).is_later_than(&at(1)));
    assert!(!at(1).is_later_than(&at(1)));
    assert!(Timestamp { secs: 1, nanos: 5 }.is_later_than(&Timestamp { secs: 1, nanos: 4 }));
    assert!(!Timestamp { secs: 0, nanos: 999 }.is_later_than(&Timestamp { secs: 1, nanos: 0 }));
}

#[test]
fn save_without_external_change_writes() {
    let mut s = ClipStore::new(model(&[("a", 1)]), at(5));
    assert_eq!(s.add_entry("b", at(6)), PersistAction::CheckFileTime);
    assert_eq!(s.on_event(PersistEvent::FileTime(Some(at(5)))), PersistAction::Write);
    assert_eq!(s.on_event(PersistEvent::Written(at(7))), PersistAction::Done);
    assert_eq!(s.last_known_modification_time, at(7));
    assert_eq!(s.phase, PersistPhase::Idle);
    assert_eq!(texts(&s.model), vec![("a".to_string(), 1), ("b".to_string(), 6)]);
}

#[test]
fn save_of_missing_file_writes() {
    let mut s = ClipStore::new(DataModel::new(), at(5));
    s.add_entry("b", at(6));
    assert_eq!(s.on_event(PersistEvent::FileTime(None)), PersistAction::Write);
}

#[test]
fn external_change_is_reloaded_and_merged() {
    let mut s = ClipStore::new(model(&[("mine", 1)]), at(5));
    assert_eq!(s.add_entry("new", at(9)), PersistAction::CheckFileTime);
    assert_eq!(s.on_event(PersistEvent::FileTime(Some(at(8)))), PersistAction::Reload);
    let theirs = model(&[("x", 2), ("new", 3), ("y", 4)]);
    assert_eq!(s.on_event(PersistEvent::Reloaded(theirs, at(8))), PersistAction::CheckFileTime);
    assert_eq!(
        texts(&s.model),
        vec![("x".to_string(), 2), ("new".to_string(), 9), ("y".to_string(), 4)]
    );
    assert_eq!(s.last_known_modification_time, at(8));
    assert!(s.retried);
    assert_eq!(s.on_event(PersistEvent::FileTime(Some(at(8)))), PersistAction::Write);
    assert_eq!(s.on_event(PersistEvent::Written(at(10))), PersistAction::Done);
    assert_eq!(s.last_known_modification_time, at(8));
}

#[test]
fn reload_happens_at_most_once_per_save() {
    let mut s = ClipStore::new(DataModel::new(), at(1));
    s.add_entry("t", at(2));
    assert_eq!(s.on_event(PersistEvent::FileTime(Some(at(3)))), PersistAction::Reload);
    assert_eq!(s.on_event(PersistEvent::Reloaded(model(&[("u", 1)]), at(3))), PersistAction::CheckFileTime);
    assert_eq!(s.on_event(PersistEvent::FileTime(Some(at(4)))), PersistAction::Write);
    assert_eq!(texts(&s.model), vec![("u".to_string(), 1), ("t".to_string(), 2)]);
}

#[test]
fn unexpected_event_changes_nothing() {
    let mut s = ClipStore::new(model(&[("a", 1)]), at(5));
    assert_eq!(s.on_event(PersistEvent::Written(at(9))), PersistAction::Done);
    assert_eq!(s.last_known_modification_time, at(5));
    assert_eq!(s.phase, PersistPhase::Idle);
}

#[test]
fn fuzzy_filter_keeps_half_of_best() {
    assert_eq!(select_matches(&vec![Some(100), Some(60), Some(40)]), vec![0, 1]);
    assert_eq!(select_matches(&vec![Some(40), Some(100), Some(60)]), vec![1, 2]);
    assert_eq!(select_matches(&vec![Some(50), None, Some(100)]), vec![2, 0]);
}

#[test]
fn fuzzy_filter_ties_keep_order() {
    assert_eq!(select_matches(&vec![Some(7), Some(9), Some(7), Some(9)]), vec![1, 3, 0, 2]);
    assert_eq!(select_matches(&vec![]), Vec::<usize>::new());
    assert_eq!(select_matches(&vec![None, None]), Vec::<usize>::new());
}

#[test]
fn fuzzy_filter_threshold_truncates_toward_zero() {
    assert_eq!(select_matches(&vec![Some(101), Some(50), Some(49)]), vec![0, 1]);
    assert_eq!(select_matches(&vec![Some(-3), Some(-1), Some(-2)]), Vec::<usize>::new());
    assert_eq!(select_matches(&vec![Some(3), Some(1), Some(2)]), vec![0, 2, 1]);
}

#[test]
fn fuzzy_match_showcase() {
    assert_eq!(Some(106), fuzzy_match("choice", "choice"));
    assert_eq!(Some(110), fuzzy_match("c-hoice", "choice"));
    assert_eq!(Some(46), fuzzy_match("cxhxoxixcxex", "choice"));
}

#[test]
fn clipboard_plugin_ranks_stored_texts() {
    let mut p = ClipboardPlugin::new(model(&[("cxhxoxixcxex", 1), ("choice", 2), ("zzz", 3)]), at(1));
    let rows = p.matching_rows("choice");
    let contents: Vec<String> = rows.iter().map(|r| r.main_entry.content.clone()).collect();
    assert_eq!(contents, vec!["choice".to_string()]);
    assert_eq!(rows[0].identifier.plugin_id, "clip");
    assert_eq!(rows[0].identifier.identifier, "choice");
    match p.query("") {
        PluginResult::Rows(all) => assert_eq!(all.len(), 3),
        other => panic!("expected rows, got {:?}", other),
    }
    assert_eq!(p.query_return("choice"), PluginResult::Nothing);
    assert_eq!(p.name(), "clip");
    assert!(p.settings().interested_in_clipboard);
    assert!(!p.settings().requies_explicit_query);
}

#[test]
fn clipboard_event_records_text() {
    let mut p = ClipboardPlugin::new(DataModel::new(), at(1));
    p.on_subscribed_event(&PluginEvent::Clipboard("copied".to_string()));
    assert_eq!(p.store.model.clips.len(), 1);
    assert_eq!(p.store.model.clips[0].text, "copied");
    assert!(p.store.model.clips[0].last_use_timestamp.secs > 1_000_000_000);
    assert_eq!(p.store.phase, PersistPhase::Checking);
}

#[test]
fn clipboard_plugin_load_and_declarations() {
    let p = ClipboardPlugin::load("1", model(&[("a", 1)]), at(4)).unwrap();
    assert_eq!(texts(&p.store.model), vec![("a".to_string(), 1)]);
    assert_eq!(p.store.last_known_modification_time, at(4));
    assert_eq!(p.answer_return("a"), PluginResult::Nothing);
    match ClipboardPlugin::load("2", DataModel::new(), at(4)) {
        Err(m) => assert_eq!(m, "compatible with: 1 but your version is: 2"),
        Ok(_) => panic!("a plugin of another version must not load"),
    }
    assert_eq!(ClipboardPlugin::plugin_name(), "clip");
    let st = ClipboardPlugin::plugin_settings();
    assert!(!st.requies_explicit_query);
    assert!(st.interested_in_clipboard);
}
