use pusz::actions::{handle_action, resolve_action, Effect};
use pusz::calc_plugin::CalcPlugin;
use pusz::plugin::{check_interface_version, plain_row, Plugin, PluginResult, PuszRowBuilder};
use pusz::row::{ActionMap, PuszAction, PuszEntry, PuszEvent, PuszRowIdentifier, SpecialKey};

#[test]
fn lib_it_works() {
    assert_eq!(2 + 2, 4);
}

fn calc_content(expression: &str) -> String {
    match (CalcPlugin {}).query(expression) {
        PluginResult::Rows(rows) => rows[0].main_entry.content.clone(),
        other => panic!("expected rows, got {:?}", other),
    }
}

#[test]
fn calc_lib_it_works() {
    assert_eq!(4.0f64.to_string(), calc_content("2+2"));
    assert_eq!(16.0f64.to_string(), calc_content("8/2*(2+2)"));
}

#[test]
fn calc_rejects_garbage() {
    match (CalcPlugin {}).query("2+") {
        PluginResult::Error(message) => assert!(!message.is_empty()),
        other => panic!("expected an error, got {:?}", other),
    }
}

#[test]
fn calc_row_is_identified_by_value() {
    match (CalcPlugin {}).query("3*3") {
        PluginResult::Rows(rows) => {
            assert_eq!(rows.len(), 1);
            assert_eq!(rows[0].main_entry.label, "9");
            assert_eq!(rows[0].identifier.plugin_id, "calc");
            assert_eq!(rows[0].identifier.identifier, "9");
            assert!(!rows[0].is_removable);
        }
        other => panic!("expected rows, got {:?}", other),
    }
    assert_eq!(CalcPlugin {}.name(), "calc");
    assert!(CalcPlugin {}.settings().requies_explicit_query);
}

#[test]
fn version_match_is_accepted() {
    assert_eq!(check_interface_version("1"), Ok(()));
}

#[test]
fn version_mismatch_names_both_versions() {
    let r = check_interface_version("0");
    assert_eq!(
        r,
        Err("compatible with: 1 but your version is: 0".to_string())
    );
    let message = r.unwrap_err();
    assert!(message.contains('1'));
    assert!(message.contains('0'));
    assert!(check_interface_version("").is_err());
    assert!(check_interface_version("11").is_err());
}

#[test]
fn builder_new_builds_plain_row() {
    let id = PuszRowIdentifier::new("clip", "abc".to_string());
    let row = PuszRowBuilder::new("abc".to_string(), id.clone()).build().unwrap();
    assert_eq!(row.main_entry.content, "abc");
    assert_eq!(row.main_entry.label, "abc");
    assert_eq!(row.main_entry.actions.get(&PuszEvent::Click), Some(PuszAction::SetClipboard));
    assert_eq!(row.main_entry.actions.len(), 1);
    assert!(row.additional_entries.is_empty());
    assert_eq!(row.identifier, id);
    assert_eq!(row.identifier.data, None);
    assert!(!row.is_removable);
    assert_eq!(row, plain_row("abc".to_string(), id));
}

#[test]
fn builder_reports_missing_parts() {
    let empty = PuszRowBuilder {
        main_entry: None,
        additional_entries: None,
        identifier: None,
        is_removable: None,
    };
    assert_eq!(empty.clone().build(), Err("`main_entry` must be initialized".to_string()));
    let id = PuszRowIdentifier::new("x", "y".to_string());
    let with_entry = PuszRowBuilder::new("y".to_string(), id.clone());
    let no_id = PuszRowBuilder { identifier: None, ..with_entry.clone() };
    assert_eq!(no_id.build(), Err("`identifier` must be initialized".to_string()));
    let no_flag = PuszRowBuilder { is_removable: None, ..with_entry.clone() };
    assert_eq!(no_flag.build(), Err("`is_removable` must be initialized".to_string()));
    let removable = with_entry.is_removable(true).build().unwrap();
    assert!(removable.is_removable);
}

#[test]
fn action_map_keeps_one_action_per_event() {
    let mut m = ActionMap::new();
    assert_eq!(m.len(), 0);
    assert_eq!(m.insert(PuszEvent::Click, PuszAction::SetClipboard), None);
    assert_eq!(m.insert(PuszEvent::Click, PuszAction::OpenBrowserIfLink), Some(PuszAction::SetClipboard));
    assert_eq!(m.len(), 1);
    assert_eq!(m.get(&PuszEvent::Click), Some(PuszAction::OpenBrowserIfLink));
    assert_eq!(m.get(&PuszEvent::DoubleClick), None);
    m.insert(PuszEvent::SpecialKeyPress(SpecialKey::Return), PuszAction::CustomAction);
    assert_eq!(m.len(), 2);
    let single = ActionMap::single(PuszEvent::DoubleClick, PuszAction::SetClipboard);
    assert_eq!(single.get(&PuszEvent::DoubleClick), Some(PuszAction::SetClipboard));
    assert_eq!(single.len(), 1);
}

fn entry(actions: ActionMap, content: &str) -> PuszEntry {
    PuszEntry { actions, label: content.to_string(), content: content.to_string() }
}

#[test]
fn commit_key_without_binding_does_nothing() {
    let e = entry(ActionMap::single(PuszEvent::Click, PuszAction::SetClipboard), "copied");
    assert_eq!(resolve_action(&e, PuszEvent::SpecialKeyPress(SpecialKey::Return)), None);
    let h = handle_action(&e, PuszEvent::SpecialKeyPress(SpecialKey::Return));
    assert_eq!(h.effect, Effect::Nothing);
    assert!(!h.consumed);
    let click = handle_action(&e, PuszEvent::Click);
    assert_eq!(click.effect, Effect::SetClipboard("copied".to_string()));
    assert!(click.consumed);
}

#[test]
fn open_link_only_for_urls() {
    let link = entry(ActionMap::single(PuszEvent::Click, PuszAction::OpenBrowserIfLink), "https://example.com/x");
    let h = handle_action(&link, PuszEvent::Click);
    assert_eq!(h.effect, Effect::OpenBrowser("https://example.com/x".to_string()));
    assert!(h.consumed);
    let text = entry(ActionMap::single(PuszEvent::Click, PuszAction::OpenBrowserIfLink), "not a link");
    let h = handle_action(&text, PuszEvent::Click);
    assert_eq!(h.effect, Effect::Nothing);
    assert!(h.consumed);
}

#[test]
fn custom_action_goes_to_plugin() {
    let e = entry(ActionMap::single(PuszEvent::DoubleClick, PuszAction::CustomAction), "payload");
    let h = handle_action(&e, PuszEvent::DoubleClick);
    assert_eq!(h.effect, Effect::PluginRequest("payload".to_string()));
    assert!(!h.consumed);
}

#[test]
fn row_entries_in_display_order() {
    let id = PuszRowIdentifier::new("p", "main".to_string());
    let extra = vec![
        entry(ActionMap::new(), "second"),
        entry(ActionMap::new(), "third"),
    ];
    let row = PuszRowBuilder::new("main".to_string(), id).additional_entries(extra).build().unwrap();
    let labels: Vec<String> = row.into_entries().into_iter().map(|e| e.label).collect();
    assert_eq!(labels, vec!["main".to_string(), "second".to_string(), "third".to_string()]);
}

#[test]
fn calc_load_checks_version() {
    assert!(CalcPlugin::load("1").is_ok());
    match CalcPlugin::load("0") {
        Err(m) => assert_eq!(m, "compatible with: 1 but your version is: 0"),
        Ok(_) => panic!("a plugin of another version must not load"),
    }
    assert_eq!(CalcPlugin::plugin_name(), "calc");
}
