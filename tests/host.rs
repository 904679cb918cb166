use pusz::host::{aggregate, is_addressed, route, PluginHost};
use pusz::plugin::{plain_row, Plugin, PluginResult, PluginSettings};
use pusz::row::PuszRowIdentifier;

#[derive(Debug)]
struct Echo {
    name: &'static str,
    explicit: bool,
    clipboard: bool,
    asked: Vec<String>,
    heard: Vec<String>,
}

fn echo(name: &'static str, explicit: bool, clipboard: bool) -> Echo {
    Echo { name, explicit, clipboard, asked: vec![], heard: vec![] }
}

impl Plugin for Echo {
    fn query(&mut self, query: &str) -> PluginResult {
        self.asked.push(query.to_string());
        let text = format!("{}:{}", self.name, query);
        PluginResult::Rows(vec![plain_row(text.clone(), PuszRowIdentifier::new(self.name, text))])
    }

    fn name(&self) -> &'static str {
        self.name
    }

    fn settings(&self) -> PluginSettings {
        PluginSettings { requies_explicit_query: self.explicit, interested_in_clipboard: self.clipboard }
    }

    fn on_subscribed_event(&mut self, event: &pusz::plugin::PluginEvent) {
        let pusz::plugin::PluginEvent::Clipboard(t) = event;
        self.heard.push(t.clone());
    }
}

fn contents(rows: &[pusz::row::PuszRow]) -> Vec<String> {
    rows.iter().map(|r| r.main_entry.content.clone()).collect()
}

fn host() -> PluginHost<Echo> {
    let mut h = PluginHost::new();
    h.register(echo("calc", true, false));
    h.register(echo("clip", false, true));
    h.register(echo("web", false, false));
    h
}

#[test]
fn route_splits_command() {
    let r = route("/calc 2+2");
    assert_eq!(r.target, Some("calc".to_string()));
    assert_eq!(r.query, "2+2");
    let r = route("hello");
    assert_eq!(r.target, None);
    assert_eq!(r.query, "hello");
    let r = route("/clip   a b");
    assert_eq!(r.target, Some("clip".to_string()));
    assert_eq!(r.query, "a b");
    let r = route("/");
    assert_eq!(r.target, Some(String::new()));
    assert_eq!(r.query, "");
    let r = route("");
    assert_eq!(r.target, None);
    assert_eq!(r.query, "");
}

#[test]
fn command_routes_only_to_named_plugin() {
    let mut h = host();
    let rows = h.dispatch_query("/calc 2+2");
    assert_eq!(contents(&rows), vec!["calc:2+2".to_string()]);
    assert_eq!(h.plugins[0].asked, vec!["2+2".to_string()]);
    assert!(h.plugins[1].asked.is_empty());
    assert!(h.plugins[2].asked.is_empty());
}

#[test]
fn free_text_routes_to_plugins_that_need_no_address() {
    let mut h = host();
    let rows = h.dispatch_query("hello");
    assert_eq!(contents(&rows), vec!["clip:hello".to_string(), "web:hello".to_string()]);
    assert!(h.plugins[0].asked.is_empty());
}

#[test]
fn unknown_command_reaches_nobody() {
    let mut h = host();
    assert!(h.dispatch_query("/nope x").is_empty());
}

#[test]
fn later_plugin_replaces_same_name() {
    let mut h = host();
    h.register(echo("calc", false, false));
    assert_eq!(h.names, vec!["calc", "clip", "web"]);
    assert!(!h.settings[0].requies_explicit_query);
    assert_eq!(h.position("web"), Some(2));
    assert_eq!(h.position("none"), None);
}

#[test]
fn failed_load_is_not_registered() {
    let mut h = host();
    let loaded: Result<Echo, String> = Err(pusz::plugin::check_interface_version("0").unwrap_err());
    let r = h.register_loaded(loaded);
    assert_eq!(r, Err("compatible with: 1 but your version is: 0".to_string()));
    assert_eq!(h.names.len(), 3);
    assert_eq!(h.register_loaded(Ok(echo("new", false, false))), Ok(()));
    assert_eq!(h.names.len(), 4);
}

#[test]
fn clipboard_reaches_subscribers_only() {
    let mut h = host();
    assert_eq!(h.clipboard_subscribers(), vec![1]);
    h.broadcast_clipboard("copied");
    assert_eq!(h.plugins[1].heard, vec!["copied".to_string()]);
    assert!(h.plugins[0].heard.is_empty());
    assert!(h.plugins[2].heard.is_empty());
}

#[test]
fn errors_become_rows_and_nothing_adds_nothing() {
    let ok_row = plain_row("r".to_string(), PuszRowIdentifier::new("a", "r".to_string()));
    let rows = aggregate(vec![
        ("a", PluginResult::Rows(vec![ok_row])),
        ("b", PluginResult::Nothing),
        ("c", PluginResult::Error("bad input".to_string())),
    ]);
    assert_eq!(rows.len(), 2);
    assert_eq!(rows[0].main_entry.content, "r");
    assert_eq!(rows[1].main_entry.content, "bad input");
    assert_eq!(rows[1].identifier.plugin_id, "c");
    assert!(!rows[1].is_removable);
    assert!(aggregate(vec![]).is_empty());
}

#[test]
fn addressing_rules() {
    let explicit = PluginSettings { requies_explicit_query: true, interested_in_clipboard: false };
    let open = PluginSettings { requies_explicit_query: false, interested_in_clipboard: false };
    assert!(is_addressed(&Some("calc".to_string()), "calc", explicit));
    assert!(!is_addressed(&Some("calc".to_string()), "clip", open));
    assert!(!is_addressed(&None, "calc", explicit));
    assert!(is_addressed(&None, "clip", open));
    let h = host();
    assert_eq!(h.targets(&None), vec![1, 2]);
    assert_eq!(h.targets(&Some("web".to_string())), vec![2]);
}

#[test]
fn successful_load_joins_under_its_name() {
    let mut h = host();
    assert_eq!(h.register_loaded(Ok(echo("extra", true, true))), Ok(()));
    assert_eq!(h.position("extra"), Some(3));
    assert!(h.settings[3].requies_explicit_query);
    assert_eq!(h.clipboard_subscribers(), vec![1, 3]);
}
