//! The plugin host: routes a typed query to the plugins it is meant for,
//! and gathers what they answer into one list of rows.
//!
//! A query that starts with `/` addresses one plugin by name: `/calc 2+2`
//! asks only the plugin named `calc`, with the query `2+2`. Any other query
//! goes to every plugin that does not insist on being addressed.
use vstd::prelude::*;
use crate::plugin::{identifies, is_plain_row, plain_row, Plugin, PluginEvent, PluginResult, PluginSettings};
use crate::row::{PuszRow, PuszRowIdentifier};
use crate::text::str_eq;
use vstd::string::StrSliceExecFns;

verus! {

/// Unicode's White_Space characters, the ones that separate words.
pub open spec fn is_space(c: char) -> bool {
    ('\u{9}' <= c && c <= '\u{d}') || c == ' ' || c == '\u{85}' || c == '\u{a0}' || c
        == '\u{1680}' || ('\u{2000}' <= c && c <= '\u{200a}') || c == '\u{2028}' || c
        == '\u{2029}' || c == '\u{202f}' || c == '\u{205f}' || c == '\u{3000}'
}

fn space(c: char) -> (r: bool)
    ensures
        r == is_space(c),
{
    ('\u{9}' <= c && c <= '\u{d}') || c == ' ' || c == '\u{85}' || c == '\u{a0}' || c
        == '\u{1680}' || ('\u{2000}' <= c && c <= '\u{200a}') || c == '\u{2028}' || c
        == '\u{2029}' || c == '\u{202f}' || c == '\u{205f}' || c == '\u{3000}'
}

/// The first position at or after `i` that holds a space, or the end.
pub open spec fn word_end(s: Seq<char>, i: int) -> int
    decreases s.len() - i,
{
    if i < 0 || i >= s.len() {
        s.len() as int
    } else if is_space(s[i]) {
        i
    } else {
        word_end(s, i + 1)
    }
}

/// The first position at or after `i` that holds no space, or the end.
pub open spec fn spaces_end(s: Seq<char>, i: int) -> int
    decreases s.len() - i,
{
    if i < 0 || i >= s.len() {
        s.len() as int
    } else if !is_space(s[i]) {
        i
    } else {
        spaces_end(s, i + 1)
    }
}

/// The input addresses a plugin by name.
pub open spec fn is_command(s: Seq<char>) -> bool {
    s.len() > 0 && s[0] == '/'
}

/// The name that a command addresses: its first word, without the `/`.
pub open spec fn command_name(s: Seq<char>) -> Seq<char> {
    s.subrange(1, word_end(s, 1))
}

/// What is asked: the text after the command's first word and the spaces
/// that follow it, or the whole input where it is no command.
pub open spec fn query_text(s: Seq<char>) -> Seq<char> {
    if is_command(s) {
        s.subrange(spaces_end(s, word_end(s, 1)), s.len() as int)
    } else {
        s
    }
}

proof fn lemma_word_end(s: Seq<char>, i: int)
    requires
        0 <= i <= s.len(),
    ensures
        i <= word_end(s, i) <= s.len(),
    decreases s.len() - i,
{
    if i < s.len() && !is_space(s[i]) {
        lemma_word_end(s, i + 1);
    }
}

proof fn lemma_spaces_end(s: Seq<char>, i: int)
    requires
        0 <= i <= s.len(),
    ensures
        i <= spaces_end(s, i) <= s.len(),
    decreases s.len() - i,
{
    if i < s.len() && is_space(s[i]) {
        lemma_spaces_end(s, i + 1);
    }
}

/// A query split into the plugin it addresses, if any, and the text asked.
#[derive(Debug)]
pub struct Route {
    pub target: Option<String>,
    pub query: String,
}

/// Splits `input` into the addressed plugin's name and the query.
pub fn route(input: &str) -> (r: Route)
    ensures
        r.target is Some <==> is_command(input@),
        r.target matches Some(t) ==> t@ == command_name(input@),
        r.query@ == query_text(input@),
{
    let n = input.unicode_len();
    if n == 0 || input.get_char(0) != '/' {
        return Route { target: None, query: String::from_str(input) };
    }
    let mut e: usize = 1;
    while e < n && !space(input.get_char(e))
        invariant
            n == input@.len(),
            1 <= e <= n,
            word_end(input@, e as int) == word_end(input@, 1),
        decreases n - e,
    {
        e = e + 1;
    }
    let mut q: usize = e;
    while q < n && space(input.get_char(q))
        invariant
            n == input@.len(),
            e <= q <= n,
            spaces_end(input@, q as int) == spaces_end(input@, e as int),
        decreases n - q,
    {
        q = q + 1;
    }
    let name = input.substring_char(1, e);
    let rest = input.substring_char(q, n);
    Route { target: Some(String::from_str(name)), query: String::from_str(rest) }
}

/// Whether a plugin named `name` with `settings` takes part in a query
/// addressed to `target`.
pub open spec fn addressed(target: Option<Seq<char>>, name: Seq<char>, settings: PluginSettings) -> bool {
    match target {
        Some(t) => t == name,
        None => !settings.requies_explicit_query,
    }
}

pub open spec fn target_view(target: Option<String>) -> Option<Seq<char>> {
    match target {
        Some(t) => Some(t@),
        None => None,
    }
}

pub fn is_addressed(target: &Option<String>, name: &str, settings: PluginSettings) -> (r: bool)
    ensures
        r == addressed(target_view(*target), name@, settings),
{
    match target {
        Some(t) => str_eq(t.as_str(), name),
        None => !settings.requies_explicit_query,
    }
}

/// `row` is the row that tells the user why plugin `name` failed with `message`.
pub open spec fn is_error_row(row: PuszRow, name: Seq<char>, message: Seq<char>) -> bool {
    is_plain_row(row, message) && identifies(row.identifier, name, message)
}

/// `after` is `before` with what `result`, from plugin `name`, contributes:
/// its rows, a row that carries its error, or nothing.
pub open spec fn contributes(
    before: Seq<PuszRow>,
    name: Seq<char>,
    result: PluginResult,
    after: Seq<PuszRow>,
) -> bool {
    match result {
        PluginResult::Nothing => after == before,
        PluginResult::Error(m) => {
            &&& after.len() == before.len() + 1
            &&& after.drop_last() == before
            &&& is_error_row(after.last(), name, m@)
        },
        PluginResult::Rows(v) => after == before + v@,
    }
}

/// How many rows `result` contributes.
pub open spec fn contribution_len(result: PluginResult) -> int {
    match result {
        PluginResult::Nothing => 0,
        PluginResult::Error(_) => 1,
        PluginResult::Rows(v) => v@.len() as int,
    }
}

/// `rows` is what the answers `results`, each with its plugin's name, add
/// up to, in order.
pub open spec fn aggregated(results: Seq<(Seq<char>, PluginResult)>, rows: Seq<PuszRow>) -> bool
    decreases results.len(),
{
    if results.len() == 0 {
        rows.len() == 0
    } else {
        let last = results.last();
        let mid = rows.subrange(0, rows.len() - contribution_len(last.1));
        &&& rows.len() >= contribution_len(last.1)
        &&& aggregated(results.drop_last(), mid)
        &&& contributes(mid, last.0, last.1, rows)
    }
}

proof fn lemma_aggregated_step(
    results: Seq<(Seq<char>, PluginResult)>,
    mid: Seq<PuszRow>,
    rows: Seq<PuszRow>,
)
    requires
        results.len() > 0,
        aggregated(results.drop_last(), mid),
        contributes(mid, results.last().0, results.last().1, rows),
    ensures
        aggregated(results, rows),
{
    let k = contribution_len(results.last().1);
    assert(rows.subrange(0, rows.len() - k) =~= mid);
}

pub open spec fn named_results(v: Seq<(&'static str, PluginResult)>) -> Seq<(Seq<char>, PluginResult)> {
    v.map_values(|x: (&'static str, PluginResult)| (x.0@, x.1))
}

/// Adds to `rows` what `result`, from the plugin `name`, contributes.
pub fn append_result(rows: &mut Vec<PuszRow>, name: &'static str, result: PluginResult)
    ensures
        contributes(old(rows)@, name@, result, final(rows)@),
{
    match result {
        PluginResult::Nothing => {},
        PluginResult::Error(m) => {
            let id = PuszRowIdentifier::new(name, m.clone());
            let row = plain_row(m, id);
            rows.push(row);
            assert(rows@.drop_last() =~= old(rows)@);
        },
        PluginResult::Rows(v) => {
            let mut v = v;
            rows.append(&mut v);
        },
    }
}

/// All rows that `results` add up to, in order: the rows of each answer,
/// a row for each error, nothing for an empty answer.
pub fn aggregate(results: Vec<(&'static str, PluginResult)>) -> (r: Vec<PuszRow>)
    ensures
        aggregated(named_results(results@), r@),
{
    let ghost all = results@;
    let mut rest = results;
    let mut rows: Vec<PuszRow> = Vec::new();
    let ghost mut i: int = 0;
    while rest.len() > 0
        invariant
            0 <= i <= all.len(),
            rest@ == all.subrange(i, all.len() as int),
            aggregated(named_results(all.subrange(0, i)), rows@),
        decreases rest@.len(),
    {
        let (name, result) = rest.remove(0);
        let ghost before = rows@;
        append_result(&mut rows, name, result);
        proof {
            assert(all[i] == (name, result));
            let done = named_results(all.subrange(0, i + 1));
            assert(done.drop_last() =~= named_results(all.subrange(0, i)));
            assert(done.last() == (name@, result));
            assert(aggregated(done.drop_last(), before));
            lemma_aggregated_step(done, before, rows@);
            i = i + 1;
            assert(rest@ =~= all.subrange(i, all.len() as int));
        }
    }
    assert(all.subrange(0, i) =~= all);
    rows
}

/// The loaded plugins, each with the name and settings it declared when it
/// was registered. Names are unique; a later plugin replaces an earlier one
/// of the same name.
pub struct PluginHost<P: Plugin> {
    pub names: Vec<&'static str>,
    pub settings: Vec<PluginSettings>,
    pub plugins: Vec<P>,
}

impl<P: Plugin> PluginHost<P> {
    pub open spec fn wf(&self) -> bool {
        &&& self.names@.len() == self.settings@.len()
        &&& self.names@.len() == self.plugins@.len()
        &&& forall|i: int, j: int|
            0 <= i < j < self.names@.len() ==> (#[trigger] self.names@[i])@ != (
            #[trigger] self.names@[j])@
    }

    pub fn new() -> (r: Self)
        ensures
            r.wf(),
            r.names@.len() == 0,
    {
        PluginHost { names: Vec::new(), settings: Vec::new(), plugins: Vec::new() }
    }

    /// The position of the plugin named `name`, if one is registered.
    pub fn position(&self, name: &str) -> (r: Option<usize>)
        requires
            self.wf(),
        ensures
            r matches Some(i) ==> i < self.names@.len() && self.names@[i as int]@ == name@,
            r is None ==> forall|i: int| 0 <= i < self.names@.len() ==> (#[trigger] self.names@[i])@ != name@,
    {
        let mut i: usize = 0;
        while i < self.names.len()
            invariant
                self.wf(),
                i <= self.names@.len(),
                forall|k: int| 0 <= k < i ==> (#[trigger] self.names@[k])@ != name@,
            decreases self.names@.len() - i,
        {
            if str_eq(self.names[i], name) {
                return Some(i);
            }
            i = i + 1;
        }
        None
    }

    /// Registers `plugin` under `name` with `settings`, replacing a plugin
    /// registered under the same name.
    pub fn register_named(&mut self, name: &'static str, settings: PluginSettings, plugin: P)
        requires
            old(self).wf(),
        ensures
            final(self).wf(),
            Self::registered_as(*old(self), *final(self), name, settings, plugin),
    {
        proof {
            self.lemma_position_spec(name@);
        }
        match self.position(name) {
            Some(i) => {
                self.settings.set(i, settings);
                self.plugins.set(i, plugin);
            },
            None => {
                self.names.push(name);
                self.settings.push(settings);
                self.plugins.push(plugin);
            },
        }
    }

    /// `after` is `before` with `plugin` registered under `name` with
    /// `settings`: it takes the place of the plugin of that name, or joins
    /// at the end where there was none.
    pub open spec fn registered_as(
        before: Self,
        after: Self,
        name: &'static str,
        settings: PluginSettings,
        plugin: P,
    ) -> bool {
        match before.position_spec(name@) {
            Some(i) => {
                &&& after.names@ == before.names@
                &&& after.settings@ == before.settings@.update(i, settings)
                &&& after.plugins@ == before.plugins@.update(i, plugin)
            },
            None => {
                &&& after.names@ == before.names@.push(name)
                &&& after.settings@ == before.settings@.push(settings)
                &&& after.plugins@ == before.plugins@.push(plugin)
            },
        }
    }

    /// The position of the plugin named `n`, if any.
    pub open spec fn position_spec(&self, n: Seq<char>) -> Option<int> {
        if exists|i: int| 0 <= i < self.names@.len() && (#[trigger] self.names@[i])@ == n {
            Some(choose|i: int| 0 <= i < self.names@.len() && (#[trigger] self.names@[i])@ == n)
        } else {
            None
        }
    }

    proof fn lemma_position_spec(&self, n: Seq<char>)
        requires
            self.wf(),
        ensures
            self.position_spec(n) matches Some(i) ==> 0 <= i < self.names@.len()
                && self.names@[i]@ == n && forall|j: int|
                0 <= j < self.names@.len() && (#[trigger] self.names@[j])@ == n ==> j == i,
    {
    }

    /// Registers `plugin` under the name and with the settings it declares.
    pub fn register(&mut self, plugin: P)
        requires
            old(self).wf(),
        ensures
            final(self).wf(),
            exists|n: &'static str, st: PluginSettings|
                Self::registered_as(*old(self), *final(self), n, st, plugin),
    {
        let name = plugin.name();
        let settings = plugin.settings();
        self.register_named(name, settings, plugin);
    }

    /// Registers the outcome of loading a plugin: a loaded plugin joins the
    /// registry, a failed load leaves it as it was and hands back the reason.
    pub fn register_loaded(&mut self, loaded: Result<P, String>) -> (r: Result<(), String>)
        requires
            old(self).wf(),
        ensures
            final(self).wf(),
            loaded is Ok <==> r is Ok,
            loaded matches Ok(p) ==> exists|n: &'static str, st: PluginSettings|
                Self::registered_as(*old(self), *final(self), n, st, p),
            loaded matches Err(e) ==> {
                &&& r matches Err(m) && m == e
                &&& final(self).names@ == old(self).names@
                &&& final(self).settings@ == old(self).settings@
                &&& final(self).plugins@ == old(self).plugins@
            },
    {
        match loaded {
            Ok(plugin) => {
                self.register(plugin);
                Ok(())
            },
            Err(e) => Err(e),
        }
    }

    /// The positions of the plugins that take part in a query addressed to
    /// `target`, in registry order.
    pub fn targets(&self, target: &Option<String>) -> (r: Vec<usize>)
        requires
            self.wf(),
        ensures
            forall|k: int| 0 <= k < r@.len() ==> (#[trigger] r@[k]) < self.names@.len(),
            forall|k: int, l: int| 0 <= k < l < r@.len() ==> (#[trigger] r@[k]) < (#[trigger] r@[l]),
            forall|i: int|
                0 <= i < self.names@.len() ==> (addressed(
                    target_view(*target),
                    (#[trigger] self.names@[i])@,
                    self.settings@[i],
                ) <==> exists|k: int| 0 <= k < r@.len() && r@[k] == i),
    {
        let mut r: Vec<usize> = Vec::new();
        let mut i: usize = 0;
        while i < self.names.len()
            invariant
                self.wf(),
                i <= self.names@.len(),
                forall|k: int| 0 <= k < r@.len() ==> (#[trigger] r@[k]) < i,
                forall|k: int, l: int| 0 <= k < l < r@.len() ==> (#[trigger] r@[k]) < (#[trigger] r@[l]),
                forall|j: int|
                    0 <= j < i ==> (addressed(
                        target_view(*target),
                        (#[trigger] self.names@[j])@,
                        self.settings@[j],
                    ) <==> exists|k: int| 0 <= k < r@.len() && r@[k] == j),
            decreases self.names@.len() - i,
        {
            let ghost before = r@;
            if is_addressed(target, self.names[i], self.settings[i]) {
                r.push(i);
                proof {
                    assert forall|j: int|
                        0 <= j < i + 1 implies (addressed(
                        target_view(*target),
                        (#[trigger] self.names@[j])@,
                        self.settings@[j],
                    ) <==> exists|k: int| 0 <= k < r@.len() && r@[k] == j) by {
                        if j < i {
                            if exists|k: int| 0 <= k < before.len() && before[k] == j {
                                let k = choose|k: int| 0 <= k < before.len() && before[k] == j;
                                assert(r@[k] == j);
                            }
                        } else {
                            assert(r@[before.len() as int] == j);
                        }
                    }
                }
            } else {
                proof {
                    assert forall|j: int|
                        0 <= j < i + 1 implies (addressed(
                        target_view(*target),
                        (#[trigger] self.names@[j])@,
                        self.settings@[j],
                    ) <==> exists|k: int| 0 <= k < r@.len() && r@[k] == j) by {
                        if j == i {
                            if exists|k: int| 0 <= k < r@.len() && r@[k] == j {
                                let k = choose|k: int| 0 <= k < r@.len() && r@[k] == j;
                                assert(r@[k] < i);
                            }
                        }
                    }
                }
            }
            i = i + 1;
        }
        r
    }

    /// Asks each plugin at the positions `which`, in that order, and returns
    /// what their answers add up to.
    fn ask(&mut self, which: &Vec<usize>, query: &str) -> (r: Vec<PuszRow>)
        requires
            old(self).wf(),
            forall|k: int| 0 <= k < which@.len() ==> (#[trigger] which@[k]) < old(self).names@.len(),
        ensures
            final(self).wf(),
            final(self).names@ == old(self).names@,
            final(self).settings@ == old(self).settings@,
            exists|results: Seq<(Seq<char>, PluginResult)>|
                {
                    &&& results.len() == which@.len()
                    &&& forall|k: int|
                        0 <= k < which@.len() ==> (#[trigger] results[k]).0 == old(self).names@[which@[k] as int]@
                    &&& aggregated(results, r@)
                },
    {
        let mut rows: Vec<PuszRow> = Vec::new();
        let ghost mut results: Seq<(Seq<char>, PluginResult)> = Seq::empty();
        let mut k: usize = 0;
        while k < which.len()
            invariant
                self.wf(),
                self.names@ == old(self).names@,
                self.settings@ == old(self).settings@,
                forall|j: int| 0 <= j < which@.len() ==> (#[trigger] which@[j]) < self.names@.len(),
                k <= which@.len(),
                results.len() == k,
                forall|j: int| 0 <= j < k ==> (#[trigger] results[j]).0 == self.names@[which@[j] as int]@,
                aggregated(results, rows@),
            decreases which@.len() - k,
        {
            let i = which[k];
            let mut plugin = self.plugins.remove(i);
            let result = plugin.query(query);
            self.plugins.insert(i, plugin);
            let name = self.names[i];
            let ghost before = rows@;
            let ghost res = result;
            append_result(&mut rows, name, result);
            proof {
                let next = results.push((name@, res));
                assert(next.drop_last() =~= results);
                assert(aggregated(next.drop_last(), before));
                lemma_aggregated_step(next, before, rows@);
                results = next;
            }
            k = k + 1;
        }
        rows
    }

    /// Routes `input` and gathers the answers of the plugins it addresses, in
    /// registry order.
    pub fn dispatch_query(&mut self, input: &str) -> (r: Vec<PuszRow>)
        requires
            old(self).wf(),
        ensures
            final(self).wf(),
            final(self).names@ == old(self).names@,
            final(self).settings@ == old(self).settings@,
            exists|which: Seq<usize>, results: Seq<(Seq<char>, PluginResult)>|
                {
                    &&& forall|k: int, l: int| 0 <= k < l < which.len() ==> (#[trigger] which[k]) < (#[trigger] which[l])
                    &&& forall|i: int|
                        0 <= i < old(self).names@.len() ==> (addressed(
                            if is_command(input@) { Some(command_name(input@)) } else { None },
                            (#[trigger] old(self).names@[i])@,
                            old(self).settings@[i],
                        ) <==> exists|k: int| 0 <= k < which.len() && which[k] == i)
                    &&& results.len() == which.len()
                    &&& forall|k: int|
                        0 <= k < which.len() ==> (#[trigger] results[k]).0 == old(self).names@[which[k] as int]@
                    &&& aggregated(results, r@)
                },
    {
        let rt = route(input);
        let which = self.targets(&rt.target);
        proof {
            assert(target_view(rt.target) == if is_command(input@) {
                Some(command_name(input@))
            } else {
                None::<Seq<char>>
            });
        }
        self.ask(&which, rt.query.as_str())
    }

    /// The positions of the plugins that follow the clipboard, in registry order.
    pub fn clipboard_subscribers(&self) -> (r: Vec<usize>)
        requires
            self.wf(),
        ensures
            forall|k: int| 0 <= k < r@.len() ==> (#[trigger] r@[k]) < self.names@.len(),
            forall|k: int, l: int| 0 <= k < l < r@.len() ==> (#[trigger] r@[k]) < (#[trigger] r@[l]),
            forall|i: int|
                0 <= i < self.names@.len() ==> ((#[trigger] self.settings@[i]).interested_in_clipboard
                    <==> exists|k: int| 0 <= k < r@.len() && r@[k] == i),
    {
        let mut r: Vec<usize> = Vec::new();
        let mut i: usize = 0;
        while i < self.settings.len()
            invariant
                self.wf(),
                i <= self.names@.len(),
                forall|k: int| 0 <= k < r@.len() ==> (#[trigger] r@[k]) < i,
                forall|k: int, l: int| 0 <= k < l < r@.len() ==> (#[trigger] r@[k]) < (#[trigger] r@[l]),
                forall|j: int|
                    0 <= j < i ==> ((#[trigger] self.settings@[j]).interested_in_clipboard
                        <==> exists|k: int| 0 <= k < r@.len() && r@[k] == j),
            decreases self.names@.len() - i,
        {
            let ghost before = r@;
            if self.settings[i].interested_in_clipboard {
                r.push(i);
                proof {
                    assert forall|j: int|
                        0 <= j < i + 1 implies ((#[trigger] self.settings@[j]).interested_in_clipboard
                        <==> exists|k: int| 0 <= k < r@.len() && r@[k] == j) by {
                        if j < i {
                            if exists|k: int| 0 <= k < before.len() && before[k] == j {
                                let k = choose|k: int| 0 <= k < before.len() && before[k] == j;
                                assert(r@[k] == j);
                            }
                        } else {
                            assert(r@[before.len() as int] == j);
                        }
                    }
                }
            } else {
                proof {
                    assert forall|j: int|
                        0 <= j < i + 1 implies ((#[trigger] self.settings@[j]).interested_in_clipboard
                        <==> exists|k: int| 0 <= k < r@.len() && r@[k] == j) by {
                        if j == i {
                            if exists|k: int| 0 <= k < r@.len() && r@[k] == j {
                                let k = choose|k: int| 0 <= k < r@.len() && r@[k] == j;
                                assert(r@[k] < i);
                            }
                        }
                    }
                }
            }
            i = i + 1;
        }
        r
    }

    /// Tells every plugin that follows the clipboard that it now holds `text`.
    pub fn broadcast_clipboard(&mut self, text: &str)
        requires
            old(self).wf(),
        ensures
            final(self).wf(),
            final(self).names@ == old(self).names@,
            final(self).settings@ == old(self).settings@,
    {
        let which = self.clipboard_subscribers();
        let mut k: usize = 0;
        while k < which.len()
            invariant
                self.wf(),
                self.names@ == old(self).names@,
                self.settings@ == old(self).settings@,
                forall|j: int| 0 <= j < which@.len() ==> (#[trigger] which@[j]) < self.names@.len(),
                k <= which@.len(),
            decreases which@.len() - k,
        {
            let i = which[k];
            let mut plugin = self.plugins.remove(i);
            plugin.on_subscribed_event(&PluginEvent::Clipboard(String::from_str(text)));
            self.plugins.insert(i, plugin);
            k = k + 1;
        }
    }
}

} // verus!
