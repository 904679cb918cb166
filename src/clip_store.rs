//! The clip store: a deduplicated history of clipboard texts, persisted to a
//! file that other processes may rewrite at any time.
//!
//! Saving uses optimistic concurrency. Before a write the store compares the
//! file's modification time with the last one it knows of; if the file is
//! newer, it reloads it, applies the pending addition again on the fresh
//! contents, and checks once more. The file work itself is done by the
//! caller: the store says what to do next, the caller does it and reports
//! back what it found.
use vstd::prelude::*;

verus! {

/// A point in time: whole seconds and nanoseconds since the Unix epoch.
#[derive(PartialEq, Eq, Structural, Clone, Copy, Debug)]
pub struct Timestamp {
    pub secs: u64,
    pub nanos: u32,
}

impl Timestamp {
    /// `self` comes strictly after `other`.
    pub open spec fn later_than(self, other: Timestamp) -> bool {
        self.secs > other.secs || (self.secs == other.secs && self.nanos > other.nanos)
    }

    pub fn is_later_than(&self, other: &Timestamp) -> (r: bool)
        ensures
            r == self.later_than(*other),
    {
        self.secs > other.secs || (self.secs == other.secs && self.nanos > other.nanos)
    }
}

/// One remembered clipboard text and when it was last seen.
#[derive(Clone, Debug)]
pub struct DataEntry {
    pub text: String,
    pub last_use_timestamp: Timestamp,
}

/// The stored texts, oldest first.
#[derive(Clone, Debug)]
pub struct DataModel {
    pub clips: Vec<DataEntry>,
}

/// A clip as a text and a time.
pub type ClipView = (Seq<char>, Timestamp);

pub open spec fn clip_view(e: DataEntry) -> ClipView {
    (e.text@, e.last_use_timestamp)
}

/// The first position of `t` in `v`, or `v.len()` where it does not occur.
pub open spec fn position_of(v: Seq<ClipView>, t: Seq<char>) -> int
    decreases v.len(),
{
    if v.len() == 0 {
        0
    } else if v[0].0 == t {
        0
    } else {
        1 + position_of(v.drop_first(), t)
    }
}

/// Whether some clip of `v` holds `t`.
pub open spec fn holds_text(v: Seq<ClipView>, t: Seq<char>) -> bool {
    exists|i: int| 0 <= i < v.len() && (#[trigger] v[i]).0 == t
}

/// No text occurs twice.
pub open spec fn texts_unique(v: Seq<ClipView>) -> bool {
    forall|i: int, j: int| 0 <= i < j < v.len() ==> (#[trigger] v[i]).0 != (#[trigger] v[j]).0
}

/// `v` after `t` was seen at `now`: the clip that holds `t` has its time
/// set to `now`; where there is none, a new clip is appended.
pub open spec fn added(v: Seq<ClipView>, t: Seq<char>, now: Timestamp) -> Seq<ClipView> {
    if position_of(v, t) < v.len() {
        v.update(position_of(v, t), (t, now))
    } else {
        v.push((t, now))
    }
}

pub proof fn lemma_position_of(v: Seq<ClipView>, t: Seq<char>)
    ensures
        0 <= position_of(v, t) <= v.len(),
        position_of(v, t) < v.len() ==> v[position_of(v, t)].0 == t,
        forall|i: int| 0 <= i < position_of(v, t) ==> (#[trigger] v[i]).0 != t,
        position_of(v, t) < v.len() <==> holds_text(v, t),
    decreases v.len(),
{
    if v.len() > 0 && v[0].0 != t {
        lemma_position_of(v.drop_first(), t);
        assert forall|i: int| 0 <= i < position_of(v, t) implies (#[trigger] v[i]).0 != t by {
            if i > 0 {
                assert(v[i] == v.drop_first()[i - 1]);
            }
        }
        if holds_text(v, t) {
            let i = choose|i: int| 0 <= i < v.len() && (#[trigger] v[i]).0 == t;
            assert(v.drop_first()[i - 1] == v[i]);
        }
        if position_of(v, t) < v.len() {
            assert(v[position_of(v, t)] == v.drop_first()[position_of(v, t) - 1]);
        }
    } else if v.len() > 0 {
        assert(v[0].0 == t);
    }
}

impl View for DataModel {
    type V = Seq<ClipView>;

    open spec fn view(&self) -> Seq<ClipView> {
        self.clips@.map_values(|e: DataEntry| clip_view(e))
    }
}

impl DataModel {
    pub fn new() -> (r: Self)
        ensures
            r@ == Seq::<ClipView>::empty(),
    {
        let r = DataModel { clips: Vec::new() };
        assert(r@ =~= Seq::<ClipView>::empty());
        r
    }

    /// Records that `text` was seen at `now`: an existing clip with that text
    /// has its time bumped, otherwise a new clip is appended at the end.
    pub fn add_entry(&mut self, text: &str, now: Timestamp)
        ensures
            final(self)@ == added(old(self)@, text@, now),
    {
        proof {
            lemma_position_of(self@, text@);
        }
        let t = String::from_str(text);
        let n = self.clips.len();
        let mut i: usize = 0;
        while i < n
            invariant
                n == self.clips.len(),
                self@ == old(self)@,
                t@ == text@,
                i <= n,
                forall|k: int| 0 <= k < i ==> (#[trigger] self@[k]).0 != text@,
            decreases n - i,
        {
            if self.clips[i].text == t {
                proof {
                    lemma_position_of(self@, text@);
                    assert(self@[i as int].0 == text@);
                    assert(position_of(self@, text@) == i) by {
                        if position_of(self@, text@) < i {
                            assert(self@[position_of(self@, text@)].0 == text@);
                        }
                    }
                }
                let entry = DataEntry { text: t, last_use_timestamp: now };
                self.clips.set(i, entry);
                assert(self@ =~= added(old(self)@, text@, now));
                return;
            }
            assert(self@[i as int].0 != text@);
            i = i + 1;
        }
        assert(position_of(self@, text@) == n) by {
            lemma_position_of(self@, text@);
            if position_of(self@, text@) < n {
                assert(self@[position_of(self@, text@)].0 == text@);
            }
        }
        self.clips.push(DataEntry { text: t, last_use_timestamp: now });
        assert(self@ =~= added(old(self)@, text@, now));
    }
}

/// Adding one text twice leaves exactly one clip with that text, and its
/// time is the time of the second addition.
pub proof fn lemma_add_twice_keeps_one(
    v: Seq<ClipView>,
    t: Seq<char>,
    first: Timestamp,
    second: Timestamp,
)
    requires
        texts_unique(v),
    ensures
        ({
            let w = added(added(v, t, first), t, second);
            &&& texts_unique(w)
            &&& exists|i: int| 0 <= i < w.len() && w[i] == (t, second)
            &&& forall|i: int| 0 <= i < w.len() && (#[trigger] w[i]).0 == t ==> w[i].1 == second
        }),
{
    lemma_add_keeps_unique(v, t, first);
    let u = added(v, t, first);
    lemma_add_keeps_unique(u, t, second);
    lemma_position_of(u, t);
    assert(holds_text(u, t)) by {
        lemma_position_of(v, t);
        if position_of(v, t) < v.len() {
            assert(u[position_of(v, t)].0 == t);
        } else {
            assert(u[v.len() as int].0 == t);
        }
    }
    let w = added(u, t, second);
    let p = position_of(u, t);
    assert(w[p] == (t, second));
    assert forall|i: int| 0 <= i < w.len() && (#[trigger] w[i]).0 == t implies w[i].1 == second by {
        if i != p {
            assert(w[i] == u[i]);
            assert(u[p].0 == t);
        }
    }
}

/// Adding a text that the store already holds leaves the number of clips
/// as it was.
pub proof fn lemma_readd_keeps_length(v: Seq<ClipView>, t: Seq<char>, now: Timestamp)
    requires
        holds_text(v, t),
    ensures
        added(v, t, now).len() == v.len(),
{
    lemma_position_of(v, t);
}

/// Adding `t` on top of contents whose texts are unique gives exactly one
/// clip with `t`, at time `now`, and one clip more only where `t` was new.
pub proof fn lemma_merge_exact(reloaded: Seq<ClipView>, t: Seq<char>, now: Timestamp)
    requires
        texts_unique(reloaded),
    ensures
        ({
            let w = added(reloaded, t, now);
            &&& texts_unique(w)
            &&& exists|i: int| 0 <= i < w.len() && w[i] == (t, now)
            &&& w.len() == reloaded.len() + if holds_text(reloaded, t) {
                0int
            } else {
                1int
            }
        }),
{
    lemma_add_keeps_unique(reloaded, t, now);
    lemma_position_of(reloaded, t);
    let w = added(reloaded, t, now);
    let p = position_of(reloaded, t);
    assert(w[p] == (t, now));
}

/// Adding keeps texts unique.
pub proof fn lemma_add_keeps_unique(v: Seq<ClipView>, t: Seq<char>, now: Timestamp)
    requires
        texts_unique(v),
    ensures
        texts_unique(added(v, t, now)),
{
    lemma_position_of(v, t);
    let w = added(v, t, now);
    assert forall|i: int, j: int| 0 <= i < j < w.len() implies (#[trigger] w[i]).0 != (
    #[trigger] w[j]).0 by {
        if position_of(v, t) < v.len() {
            let p = position_of(v, t);
            if i == p {
                assert(v[p].0 == t);
            } else if j == p {
                assert(v[p].0 == t);
            }
        } else {
            if j == v.len() {
                assert(w[i] == v[i]);
            }
        }
    }
}

/// Adding after a reload keeps every text that the reloaded contents held,
/// and holds the added text.
pub proof fn lemma_reload_keeps_external_clips(
    reloaded: Seq<ClipView>,
    t: Seq<char>,
    now: Timestamp,
)
    ensures
        forall|i: int|
            0 <= i < reloaded.len() ==> holds_text(added(reloaded, t, now), #[trigger] reloaded[i].0),
        holds_text(added(reloaded, t, now), t),
        added(reloaded, t, now).len() >= reloaded.len(),
{
    lemma_position_of(reloaded, t);
    let w = added(reloaded, t, now);
    let p = position_of(reloaded, t);
    assert forall|i: int| 0 <= i < reloaded.len() implies holds_text(w, #[trigger] reloaded[i].0) by {
        if i == p {
            assert(w[i].0 == reloaded[i].0);
        } else {
            assert(w[i] == reloaded[i]);
        }
    }
    if p < reloaded.len() {
        assert(w[p].0 == t);
    } else {
        assert(w[reloaded.len() as int].0 == t);
    }
}


/// What the caller of a clip store does next.
#[derive(PartialEq, Eq, Structural, Clone, Copy, Debug)]
pub enum PersistAction {
    /// Read the backing file's modification time and report it.
    CheckFileTime,
    /// Load the backing file and report its contents and modification time.
    Reload,
    /// Write the store's clips to the backing file and report when.
    Write,
    /// Nothing left to do.
    Done,
}

/// What the caller found when it did the work that a `PersistAction` asked for.
#[derive(Debug)]
pub enum PersistEvent {
    /// The file's modification time, or `None` where it has none.
    FileTime(Option<Timestamp>),
    /// The file's contents and its modification time.
    Reloaded(DataModel, Timestamp),
    /// The write finished at this time.
    Written(Timestamp),
}

/// Where a save stands.
#[derive(PartialEq, Eq, Structural, Clone, Copy, Debug)]
pub enum PersistPhase {
    Idle,
    Checking,
    Reloading,
    Writing,
}

/// A clip model together with the state of its save protocol.
#[derive(Debug)]
pub struct ClipStore {
    pub model: DataModel,
    /// The file's modification time as of this store's last read or write.
    pub last_known_modification_time: Timestamp,
    pub phase: PersistPhase,
    /// The text whose addition is being saved, and when it was seen.
    pub pending_text: String,
    pub pending_time: Timestamp,
    /// The file was already reloaded once during this save.
    pub retried: bool,
}

impl ClipStore {
    /// A store over `model`, read from a file with modification time `modified`.
    pub fn new(model: DataModel, modified: Timestamp) -> (r: Self)
        ensures
            r.model@ == model@,
            r.last_known_modification_time == modified,
            r.phase == PersistPhase::Idle,
            !r.retried,
    {
        ClipStore {
            model,
            last_known_modification_time: modified,
            phase: PersistPhase::Idle,
            pending_text: String::new(),
            pending_time: modified,
            retried: false,
        }
    }

    /// Records `text` as seen at `now`, and starts saving it.
    pub fn add_entry(&mut self, text: &str, now: Timestamp) -> (r: PersistAction)
        ensures
            final(self).model@ == added(old(self).model@, text@, now),
            final(self).last_known_modification_time == old(self).last_known_modification_time,
            final(self).phase == PersistPhase::Checking,
            final(self).pending_text@ == text@,
            final(self).pending_time == now,
            !final(self).retried,
            r == PersistAction::CheckFileTime,
    {
        self.model.add_entry(text, now);
        self.pending_text = String::from_str(text);
        self.pending_time = now;
        self.retried = false;
        self.phase = PersistPhase::Checking;
        PersistAction::CheckFileTime
    }

    /// Takes what the caller found and says what to do next.
    ///
    /// A file newer than the last known time means another process wrote it:
    /// the store takes the file's contents, applies the pending addition to
    /// them and checks again, and it does so at most once per save. A write
    /// after such a reload keeps the reload's time as the last known one.
    pub fn on_event(&mut self, event: PersistEvent) -> (r: PersistAction)
        ensures
            match (old(self).phase, event) {
                (PersistPhase::Checking, PersistEvent::FileTime(t)) => {
                    let newer = !old(self).retried && t is Some && t->0.later_than(
                        old(self).last_known_modification_time,
                    );
                    &&& final(self).model@ == old(self).model@
                    &&& final(self).last_known_modification_time
                        == old(self).last_known_modification_time
                    &&& final(self).retried == old(self).retried
                    &&& final(self).pending_text == old(self).pending_text
                    &&& final(self).pending_time == old(self).pending_time
                    &&& newer ==> final(self).phase == PersistPhase::Reloading && r
                        == PersistAction::Reload
                    &&& !newer ==> final(self).phase == PersistPhase::Writing && r
                        == PersistAction::Write
                },
                (PersistPhase::Reloading, PersistEvent::Reloaded(loaded, t)) => {
                    &&& final(self).model@ == added(
                        loaded@,
                        old(self).pending_text@,
                        old(self).pending_time,
                    )
                    &&& final(self).last_known_modification_time == t
                    &&& final(self).retried
                    &&& final(self).pending_text == old(self).pending_text
                    &&& final(self).pending_time == old(self).pending_time
                    &&& final(self).phase == PersistPhase::Checking
                    &&& r == PersistAction::CheckFileTime
                },
                (PersistPhase::Writing, PersistEvent::Written(t)) => {
                    &&& final(self).model@ == old(self).model@
                    &&& final(self).last_known_modification_time == if old(self).retried {
                        old(self).last_known_modification_time
                    } else {
                        t
                    }
                    &&& final(self).phase == PersistPhase::Idle
                    &&& r == PersistAction::Done
                },
                _ => {
                    &&& final(self).model@ == old(self).model@
                    &&& final(self).last_known_modification_time
                        == old(self).last_known_modification_time
                    &&& final(self).phase == old(self).phase
                    &&& r == PersistAction::Done
                },
            },
    {
        match (self.phase, event) {
            (PersistPhase::Checking, PersistEvent::FileTime(t)) => {
                let newer = match t {
                    Some(m) => !self.retried && m.is_later_than(&self.last_known_modification_time),
                    None => false,
                };
                if newer {
                    self.phase = PersistPhase::Reloading;
                    PersistAction::Reload
                } else {
                    self.phase = PersistPhase::Writing;
                    PersistAction::Write
                }
            },
            (PersistPhase::Reloading, PersistEvent::Reloaded(loaded, t)) => {
                self.model = loaded;
                self.model.add_entry(self.pending_text.as_str(), self.pending_time);
                self.last_known_modification_time = t;
                self.retried = true;
                self.phase = PersistPhase::Checking;
                PersistAction::CheckFileTime
            },
            (PersistPhase::Writing, PersistEvent::Written(t)) => {
                if !self.retried {
                    self.last_known_modification_time = t;
                }
                self.phase = PersistPhase::Idle;
                PersistAction::Done
            },
            _ => PersistAction::Done,
        }
    }
}

/// A save that found the file rewritten by another process neither loses
/// the clips that the other process wrote nor the text being added; where
/// the file's texts are unique, the text being added occurs once.
pub proof fn lemma_reload_merges(store: ClipStore, loaded: DataModel, t: Timestamp)
    requires
        store.phase == PersistPhase::Reloading,
    ensures
        ({
            let merged = added(loaded@, store.pending_text@, store.pending_time);
            &&& forall|i: int|
                0 <= i < loaded@.len() ==> holds_text(merged, #[trigger] loaded@[i].0)
            &&& holds_text(merged, store.pending_text@)
            &&& texts_unique(loaded@) ==> {
                &&& texts_unique(merged)
                &&& merged.len() == loaded@.len() + if holds_text(loaded@, store.pending_text@) {
                    0int
                } else {
                    1int
                }
            }
        }),
{
    lemma_reload_keeps_external_clips(loaded@, store.pending_text@, store.pending_time);
    if texts_unique(loaded@) {
        lemma_merge_exact(loaded@, store.pending_text@, store.pending_time);
    }
}

} // verus!
