//! The state the daemon keeps per channel and persists between runs.

use vstd::prelude::*;

use crate::api::LiveStatus;

verus! {

/// A point in time: whole seconds since the Unix epoch and the nanoseconds
/// since the last whole second.
#[derive(Clone, Copy, Debug, PartialEq, Eq, Structural)]
pub struct Timestamp {
    pub secs: i64,
    pub nanos: u32,
}

/// What the last check found about one channel.
#[derive(Debug)]
pub struct ChannelState {
    pub is_live: bool,
    pub channel_name: String,
    pub live_title: Option<String>,
    pub category: Option<String>,
    pub viewer_count: Option<i64>,
    pub last_checked: Timestamp,
    pub went_live_at: Option<Timestamp>,
}

/// The current time.
///
/// Trusted: converts `std::time::SystemTime::now()` with chrono's
/// `From<SystemTime> for DateTime<Utc>`, which handles times before the Unix
/// epoch too (it panics only for a time outside chrono's range of about
/// 262,000 years around the epoch); nothing is stated of the time it
/// returns.
#[verifier::external_body]
fn current_time() -> Timestamp {
    let now: chrono::DateTime<chrono::Utc> = chrono::DateTime::from(std::time::SystemTime::now());
    Timestamp { secs: now.timestamp(), nanos: now.timestamp_subsec_nanos() }
}

/// Whether the previous state, if any, was live.
pub open spec fn was_live(previous: Option<&ChannelState>) -> bool {
    match previous {
        Some(p) => p.is_live,
        None => false,
    }
}

/// When the stream went live, after a check at `now` that found `is_live`:
/// `now` if the channel just went live, else what the previous state had.
pub open spec fn went_live_after(is_live: bool, previous: Option<&ChannelState>, now: Timestamp) -> Option<Timestamp> {
    if is_live && !was_live(previous) {
        Some(now)
    } else {
        match previous {
            Some(p) => p.went_live_at,
            None => None,
        }
    }
}

/// The state recorded for a channel after a check at `now` reported `status`.
pub open spec fn checked_state(status: &LiveStatus, previous: Option<&ChannelState>, now: Timestamp) -> ChannelState {
    ChannelState {
        is_live: status.is_live,
        channel_name: status.channel_name,
        live_title: status.live_title,
        category: status.category,
        viewer_count: status.viewer_count,
        last_checked: now,
        went_live_at: went_live_after(status.is_live, previous, now),
    }
}

pub(crate) fn clone_opt(o: &Option<String>) -> (r: Option<String>)
    ensures
        r == *o,
{
    match o {
        Some(s) => Some(s.clone()),
        None => None,
    }
}

impl ChannelState {
    /// A copy of this state.
    pub fn duplicate(&self) -> (c: Self)
        ensures
            c == *self,
    {
        ChannelState {
            is_live: self.is_live,
            channel_name: self.channel_name.clone(),
            live_title: clone_opt(&self.live_title),
            category: clone_opt(&self.category),
            viewer_count: self.viewer_count,
            last_checked: self.last_checked,
            went_live_at: self.went_live_at,
        }
    }

    /// Build a `ChannelState` from a `LiveStatus` checked at `now`, keeping
    /// `went_live_at` from the previous state unless the channel just went
    /// live.
    pub fn from_live_status_at(status: &LiveStatus, previous: Option<&ChannelState>, now: Timestamp) -> (r: Self)
        ensures
            r == checked_state(status, previous, now),
            r.is_live == status.is_live,
            r.channel_name == status.channel_name,
            r.live_title == status.live_title,
            r.category == status.category,
            r.viewer_count == status.viewer_count,
            r.last_checked == now,
    {
        let was = match previous {
            Some(p) => p.is_live,
            None => false,
        };
        let went_live_at = if status.is_live && !was {
            Some(now)
        } else {
            match previous {
                Some(p) => p.went_live_at,
                None => None,
            }
        };
        ChannelState {
            is_live: status.is_live,
            channel_name: status.channel_name.clone(),
            live_title: clone_opt(&status.live_title),
            category: clone_opt(&status.category),
            viewer_count: status.viewer_count,
            last_checked: now,
            went_live_at,
        }
    }

    /// Build a `ChannelState` from a `LiveStatus` checked now, preserving
    /// `went_live_at` from the previous state when applicable.
    pub fn from_live_status(status: &LiveStatus, previous: Option<&ChannelState>) -> (r: Self)
        ensures
            r == checked_state(status, previous, r.last_checked),
            r.is_live == status.is_live,
            r.channel_name == status.channel_name,
            r.live_title == status.live_title,
            r.category == status.category,
            r.viewer_count == status.viewer_count,
    {
        let now = current_time();
        Self::from_live_status_at(status, previous, now)
    }
}

/// The channel states of `entries` keyed by channel id (a later entry wins
/// over an earlier one with the same id).
pub open spec fn entries_map(entries: Seq<(String, ChannelState)>) -> Map<Seq<char>, ChannelState>
    decreases entries.len(),
{
    if entries.len() == 0 {
        Map::empty()
    } else {
        entries_map(entries.drop_last()).insert(entries.last().0@, entries.last().1)
    }
}

/// No two entries have the same channel id.
pub open spec fn distinct_ids(entries: Seq<(String, ChannelState)>) -> bool {
    forall|i: int, j: int|
        0 <= i < entries.len() && 0 <= j < entries.len() && i != j ==> #[trigger] entries[i].0@
            != #[trigger] entries[j].0@
}

proof fn lemma_entries_map_dom(entries: Seq<(String, ChannelState)>, k: Seq<char>)
    ensures
        entries_map(entries).dom().contains(k) <==> exists|i: int|
            0 <= i < entries.len() && #[trigger] entries[i].0@ == k,
    decreases entries.len(),
{
    if entries.len() > 0 {
        let s = entries.drop_last();
        lemma_entries_map_dom(s, k);
        if entries_map(entries).dom().contains(k) && k != entries.last().0@ {
            let i = choose|i: int| 0 <= i < s.len() && #[trigger] s[i].0@ == k;
            assert(entries[i].0@ == k);
        }
        if exists|i: int| 0 <= i < entries.len() && #[trigger] entries[i].0@ == k {
            let i = choose|i: int| 0 <= i < entries.len() && #[trigger] entries[i].0@ == k;
            if i < entries.len() - 1 {
                assert(s[i].0@ == k);
            }
        }
    }
}

proof fn lemma_entries_map_at(entries: Seq<(String, ChannelState)>, i: int)
    requires
        distinct_ids(entries),
        0 <= i < entries.len(),
    ensures
        entries_map(entries).dom().contains(entries[i].0@),
        entries_map(entries)[entries[i].0@] == entries[i].1,
    decreases entries.len(),
{
    let s = entries.drop_last();
    if i < entries.len() - 1 {
        assert(distinct_ids(s)) by {
            assert forall|a: int, b: int|
                0 <= a < s.len() && 0 <= b < s.len() && a != b implies #[trigger] s[a].0@
                != #[trigger] s[b].0@ by {
                assert(entries[a].0@ != entries[b].0@);
            }
        }
        lemma_entries_map_at(s, i);
        assert(entries[i].0@ != entries[entries.len() - 1].0@);
        assert(s[i] == entries[i]);
    }
}

proof fn lemma_entries_map_update(entries: Seq<(String, ChannelState)>, i: int, id: String, st: ChannelState)
    requires
        distinct_ids(entries),
        0 <= i < entries.len(),
        id@ == entries[i].0@,
    ensures
        distinct_ids(entries.update(i, (id, st))),
        entries_map(entries.update(i, (id, st))) =~= entries_map(entries).insert(id@, st),
{
    let u = entries.update(i, (id, st));
    assert forall|a: int, b: int|
        0 <= a < u.len() && 0 <= b < u.len() && a != b implies #[trigger] u[a].0@ != #[trigger] u[b].0@ by {
        assert(entries[a].0@ != entries[b].0@);
    }
    let m = entries_map(entries).insert(id@, st);
    assert forall|k: Seq<char>| #[trigger] entries_map(u).dom().contains(k) <==> m.dom().contains(k) by {
        lemma_entries_map_dom(u, k);
        lemma_entries_map_dom(entries, k);
        if exists|j: int| 0 <= j < entries.len() && #[trigger] entries[j].0@ == k {
            let j = choose|j: int| 0 <= j < entries.len() && #[trigger] entries[j].0@ == k;
            assert(u[j].0@ == k);
        }
        if exists|j: int| 0 <= j < u.len() && #[trigger] u[j].0@ == k {
            let j = choose|j: int| 0 <= j < u.len() && #[trigger] u[j].0@ == k;
            assert(entries[j].0@ == k);
        }
    }
    assert forall|k: Seq<char>| #[trigger] entries_map(u).dom().contains(k) implies entries_map(u)[k]
        == m[k] by {
        lemma_entries_map_dom(u, k);
        let j = choose|j: int| 0 <= j < u.len() && #[trigger] u[j].0@ == k;
        lemma_entries_map_at(u, j);
        if j != i {
            lemma_entries_map_at(entries, j);
        }
    }
}

proof fn lemma_entries_map_remove(entries: Seq<(String, ChannelState)>, i: int)
    requires
        distinct_ids(entries),
        0 <= i < entries.len(),
    ensures
        distinct_ids(entries.remove(i)),
        entries_map(entries.remove(i)) =~= entries_map(entries).remove(entries[i].0@),
{
    let r = entries.remove(i);
    let key = entries[i].0@;
    assert forall|a: int, b: int|
        0 <= a < r.len() && 0 <= b < r.len() && a != b implies #[trigger] r[a].0@ != #[trigger] r[b].0@ by {
        let a2 = if a < i { a } else { a + 1 };
        let b2 = if b < i { b } else { b + 1 };
        assert(r[a] == entries[a2]);
        assert(r[b] == entries[b2]);
        assert(entries[a2].0@ != entries[b2].0@);
    }
    let m = entries_map(entries).remove(key);
    assert forall|k: Seq<char>| #[trigger] entries_map(r).dom().contains(k) <==> m.dom().contains(k) by {
        lemma_entries_map_dom(r, k);
        lemma_entries_map_dom(entries, k);
        if exists|j: int| 0 <= j < entries.len() && #[trigger] entries[j].0@ == k {
            let j = choose|j: int| 0 <= j < entries.len() && #[trigger] entries[j].0@ == k;
            if k != key {
                assert(j != i);
                let j2 = if j < i { j } else { j - 1 };
                assert(r[j2] == entries[j]);
            }
        }
        if exists|j: int| 0 <= j < r.len() && #[trigger] r[j].0@ == k {
            let j = choose|j: int| 0 <= j < r.len() && #[trigger] r[j].0@ == k;
            let j2 = if j < i { j } else { j + 1 };
            assert(r[j] == entries[j2]);
            assert(entries[j2].0@ == k);
            assert(j2 != i);
            assert(entries[j2].0@ != entries[i].0@);
        }
    }
    assert forall|k: Seq<char>| #[trigger] entries_map(r).dom().contains(k) implies entries_map(r)[k]
        == m[k] by {
        lemma_entries_map_dom(r, k);
        let j = choose|j: int| 0 <= j < r.len() && #[trigger] r[j].0@ == k;
        let j2 = if j < i { j } else { j + 1 };
        assert(r[j] == entries[j2]);
        lemma_entries_map_at(r, j);
        lemma_entries_map_at(entries, j2);
    }
}

/// The state of every checked channel, keyed by channel id.
#[derive(Debug)]
pub struct AppState {
    channels: Vec<(String, ChannelState)>,
}

impl View for AppState {
    type V = Map<Seq<char>, ChannelState>;

    closed spec fn view(&self) -> Map<Seq<char>, ChannelState> {
        entries_map(self.channels@)
    }
}

impl AppState {
    #[verifier::type_invariant]
    spec fn ids_are_distinct(self) -> bool {
        distinct_ids(self.channels@)
    }

    /// The state that knows of no channel.
    pub fn new() -> (s: Self)
        ensures
            s@ == Map::<Seq<char>, ChannelState>::empty(),
    {
        AppState { channels: Vec::new() }
    }

    /// A copy of this state.
    pub fn copy(&self) -> (c: Self)
        ensures
            c@ == self@,
    {
        proof {
            use_type_invariant(self);
        }
        let mut entries: Vec<(String, ChannelState)> = Vec::new();
        let n = self.channels.len();
        for i in 0..n
            invariant
                n == self.channels@.len(),
                entries@ == self.channels@.take(i as int),
        {
            let (id, st) = &self.channels[i];
            entries.push((id.clone(), st.duplicate()));
            assert(self.channels@.take(i + 1) =~= self.channels@.take(i as int).push(self.channels@[i as int]));
        }
        assert(self.channels@.take(n as int) =~= self.channels@);
        AppState { channels: entries }
    }

    /// The entries, one per channel, in no particular order.
    pub fn entries(&self) -> (r: &Vec<(String, ChannelState)>)
        ensures
            distinct_ids(r@),
            entries_map(r@) == self@,
    {
        proof {
            use_type_invariant(self);
        }
        &self.channels
    }

    fn find(&self, id: &str) -> (r: Option<usize>)
        ensures
            match r {
                Some(i) => i < self.channels@.len() && self.channels@[i as int].0@ == id@,
                None => forall|i: int| 0 <= i < self.channels@.len() ==> #[trigger] self.channels@[i].0@ != id@,
            },
    {
        let key = id.to_owned();
        let n = self.channels.len();
        for i in 0..n
            invariant
                n == self.channels@.len(),
                key@ == id@,
                forall|j: int| 0 <= j < i ==> #[trigger] self.channels@[j].0@ != id@,
        {
            if self.channels[i].0 == key {
                return Some(i);
            }
        }
        None
    }

    /// The state of channel `id`, if it was ever recorded.
    pub fn get(&self, id: &str) -> (r: Option<&ChannelState>)
        ensures
            r == (if self@.contains_key(id@) { Some(&self@[id@]) } else { None }),
    {
        proof {
            use_type_invariant(self);
            lemma_entries_map_dom(self.channels@, id@);
        }
        match self.find(id) {
            Some(i) => {
                proof {
                    lemma_entries_map_at(self.channels@, i as int);
                }
                Some(&self.channels[i].1)
            },
            None => None,
        }
    }

    /// Whether a state for channel `id` was recorded.
    pub fn contains_key(&self, id: &str) -> (r: bool)
        ensures
            r == self@.contains_key(id@),
    {
        proof {
            use_type_invariant(self);
            lemma_entries_map_dom(self.channels@, id@);
        }
        self.find(id).is_some()
    }

    /// Records `st` as the state of channel `id`, replacing an earlier one.
    pub fn insert(&mut self, id: String, st: ChannelState)
        ensures
            final(self)@ == old(self)@.insert(id@, st),
    {
        proof {
            use_type_invariant(&*self);
        }
        match self.find(id.as_str()) {
            Some(i) => {
                proof {
                    lemma_entries_map_update(self.channels@, i as int, id, st);
                }
                let mut chans: Vec<(String, ChannelState)> = Vec::new();
                std::mem::swap(&mut chans, &mut self.channels);
                chans.set(i, (id, st));
                self.channels = chans;
            },
            None => {
                proof {
                    let s = self.channels@.push((id, st));
                    assert(s.drop_last() =~= self.channels@);
                    assert forall|a: int, b: int|
                        0 <= a < s.len() && 0 <= b < s.len() && a != b implies #[trigger] s[a].0@
                        != #[trigger] s[b].0@ by {
                        if a < s.len() - 1 && b < s.len() - 1 {
                            assert(self.channels@[a].0@ != self.channels@[b].0@);
                        } else if a < s.len() - 1 {
                            assert(self.channels@[a].0@ != id@);
                        } else {
                            assert(self.channels@[b].0@ != id@);
                        }
                    }
                }
                let mut chans: Vec<(String, ChannelState)> = Vec::new();
                std::mem::swap(&mut chans, &mut self.channels);
                chans.push((id, st));
                self.channels = chans;
            },
        }
    }

    /// Forgets channel `id`; gives back its state if one was recorded.
    pub fn remove(&mut self, id: &str) -> (r: Option<ChannelState>)
        ensures
            final(self)@ == old(self)@.remove(id@),
            r == (if old(self)@.contains_key(id@) { Some(old(self)@[id@]) } else { None }),
    {
        proof {
            use_type_invariant(&*self);
            lemma_entries_map_dom(self.channels@, id@);
        }
        match self.find(id) {
            Some(i) => {
                proof {
                    lemma_entries_map_at(self.channels@, i as int);
                    lemma_entries_map_remove(self.channels@, i as int);
                }
                let mut chans: Vec<(String, ChannelState)> = Vec::new();
                std::mem::swap(&mut chans, &mut self.channels);
                let (_, st) = chans.remove(i);
                self.channels = chans;
                Some(st)
            },
            None => {
                proof {
                    assert(old(self)@.remove(id@) =~= old(self)@);
                }
                None
            },
        }
    }
}

impl AppState {
    /// The path of the state file inside Kucheat's state directory
    /// `state_dir`.
    pub fn state_path(state_dir: &str) -> (path: String)
        ensures
            path@ == crate::text::joined(state_dir@, "state.json"@),
    {
        crate::text::join_path(state_dir, "state.json")
    }
}

impl Default for AppState {
    fn default() -> (s: Self)
        ensures
            s@ == Map::<Seq<char>, ChannelState>::empty(),
    {
        AppState::new()
    }
}

} // verus!

verus! {

/// The state recorded for a channel is the one read back for it, and the
/// states of the other channels stay as they were; once removed, a channel
/// has no recorded state.
pub proof fn recorded_state_is_read_back(
    states: Map<Seq<char>, ChannelState>,
    id: Seq<char>,
    st: ChannelState,
    other: Seq<char>,
)
    requires
        other != id,
    ensures
        states.insert(id, st).contains_key(id),
        states.insert(id, st)[id] == st,
        states.insert(id, st).contains_key(other) == states.contains_key(other),
        states.contains_key(other) ==> states.insert(id, st)[other] == states[other],
        !states.insert(id, st).remove(id).contains_key(id),
{
}

} // verus!

verus! {

/// A check records what it reported (live flag, name, title, category and
/// viewer count) and when it ran, whatever the previous state was; only the
/// time the stream went live depends on the previous state.
pub proof fn check_records_reported_status(
    status: LiveStatus,
    previous: Option<&ChannelState>,
    other_previous: Option<&ChannelState>,
    now: Timestamp,
)
    ensures
        checked_state(&status, previous, now).is_live == status.is_live,
        checked_state(&status, previous, now).channel_name == status.channel_name,
        checked_state(&status, previous, now).live_title == status.live_title,
        checked_state(&status, previous, now).category == status.category,
        checked_state(&status, previous, now).viewer_count == status.viewer_count,
        checked_state(&status, previous, now).last_checked == now,
        checked_state(&status, previous, now).viewer_count == checked_state(
            &status,
            other_previous,
            now,
        ).viewer_count,
        checked_state(&status, previous, now).live_title == checked_state(
            &status,
            other_previous,
            now,
        ).live_title,
{
}

} // verus!
