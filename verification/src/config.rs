//! The user's configuration: API credentials, check settings and the list of
//! monitored channels.

use vstd::prelude::*;

verus! {

/// CHZZK Open API credentials (empty strings mean "not configured").
#[derive(Debug)]
pub struct ApiConfig {
    /// CHZZK Open API Client ID (leave empty to use unofficial API)
    pub client_id: String,
    /// CHZZK Open API Client Secret
    pub client_secret: String,
}

/// How the daemon checks channels.
#[derive(Debug)]
pub struct Settings {
    /// Interval between live checks in seconds
    pub check_interval_secs: u64,
    /// Whether to send notification when a stream goes offline
    pub notify_offline: bool,
}

/// One monitored channel: its CHZZK id and the name shown to the user.
#[derive(Debug)]
pub struct ChannelConfig {
    pub id: String,
    pub name: String,
}

/// The whole configuration file.
#[derive(Debug)]
pub struct Config {
    pub api: ApiConfig,
    pub settings: Settings,
    pub channels: Vec<ChannelConfig>,
}

/// The check interval used when the configuration file does not give one.
pub open spec fn spec_default_check_interval() -> u64 {
    60
}

/// The check interval used when the configuration file does not give one.
pub fn default_check_interval() -> (secs: u64)
    ensures
        secs == spec_default_check_interval(),
{
    60
}

/// Holds of a channel whose id differs from `id`.
pub open spec fn keeps_channel(id: Seq<char>) -> spec_fn(ChannelConfig) -> bool {
    |c: ChannelConfig| c.id@ != id
}

/// Whether some channel of `channels` has the id `id`.
pub open spec fn has_channel(channels: Seq<ChannelConfig>, id: Seq<char>) -> bool {
    exists|i: int| 0 <= i < channels.len() && #[trigger] channels[i].id@ == id
}

/// The ids of `channels`, in order.
pub open spec fn ids_of(channels: Seq<ChannelConfig>) -> Seq<Seq<char>> {
    channels.map_values(|c: ChannelConfig| c.id@)
}

fn copy_channel(c: &ChannelConfig) -> (r: ChannelConfig)
    ensures
        r == *c,
{
    ChannelConfig { id: c.id.clone(), name: c.name.clone() }
}

/// The channels of `channels` whose id is not `id`, in their order, and
/// whether any channel was left out.
fn without_channel(channels: &Vec<ChannelConfig>, id: &String) -> (res: (Vec<ChannelConfig>, bool))
    ensures
        res.0@ == channels@.filter(keeps_channel(id@)),
        res.1 == has_channel(channels@, id@),
{
    let ghost p = keeps_channel(id@);
    let mut kept: Vec<ChannelConfig> = Vec::new();
    let mut removed = false;
    let n = channels.len();
    for i in 0..n
        invariant
            n == channels@.len(),
            p == keeps_channel(id@),
            kept@ == channels@.take(i as int).filter(p),
            removed == has_channel(channels@.take(i as int), id@),
    {
        proof {
            broadcast use Seq::lemma_filter_push;
            assert(channels@.take(i + 1) =~= channels@.take(i as int).push(channels@[i as int]));
        }
        let c = &channels[i];
        if c.id == *id {
            removed = true;
            proof {
                let t = channels@.take(i + 1);
                assert(t[i as int].id@ == id@);
            }
        } else {
            kept.push(copy_channel(c));
            proof {
                let t = channels@.take(i + 1);
                if has_channel(t, id@) {
                    let j = choose|j: int| 0 <= j < t.len() && #[trigger] t[j].id@ == id@;
                    assert(j != i);
                    assert(channels@.take(i as int)[j].id@ == id@);
                }
            }
        }
        proof {
            let t = channels@.take(i + 1);
            let s = channels@.take(i as int);
            if has_channel(s, id@) {
                let j = choose|j: int| 0 <= j < s.len() && #[trigger] s[j].id@ == id@;
                assert(t[j].id@ == id@);
            }
        }
    }
    proof {
        assert(channels@.take(n as int) =~= channels@);
    }
    (kept, removed)
}

impl Config {
    /// Adds a channel to monitor. An earlier entry with the same id is
    /// replaced: the new entry goes to the end of the list.
    pub fn add_channel(&mut self, id: &str, name: &str)
        ensures
            final(self).api == old(self).api,
            final(self).settings == old(self).settings,
            final(self).channels@.len() > 0,
            final(self).channels@.drop_last() == old(self).channels@.filter(keeps_channel(id@)),
            final(self).channels@.last().id@ == id@,
            final(self).channels@.last().name@ == name@,
    {
        let id_owned = id.to_owned();
        let (mut kept, _) = without_channel(&self.channels, &id_owned);
        let ghost before = kept@;
        kept.push(ChannelConfig { id: id_owned, name: name.to_owned() });
        assert(kept@.drop_last() =~= before);
        self.channels = kept;
    }

    /// Stops monitoring the channel `id`; tells whether it was monitored.
    pub fn remove_channel(&mut self, id: &str) -> (removed: bool)
        ensures
            final(self).api == old(self).api,
            final(self).settings == old(self).settings,
            final(self).channels@ == old(self).channels@.filter(keeps_channel(id@)),
            removed == has_channel(old(self).channels@, id@),
    {
        let id_owned = id.to_owned();
        let (kept, removed) = without_channel(&self.channels, &id_owned);
        self.channels = kept;
        removed
    }
}

} // verus!

verus! {

/// The text of each string of `v`.
pub open spec fn texts(v: Seq<String>) -> Seq<Seq<char>> {
    v.map_values(|s: String| s@)
}

impl Config {
    /// The ids of the monitored channels, in order.
    pub fn channel_ids(&self) -> (ids: Vec<String>)
        ensures
            texts(ids@) == ids_of(self.channels@),
    {
        let mut ids: Vec<String> = Vec::new();
        let n = self.channels.len();
        for i in 0..n
            invariant
                n == self.channels@.len(),
                texts(ids@) == ids_of(self.channels@.take(i as int)),
        {
            let ghost old_ids = ids@;
            ids.push(self.channels[i].id.clone());
            proof {
                assert(texts(ids@) =~= texts(old_ids).push(self.channels@[i as int].id@));
                assert(self.channels@.take(i + 1) =~= self.channels@.take(i as int).push(
                    self.channels@[i as int],
                ));
                assert(texts(ids@) =~= ids_of(self.channels@.take(i + 1)));
            }
        }
        assert(self.channels@.take(n as int) =~= self.channels@);
        ids
    }

    /// The directory of Kucheat's files inside the base directory `base`
    /// (the user's configuration or state directory).
    pub fn app_dir(base: &str) -> (dir: String)
        ensures
            dir@ == crate::text::joined(base@, "kucheat"@),
    {
        crate::text::join_path(base, "kucheat")
    }

    /// The path of the configuration file inside Kucheat's configuration
    /// directory `config_dir`.
    pub fn config_path(config_dir: &str) -> (path: String)
        ensures
            path@ == crate::text::joined(config_dir@, "config.toml"@),
    {
        crate::text::join_path(config_dir, "config.toml")
    }
}

/// Whether the two lists of strings hold the same texts in the same order.
pub fn same_texts(a: &Vec<String>, b: &Vec<String>) -> (same: bool)
    ensures
        same == (texts(a@) == texts(b@)),
{
    if a.len() != b.len() {
        proof {
            assert(texts(a@).len() != texts(b@).len());
        }
        return false;
    }
    let n = a.len();
    for i in 0..n
        invariant
            n == a@.len(),
            n == b@.len(),
            forall|j: int| 0 <= j < i ==> #[trigger] a@[j]@ == b@[j]@,
    {
        if a[i] != b[i] {
            proof {
                assert(texts(a@)[i as int] != texts(b@)[i as int]);
            }
            return false;
        }
    }
    proof {
        assert(texts(a@) =~= texts(b@));
    }
    true
}

impl Default for Config {
    /// The configuration written on first run: no credentials, a check every
    /// 60 seconds, no offline notifications and no channels.
    fn default() -> (c: Self)
        ensures
            c.api.client_id@.len() == 0,
            c.api.client_secret@.len() == 0,
            c.settings.check_interval_secs == 60,
            !c.settings.notify_offline,
            c.channels@.len() == 0,
    {
        Config {
            api: ApiConfig { client_id: String::new(), client_secret: String::new() },
            settings: Settings { check_interval_secs: 60, notify_offline: false },
            channels: Vec::new(),
        }
    }
}

} // verus!

verus! {

proof fn lemma_filter_twice(channels: Seq<ChannelConfig>, id: Seq<char>)
    ensures
        channels.filter(keeps_channel(id)).filter(keeps_channel(id)) == channels.filter(
            keeps_channel(id),
        ),
    decreases channels.len(),
{
    reveal(Seq::filter);
    broadcast use Seq::lemma_filter_push;

    if channels.len() > 0 {
        lemma_filter_twice(channels.drop_last(), id);
    }
}

proof fn lemma_filtered_has_no_id(channels: Seq<ChannelConfig>, id: Seq<char>)
    ensures
        !has_channel(channels.filter(keeps_channel(id)), id),
{
    broadcast use Seq::lemma_filter_pred;

    let f = channels.filter(keeps_channel(id));
    if has_channel(f, id) {
        let i = choose|i: int| 0 <= i < f.len() && #[trigger] f[i].id@ == id;
        assert(keeps_channel(id)(f[i]));
    }
}

/// After a channel is added, exactly one monitored channel has its id, the
/// one just added, at the end of the list.
pub proof fn added_channel_is_unique(channels: Seq<ChannelConfig>, id: Seq<char>, added: ChannelConfig)
    requires
        added.id@ == id,
    ensures
        ({
            let after = channels.filter(keeps_channel(id)).push(added);
            forall|i: int| 0 <= i < after.len() && #[trigger] after[i].id@ == id ==> i == after.len() - 1
        }),
{
    lemma_filtered_has_no_id(channels, id);
    let f = channels.filter(keeps_channel(id));
    let after = f.push(added);
    assert forall|i: int| 0 <= i < after.len() && #[trigger] after[i].id@ == id implies i == after.len()
        - 1 by {
        if i < after.len() - 1 {
            assert(f[i].id@ == id);
        }
    }
}

/// Adding a channel that is already monitored leaves the other channels as
/// they were: adding twice is adding once with the second name.
pub proof fn adding_again_replaces(channels: Seq<ChannelConfig>, id: Seq<char>, first: ChannelConfig)
    requires
        first.id@ == id,
    ensures
        channels.filter(keeps_channel(id)).push(first).filter(keeps_channel(id)) == channels.filter(
            keeps_channel(id),
        ),
{
    broadcast use Seq::lemma_filter_push;

    lemma_filter_twice(channels, id);
}

/// Removing a channel just added reports it found, and leaves the list as if
/// the channel had only been removed.
pub proof fn add_then_remove(channels: Seq<ChannelConfig>, id: Seq<char>, added: ChannelConfig)
    requires
        added.id@ == id,
    ensures
        has_channel(channels.filter(keeps_channel(id)).push(added), id),
        channels.filter(keeps_channel(id)).push(added).filter(keeps_channel(id)) == channels.filter(
            keeps_channel(id),
        ),
{
    adding_again_replaces(channels, id, added);
    let after = channels.filter(keeps_channel(id)).push(added);
    assert(after[after.len() - 1].id@ == id);
}

/// Removing a channel twice: the second removal finds nothing and changes
/// nothing.
pub proof fn remove_twice(channels: Seq<ChannelConfig>, id: Seq<char>)
    ensures
        !has_channel(channels.filter(keeps_channel(id)), id),
        channels.filter(keeps_channel(id)).filter(keeps_channel(id)) == channels.filter(
            keeps_channel(id),
        ),
{
    lemma_filtered_has_no_id(channels, id);
    lemma_filter_twice(channels, id);
}

/// Removing a channel keeps every other monitored channel, in order.
pub proof fn remove_keeps_others(channels: Seq<ChannelConfig>, id: Seq<char>, i: int)
    requires
        0 <= i < channels.len(),
        channels[i].id@ != id,
    ensures
        channels.filter(keeps_channel(id)).contains(channels[i]),
{
    broadcast use Seq::lemma_filter_contains;

}

} // verus!

verus! {

/// No two channels of `channels` have the same id.
pub open spec fn distinct_channel_ids(channels: Seq<ChannelConfig>) -> bool {
    forall|i: int, j: int|
        0 <= i < channels.len() && 0 <= j < channels.len() && i != j ==> #[trigger] channels[i].id@
            != #[trigger] channels[j].id@
}

proof fn lemma_filter_keeps_distinct(channels: Seq<ChannelConfig>, id: Seq<char>)
    requires
        distinct_channel_ids(channels),
    ensures
        distinct_channel_ids(channels.filter(keeps_channel(id))),
    decreases channels.len(),
{
    reveal(Seq::filter);
    if channels.len() > 0 {
        let rest = channels.drop_last();
        let last = channels.last();
        assert(distinct_channel_ids(rest)) by {
            assert forall|i: int, j: int|
                0 <= i < rest.len() && 0 <= j < rest.len() && i != j implies #[trigger] rest[i].id@
                != #[trigger] rest[j].id@ by {
                assert(channels[i].id@ != channels[j].id@);
            }
        }
        lemma_filter_keeps_distinct(rest, id);
        let f = rest.filter(keeps_channel(id));
        if keeps_channel(id)(last) {
            let g = f.push(last);
            assert forall|i: int, j: int|
                0 <= i < g.len() && 0 <= j < g.len() && i != j implies #[trigger] g[i].id@
                != #[trigger] g[j].id@ by {
                if i < f.len() && j < f.len() {
                    assert(f[i].id@ != f[j].id@);
                } else {
                    let k = if i < f.len() { i } else { j };
                    assert(f.contains(f[k]));
                    rest.lemma_filter_contains_rev(keeps_channel(id), f[k]);
                    let m = choose|m: int| 0 <= m < rest.len() && rest[m] == f[k];
                    assert(channels[m].id@ != channels[channels.len() - 1].id@);
                }
            }
        }
    }
}

/// A channel list whose ids are all different keeps that property through
/// adding and removing channels: the configuration never lists a channel
/// twice.
pub proof fn ids_stay_distinct(channels: Seq<ChannelConfig>, id: Seq<char>, added: ChannelConfig)
    requires
        distinct_channel_ids(channels),
        added.id@ == id,
    ensures
        distinct_channel_ids(channels.filter(keeps_channel(id))),
        distinct_channel_ids(channels.filter(keeps_channel(id)).push(added)),
{
    lemma_filter_keeps_distinct(channels, id);
    added_channel_is_unique(channels, id, added);
    let f = channels.filter(keeps_channel(id));
    let g = f.push(added);
    assert forall|i: int, j: int|
        0 <= i < g.len() && 0 <= j < g.len() && i != j implies #[trigger] g[i].id@ != #[trigger] g[j].id@ by {
        if i < f.len() && j < f.len() {
            assert(f[i].id@ != f[j].id@);
        }
    }
}

} // verus!
