//! The decisions of the live-check daemon: when the channel list changed,
//! what a check changes in the recorded state, and which notification a
//! check calls for.

use vstd::prelude::*;

use crate::api::LiveStatus;
use crate::config::{ids_of, same_texts, texts, Config};
use crate::state::{checked_state, AppState, ChannelState, Timestamp};

verus! {

/// How a check changed a channel's live state.
#[derive(Clone, Copy, Debug, PartialEq, Eq, Structural)]
pub enum Transition {
    /// Live before and after, or offline before and after.
    Unchanged,
    /// Not live before (or never checked), live now.
    WentLive,
    /// Live before, not live now.
    WentOffline,
}

/// The desktop notification a check calls for.
#[derive(Clone, Copy, Debug, PartialEq, Eq, Structural)]
pub enum Notice {
    /// "The stream started".
    Live,
    /// "The stream ended".
    Offline,
}

/// The transition from `was_live` to `now_live`.
pub open spec fn transition_of(was_live: bool, now_live: bool) -> Transition {
    if now_live && !was_live {
        Transition::WentLive
    } else if !now_live && was_live {
        Transition::WentOffline
    } else {
        Transition::Unchanged
    }
}

/// The notification for a transition: going live is always announced, going
/// offline only when `notify_offline` is set.
pub open spec fn notice_of(t: Transition, notify_offline: bool) -> Option<Notice> {
    match t {
        Transition::WentLive => Some(Notice::Live),
        Transition::WentOffline => if notify_offline {
            Some(Notice::Offline)
        } else {
            None
        },
        Transition::Unchanged => None,
    }
}

/// The notification for a transition: going live is always announced, going
/// offline only when `notify_offline` is set.
pub fn notice_for(t: Transition, notify_offline: bool) -> (n: Option<Notice>)
    ensures
        n == notice_of(t, notify_offline),
{
    match t {
        Transition::WentLive => Some(Notice::Live),
        Transition::WentOffline => if notify_offline {
            Some(Notice::Offline)
        } else {
            None
        },
        Transition::Unchanged => None,
    }
}

/// The state of one channel in `states`, if recorded.
pub open spec fn recorded(states: Map<Seq<char>, ChannelState>, id: Seq<char>) -> Option<ChannelState> {
    if states.contains_key(id) {
        Some(states[id])
    } else {
        None
    }
}

/// Whether a recorded state says the channel is live.
pub open spec fn recorded_live(states: Map<Seq<char>, ChannelState>, id: Seq<char>) -> bool {
    states.contains_key(id) && states[id].is_live
}

/// The daemon's memory between checks: the state of every checked channel
/// and the channel ids of the configuration it last worked from.
pub struct Monitor {
    state: AppState,
    last_channel_ids: Vec<String>,
}

impl Monitor {
    /// The recorded channel states.
    pub closed spec fn states(&self) -> Map<Seq<char>, ChannelState> {
        self.state@
    }

    /// The channel ids of the configuration of the last cycle.
    pub closed spec fn last_ids(&self) -> Seq<Seq<char>> {
        texts(self.last_channel_ids@)
    }

    /// A monitor that starts from the persisted `state` and the channels of
    /// `config`.
    pub fn new(config: &Config, state: AppState) -> (m: Self)
        ensures
            m.states() == state@,
            m.last_ids() == ids_of(config.channels@),
    {
        Monitor { state, last_channel_ids: config.channel_ids() }
    }

    /// The recorded channel states.
    pub fn state(&self) -> (s: &AppState)
        ensures
            s@ == self.states(),
    {
        &self.state
    }

    /// Whether the configuration now lists other channel ids (or the same in
    /// another order) than the last cycle worked from; a change triggers an
    /// immediate check.
    pub fn channels_changed(&self, config: &Config) -> (changed: bool)
        ensures
            changed == (ids_of(config.channels@) != self.last_ids()),
    {
        let ids = config.channel_ids();
        !same_texts(&ids, &self.last_channel_ids)
    }

    /// Starts a check cycle over the channels of `config`.
    pub fn begin_cycle(&mut self, config: &Config)
        ensures
            final(self).last_ids() == ids_of(config.channels@),
            final(self).states() == old(self).states(),
    {
        self.last_channel_ids = config.channel_ids();
    }

    /// Records that a check of channel `channel_id` reported `live`, and
    /// tells how the channel's live state changed.
    pub fn record_check(&mut self, channel_id: &str, live: &LiveStatus) -> (t: Transition)
        ensures
            t == transition_of(recorded_live(old(self).states(), channel_id@), live.is_live),
            final(self).states() == old(self).states().insert(
                channel_id@,
                checked_state(
                    live,
                    match recorded(old(self).states(), channel_id@) {
                        Some(p) => Some(&p),
                        None => None,
                    },
                    final(self).states()[channel_id@].last_checked,
                ),
            ),
            final(self).last_ids() == old(self).last_ids(),
            final(self).states().contains_key(channel_id@),
            final(self).states()[channel_id@].is_live == live.is_live,
            final(self).states()[channel_id@].viewer_count == live.viewer_count,
            final(self).states()[channel_id@].live_title == live.live_title,
            t == Transition::WentLive ==> final(self).states()[channel_id@].went_live_at == Some(
                final(self).states()[channel_id@].last_checked,
            ),
    {
        let was = match self.state.get(channel_id) {
            Some(s) => s.is_live,
            None => false,
        };
        let t = if live.is_live && !was {
            Transition::WentLive
        } else if !live.is_live && was {
            Transition::WentOffline
        } else {
            Transition::Unchanged
        };
        let next = ChannelState::from_live_status(live, self.state.get(channel_id));
        self.state.insert(channel_id.to_owned(), next);
        t
    }
}

/// A check that reports the same live state as the one before it calls for
/// no notification: notifications are not repeated.
pub proof fn repeated_report_is_silent(
    states: Map<Seq<char>, ChannelState>,
    id: Seq<char>,
    first: LiveStatus,
    second: LiveStatus,
    now: Timestamp,
    notify_offline: bool,
)
    requires
        first.is_live == second.is_live,
    ensures
        ({
            let after = states.insert(
                id,
                checked_state(
                    &first,
                    match recorded(states, id) {
                        Some(p) => Some(&p),
                        None => None,
                    },
                    now,
                ),
            );
            notice_of(transition_of(recorded_live(after, id), second.is_live), notify_offline)
                is None
        }),
{
}

/// While a channel stays live, the time it went live is kept; when it goes
/// live, that time is the time of the check.
pub proof fn went_live_time_is_kept(
    previous: ChannelState,
    status: LiveStatus,
    now: Timestamp,
)
    ensures
        previous.is_live && status.is_live ==> checked_state(&status, Some(&previous), now).went_live_at
            == previous.went_live_at,
        !previous.is_live && status.is_live ==> checked_state(&status, Some(&previous), now).went_live_at
            == Some(now),
        checked_state(&status, None, now).went_live_at == (if status.is_live { Some(now) } else { None }),
{
}

} // verus!

verus! {

/// A check that finds a channel newly live records the time of that very
/// check as the time the stream went live, and records the live flag, title
/// and viewer count the check reported.
pub proof fn going_live_records_check_time(
    states: Map<Seq<char>, ChannelState>,
    id: Seq<char>,
    live: LiveStatus,
    now: Timestamp,
)
    requires
        transition_of(recorded_live(states, id), live.is_live) == Transition::WentLive,
    ensures
        ({
            let previous = match recorded(states, id) {
                Some(p) => Some(&p),
                None => None,
            };
            let st = checked_state(&live, previous, now);
            &&& st.went_live_at == Some(now)
            &&& st.last_checked == now
            &&& st.is_live
            &&& st.viewer_count == live.viewer_count
        }),
{
}

} // verus!
