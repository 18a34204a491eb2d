//! What the `list` and `status` commands print, and which channels the
//! `status` command still has to check.

use vstd::prelude::*;

use crate::config::{ChannelConfig, Config};
use crate::state::AppState;
use crate::text::concat2;

verus! {

/// Holds of the channels that `states` has no record of.
pub open spec fn unrecorded(states: Map<Seq<char>, crate::state::ChannelState>) -> spec_fn(ChannelConfig) -> bool {
    |c: ChannelConfig| !states.contains_key(c.id@)
}

/// The configured channels that `state` has no record of, in configured
/// order: the ones the `status` command checks before printing.
pub fn missing_channels(config: &Config, state: &AppState) -> (missing: Vec<ChannelConfig>)
    ensures
        missing@ == config.channels@.filter(unrecorded(state@)),
{
    let ghost f = unrecorded(state@);
    let mut missing: Vec<ChannelConfig> = Vec::new();
    let n = config.channels.len();
    for i in 0..n
        invariant
            n == config.channels@.len(),
            f == unrecorded(state@),
            missing@ == config.channels@.take(i as int).filter(f),
    {
        proof {
            broadcast use Seq::lemma_filter_push;
            assert(config.channels@.take(i + 1) =~= config.channels@.take(i as int).push(
                config.channels@[i as int],
            ));
        }
        let ch = &config.channels[i];
        if !state.contains_key(ch.id.as_str()) {
            missing.push(ChannelConfig { id: ch.id.clone(), name: ch.name.clone() });
        }
    }
    proof {
        assert(config.channels@.take(n as int) =~= config.channels@);
    }
    missing
}

/// The line of the `list` command for a channel: `  • <name> (<id>)`.
pub open spec fn list_text(ch: ChannelConfig) -> Seq<char> {
    "  • "@ + ch.name@ + " ("@ + ch.id@ + ")"@
}

/// The line of the `list` command for a channel.
pub fn list_line(ch: &ChannelConfig) -> (line: String)
    ensures
        line@ == list_text(*ch),
{
    let mut line = concat2("  • ", ch.name.as_str());
    line.append(" (");
    line.append(ch.id.as_str());
    line.append(")");
    line
}

/// The line of the `status` command for a channel: a live marker and the
/// stream title in brackets when the recorded state is live, an offline
/// marker when it is not, an unknown marker when nothing is recorded.
pub open spec fn status_text(ch: ChannelConfig, states: Map<Seq<char>, crate::state::ChannelState>) -> Seq<char> {
    let (icon, extra) = if !states.contains_key(ch.id@) {
        ("❓ Unknown"@, Seq::<char>::empty())
    } else if states[ch.id@].is_live {
        (
            "🔴 LIVE"@,
            match states[ch.id@].live_title {
                Some(t) => " 「"@ + t@ + "」"@,
                None => Seq::<char>::empty(),
            },
        )
    } else {
        ("⚫ Offline"@, Seq::<char>::empty())
    };
    "  "@ + icon + " "@ + ch.name@ + " ("@ + ch.id@ + ")"@ + extra
}

/// The line of the `status` command for a channel.
pub fn status_line(ch: &ChannelConfig, state: &AppState) -> (line: String)
    ensures
        line@ == status_text(*ch, state@),
{
    let mut extra = String::new();
    let icon = match state.get(ch.id.as_str()) {
        Some(s) => {
            if s.is_live {
                match &s.live_title {
                    Some(t) => {
                        extra.append(" 「");
                        extra.append(t.as_str());
                        extra.append("」");
                    },
                    None => {},
                }
                "🔴 LIVE"
            } else {
                "⚫ Offline"
            }
        },
        None => "❓ Unknown",
    };
    let mut line = concat2("  ", icon);
    line.append(" ");
    line.append(ch.name.as_str());
    line.append(" (");
    line.append(ch.id.as_str());
    line.append(")");
    line.append(extra.as_str());
    proof {
        assert(line@ =~= status_text(*ch, state@));
    }
    line
}

} // verus!
