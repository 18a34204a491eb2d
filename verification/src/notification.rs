//! The content of the desktop notifications: their text, the pages they
//! link to, and which page each action button opens.

use vstd::prelude::*;

use crate::api::LiveStatus;
use crate::text::{concat2, concat3, decimal, lines_joined, push_decimal};
use crate::tray::{channel_page, channel_page_url};

verus! {

/// How urgent a notification is.
#[derive(Clone, Copy, Debug, PartialEq, Eq, Structural)]
pub enum Urgency {
    Low,
    Normal,
}

/// A "stream started" notification: its text, the live page, its action
/// buttons (key and label), its urgency and how long it stays shown.
pub struct LiveNotification {
    pub summary: String,
    pub body: String,
    pub live_url: String,
    pub actions: Vec<(String, String)>,
    pub urgency: Urgency,
    pub timeout_ms: u32,
}

/// A "stream ended" notification.
pub struct OfflineNotification {
    pub summary: String,
    pub urgency: Urgency,
    pub timeout_ms: u32,
}

/// The (key, label) texts of action buttons.
pub open spec fn action_texts(actions: Seq<(String, String)>) -> Seq<(Seq<char>, Seq<char>)> {
    actions.map_values(|a: (String, String)| (a.0@, a.1@))
}

/// The action buttons of a live notification, as (key, label) texts.
pub open spec fn live_actions() -> Seq<(Seq<char>, Seq<char>)> {
    seq![("live"@, "라이브 보기"@), ("channel"@, "채널 페이지"@)]
}

/// The page to open for an action button of a notification.
pub enum ActionTarget {
    Open(String),
    Nothing,
}

/// The one-element sequence of `s` when present, else the empty sequence.
pub open spec fn optional_line(s: Option<Seq<char>>) -> Seq<Seq<char>> {
    match s {
        Some(line) => seq![line],
        None => Seq::empty(),
    }
}

/// The lines of a live notification's body: the title, the category and the
/// viewer count, each when known.
pub open spec fn live_body_lines(status: LiveStatus) -> Seq<Seq<char>> {
    optional_line(
        match status.live_title {
            Some(t) => Some(t@),
            None => None,
        },
    ) + optional_line(
        match status.category {
            Some(c) => Some("카테고리: "@ + c@),
            None => None,
        },
    ) + optional_line(
        match status.viewer_count {
            Some(n) => Some("시청자: "@ + decimal(n as int) + "명"@),
            None => None,
        },
    )
}

/// The live page of a channel.
pub open spec fn live_page(channel_id: Seq<char>) -> Seq<char> {
    "https://chzzk.naver.com/live/"@ + channel_id
}

/// The "stream started" notification for channel `channel_id`.
pub fn live_notification(channel_id: &str, status: &LiveStatus) -> (n: LiveNotification)
    ensures
        n.summary@ == "🔴 "@ + status.channel_name@ + " 방송 시작!"@,
        n.body@ == lines_joined(live_body_lines(*status)),
        n.live_url@ == live_page(channel_id@),
        action_texts(n.actions@) == live_actions(),
        n.urgency == Urgency::Normal,
        n.timeout_ms == 10_000,
{
    let summary = concat3("🔴 ", status.channel_name.as_str(), " 방송 시작!");
    let mut parts: Vec<String> = Vec::new();
    match &status.live_title {
        Some(t) => parts.push(t.clone()),
        None => {},
    }
    let ghost after_title = parts@;
    match &status.category {
        Some(c) => parts.push(concat2("카테고리: ", c.as_str())),
        None => {},
    }
    let ghost after_category = parts@;
    match status.viewer_count {
        Some(count) => {
            let mut line = "시청자: ".to_owned();
            push_decimal(&mut line, count);
            line.append("명");
            parts.push(line);
        },
        None => {},
    }
    proof {
        assert(crate::config::texts(parts@) =~= live_body_lines(*status));
    }
    let body = crate::text::join_lines(&parts);
    let live_url = concat2("https://chzzk.naver.com/live/", channel_id);
    let mut actions: Vec<(String, String)> = Vec::new();
    actions.push(("live".to_owned(), "라이브 보기".to_owned()));
    actions.push(("channel".to_owned(), "채널 페이지".to_owned()));
    assert(action_texts(actions@) =~= live_actions());
    LiveNotification { summary, body, live_url, actions, urgency: Urgency::Normal, timeout_ms: 10_000 }
}

/// The summary of the "stream ended" notification.
pub fn offline_summary(channel_name: &str) -> (s: String)
    ensures
        s@ == "⚫ "@ + channel_name@ + " 방송 종료"@,
{
    concat3("⚫ ", channel_name, " 방송 종료")
}

/// The "stream ended" notification for the channel named `channel_name`:
/// low urgency, shown for five seconds.
pub fn offline_notification(channel_name: &str) -> (n: OfflineNotification)
    ensures
        n.summary@ == "⚫ "@ + channel_name@ + " 방송 종료"@,
        n.urgency == Urgency::Low,
        n.timeout_ms == 5_000,
{
    OfflineNotification { summary: offline_summary(channel_name), urgency: Urgency::Low, timeout_ms: 5_000 }
}

/// The page that the action button `action` of the live notification for
/// channel `channel_id` opens: "live" opens the live page, "channel" the
/// channel page, anything else nothing.
pub fn action_target(action: &str, channel_id: &str) -> (t: ActionTarget)
    ensures
        action@ == "live"@ ==> (t matches ActionTarget::Open(u) && u@ == live_page(channel_id@)),
        action@ == "channel"@ ==> (t matches ActionTarget::Open(u) && u@ == channel_page(
            channel_id@,
        )),
        action@ != "live"@ && action@ != "channel"@ ==> t is Nothing,
{
    proof {
        reveal_strlit("live");
        reveal_strlit("channel");
        assert("live"@.len() != "channel"@.len());
    }
    let a = action.to_owned();
    if a == "live".to_owned() {
        ActionTarget::Open(concat2("https://chzzk.naver.com/live/", channel_id))
    } else if a == "channel".to_owned() {
        ActionTarget::Open(channel_page_url(channel_id))
    } else {
        ActionTarget::Nothing
    }
}

} // verus!
