use kucheat::api::LiveStatus;
use kucheat::state::{AppState, ChannelState, Timestamp};

fn status(live: bool, name: &str) -> LiveStatus {
    LiveStatus {
        is_live: live,
        channel_name: name.to_string(),
        live_title: if live { Some("title".to_string()) } else { None },
        category: None,
        viewer_count: if live { Some(42) } else { None },
    }
}

fn ts(secs: i64) -> Timestamp {
    Timestamp { secs, nanos: 0 }
}

#[test]
fn going_live_sets_went_live_at_to_check_time() {
    let s = ChannelState::from_live_status_at(&status(true, "N"), None, ts(100));
    assert!(s.is_live);
    assert_eq!(s.channel_name, "N");
    assert_eq!(s.live_title.as_deref(), Some("title"));
    assert_eq!(s.viewer_count, Some(42));
    assert_eq!(s.last_checked, ts(100));
    assert_eq!(s.went_live_at, Some(ts(100)));
}

#[test]
fn staying_live_keeps_went_live_at() {
    let first = ChannelState::from_live_status_at(&status(true, "N"), None, ts(100));
    let second = ChannelState::from_live_status_at(&status(true, "N"), Some(&first), ts(160));
    assert_eq!(second.went_live_at, Some(ts(100)));
    assert_eq!(second.last_checked, ts(160));
}

#[test]
fn going_offline_keeps_previous_went_live_at() {
    let first = ChannelState::from_live_status_at(&status(true, "N"), None, ts(100));
    let off = ChannelState::from_live_status_at(&status(false, "N"), Some(&first), ts(200));
    assert!(!off.is_live);
    assert_eq!(off.went_live_at, Some(ts(100)));
    assert_eq!(off.live_title, None);
}

#[test]
fn offline_without_history_has_no_went_live_at() {
    let s = ChannelState::from_live_status_at(&status(false, "N"), None, ts(5));
    assert_eq!(s.went_live_at, None);
}

#[test]
fn going_live_again_resets_went_live_at() {
    let first = ChannelState::from_live_status_at(&status(true, "N"), None, ts(100));
    let off = ChannelState::from_live_status_at(&status(false, "N"), Some(&first), ts(200));
    let again = ChannelState::from_live_status_at(&status(true, "N"), Some(&off), ts(300));
    assert_eq!(again.went_live_at, Some(ts(300)));
}

#[test]
fn from_live_status_uses_the_check_time() {
    let s = ChannelState::from_live_status(&status(true, "N"), None);
    assert_eq!(s.went_live_at, Some(s.last_checked));
    assert!(s.last_checked.secs > 1_600_000_000);
}

#[test]
fn app_state_insert_get_remove() {
    let mut st = AppState::new();
    assert!(st.get("a").is_none());
    assert!(!st.contains_key("a"));
    st.insert("a".to_string(), ChannelState::from_live_status_at(&status(true, "A"), None, ts(1)));
    st.insert("b".to_string(), ChannelState::from_live_status_at(&status(false, "B"), None, ts(2)));
    assert!(st.contains_key("a"));
    assert_eq!(st.get("a").unwrap().channel_name, "A");
    assert_eq!(st.get("b").unwrap().channel_name, "B");
    st.insert("a".to_string(), ChannelState::from_live_status_at(&status(false, "A2"), None, ts(3)));
    assert_eq!(st.get("a").unwrap().channel_name, "A2");
    assert_eq!(st.entries().len(), 2);
    let removed = st.remove("a");
    assert_eq!(removed.unwrap().channel_name, "A2");
    assert!(st.get("a").is_none());
    assert!(st.remove("a").is_none());
    assert_eq!(st.entries().len(), 1);
    assert_eq!(st.get("b").unwrap().last_checked, ts(2));
}

#[test]
fn default_app_state_is_empty() {
    let st = AppState::default();
    assert!(st.entries().is_empty());
}

#[test]
fn state_path_joins_state_json() {
    assert_eq!(AppState::state_path("/home/u/.local/state/kucheat"), "/home/u/.local/state/kucheat/state.json");
}
