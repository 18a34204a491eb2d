use kucheat::api::LiveStatus;
use kucheat::notification::{action_target, live_notification, offline_notification, offline_summary, ActionTarget, Urgency};

#[test]
fn live_notification_with_all_details() {
    let s = LiveStatus {
        is_live: true,
        channel_name: "스트리머".into(),
        live_title: Some("오늘의 방송".into()),
        category: Some("Minecraft".into()),
        viewer_count: Some(1234),
    };
    let n = live_notification("abc123", &s);
    assert_eq!(n.summary, "🔴 스트리머 방송 시작!");
    assert_eq!(n.body, "오늘의 방송\n카테고리: Minecraft\n시청자: 1234명");
    assert_eq!(n.live_url, "https://chzzk.naver.com/live/abc123");
    assert_eq!(
        n.actions,
        vec![("live".to_string(), "라이브 보기".to_string()), ("channel".to_string(), "채널 페이지".to_string())]
    );
    assert_eq!(n.urgency, Urgency::Normal);
    assert_eq!(n.timeout_ms, 10_000);
}

#[test]
fn offline_notification_is_low_and_short() {
    let n = offline_notification("N");
    assert_eq!(n.summary, "⚫ N 방송 종료");
    assert_eq!(n.urgency, Urgency::Low);
    assert_eq!(n.timeout_ms, 5_000);
}

#[test]
fn live_notification_without_details_has_empty_body() {
    let s = LiveStatus { is_live: true, channel_name: "N".into(), live_title: None, category: None, viewer_count: None };
    let n = live_notification("x", &s);
    assert_eq!(n.body, "");
    assert_eq!(n.summary, "🔴 N 방송 시작!");
}

#[test]
fn live_notification_with_viewers_only() {
    let s = LiveStatus { is_live: true, channel_name: "N".into(), live_title: None, category: None, viewer_count: Some(0) };
    assert_eq!(live_notification("x", &s).body, "시청자: 0명");
    let s = LiveStatus { is_live: true, channel_name: "N".into(), live_title: None, category: None, viewer_count: Some(-5) };
    assert_eq!(live_notification("x", &s).body, "시청자: -5명");
    let s = LiveStatus {
        is_live: true,
        channel_name: "N".into(),
        live_title: Some("T".into()),
        category: None,
        viewer_count: Some(i64::MIN),
    };
    assert_eq!(live_notification("x", &s).body, "T\n시청자: -9223372036854775808명");
}

#[test]
fn offline_summary_text() {
    assert_eq!(offline_summary("스트리머"), "⚫ 스트리머 방송 종료");
}

#[test]
fn action_buttons_open_live_and_channel_pages() {
    match action_target("live", "abc") {
        ActionTarget::Open(u) => assert_eq!(u, "https://chzzk.naver.com/live/abc"),
        ActionTarget::Nothing => panic!("live should open"),
    }
    match action_target("channel", "abc") {
        ActionTarget::Open(u) => assert_eq!(u, "https://chzzk.naver.com/abc"),
        ActionTarget::Nothing => panic!("channel should open"),
    }
    assert!(matches!(action_target("default", "abc"), ActionTarget::Nothing));
    assert!(matches!(action_target("__closed", "abc"), ActionTarget::Nothing));
}

#[test]
fn channel_button_keeps_the_channel_id() {
    match action_target("channel", "a/live/b") {
        ActionTarget::Open(u) => assert_eq!(u, "https://chzzk.naver.com/a/live/b"),
        ActionTarget::Nothing => panic!("channel should open"),
    }
}
