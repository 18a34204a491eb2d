use kucheat::api::LiveStatus;
use kucheat::config::ChannelConfig;
use kucheat::state::{AppState, ChannelState, Timestamp};
use kucheat::tray::{argb_from_rgba, build_menu, channel_page_url, chzzk_url, icon_pixmap, live_count, tooltip_description, MenuItem, SubItem};

const PNG_2X1: [u8; 74] = [
    137, 80, 78, 71, 13, 10, 26, 10, 0, 0, 0, 13, 73, 72, 68, 82, 0, 0, 0, 2, 0, 0, 0, 1, 8, 6, 0, 0, 0,
    244, 34, 127, 138, 0, 0, 0, 17, 73, 68, 65, 84, 120, 156, 99, 224, 18, 145, 211, 48, 178, 113, 11, 0,
    0, 4, 185, 1, 105, 3, 157, 86, 55, 0, 0, 0, 0, 73, 69, 78, 68, 174, 66, 96, 130,
];

fn ch(id: &str, name: &str) -> ChannelConfig {
    ChannelConfig { id: id.into(), name: name.into() }
}

fn state_of(entries: &[(&str, bool, &str, Option<&str>, Option<i64>)]) -> AppState {
    let mut st = AppState::new();
    for (id, live, name, title, viewers) in entries {
        let s = LiveStatus {
            is_live: *live,
            channel_name: name.to_string(),
            live_title: title.map(|t| t.to_string()),
            category: None,
            viewer_count: *viewers,
        };
        st.insert(id.to_string(), ChannelState::from_live_status_at(&s, None, Timestamp { secs: 1, nanos: 0 }));
    }
    st
}

fn labels(items: &[MenuItem]) -> Vec<String> {
    items
        .iter()
        .map(|i| match i {
            MenuItem::Label(t) => format!("label:{t}"),
            MenuItem::SubMenu { label, .. } => format!("sub:{label}"),
            MenuItem::Separator => "sep".to_string(),
            MenuItem::Quit(t) => format!("quit:{t}"),
        })
        .collect()
}

fn sub_labels(items: &[SubItem]) -> Vec<String> {
    items
        .iter()
        .map(|i| match i {
            SubItem::Label(t) => format!("label:{t}"),
            SubItem::Link { label, url } => format!("link:{label}:{url}"),
            SubItem::Separator => "sep".to_string(),
        })
        .collect()
}

#[test]
fn chzzk_url_formats() {
    assert_eq!(chzzk_url("live", "abc"), "https://chzzk.naver.com/live/abc");
    assert_eq!(chzzk_url("", "abc"), "https://chzzk.naver.com//abc");
    assert_eq!(channel_page_url("abc"), "https://chzzk.naver.com/abc");
}

#[test]
fn menu_without_channels() {
    let menu = build_menu(&vec![], &AppState::new());
    assert_eq!(labels(&menu), vec!["label:채널 없음 (kucheat add <id>)", "sep", "quit:종료"]);
}

#[test]
fn menu_with_live_and_offline_channels() {
    let channels = vec![ch("a", "Alpha"), ch("b", "Beta"), ch("c", "Gamma")];
    let st = state_of(&[("a", true, "Alpha Live", Some("Title"), Some(77)), ("c", false, "G", None, None)]);
    let menu = build_menu(&channels, &st);
    assert_eq!(
        labels(&menu),
        vec![
            "label:━━ 라이브 (1) ━━",
            "sub:🔴 Alpha Live",
            "label:━━ 오프라인 (2) ━━",
            "sub:⚫ Beta",
            "sub:⚫ Gamma",
            "sep",
            "quit:종료",
        ]
    );
    match &menu[1] {
        MenuItem::SubMenu { items, .. } => assert_eq!(
            sub_labels(items),
            vec![
                "label:📺 Title",
                "label:👤 시청자 77명",
                "sep",
                "link:🔗 라이브 보기:https://chzzk.naver.com/live/a",
                "link:🔗 채널 페이지 열기:https://chzzk.naver.com/a",
            ]
        ),
        _ => panic!("expected a submenu"),
    }
    match &menu[3] {
        MenuItem::SubMenu { items, .. } => {
            assert_eq!(sub_labels(items), vec!["link:🔗 채널 페이지 열기:https://chzzk.naver.com/b"])
        }
        _ => panic!("expected a submenu"),
    }
}

#[test]
fn menu_with_only_live_channels_has_no_offline_section() {
    let channels = vec![ch("a", "A"), ch("b", "B")];
    let st = state_of(&[("a", true, "A", None, None), ("b", true, "B", None, None)]);
    let menu = build_menu(&channels, &st);
    assert_eq!(labels(&menu), vec!["label:━━ 라이브 (2) ━━", "sub:🔴 A", "sub:🔴 B", "sep", "quit:종료"]);
    match &menu[1] {
        MenuItem::SubMenu { items, .. } => assert_eq!(items.len(), 3),
        _ => panic!("expected a submenu"),
    }
}

#[test]
fn tooltip_counts_live_channels() {
    let channels = vec![ch("a", "A"), ch("b", "B"), ch("z", "Z")];
    let st = state_of(&[("a", true, "A", None, None), ("b", true, "B", None, None), ("y", true, "Y", None, None)]);
    assert_eq!(live_count(&channels, &st), 2);
    assert_eq!(tooltip_description(&channels, &st), "2개 채널 라이브 중");
    assert_eq!(tooltip_description(&channels, &AppState::new()), "라이브 없음");
}

#[test]
fn argb_reorders_each_pixel() {
    let rgba = vec![1, 2, 3, 4, 5, 6, 7, 8, 9];
    assert_eq!(argb_from_rgba(2, 1, &rgba), vec![4, 1, 2, 3, 8, 5, 6, 7]);
    assert_eq!(argb_from_rgba(0, 5, &rgba), Vec::<u8>::new());
}

#[test]
fn icon_from_png() {
    let icon = icon_pixmap(&PNG_2X1).expect("valid png");
    assert_eq!(icon.width, 2);
    assert_eq!(icon.height, 1);
    assert_eq!(icon.data, vec![40, 10, 20, 30, 80, 50, 60, 70]);
}

#[test]
fn icon_from_invalid_png() {
    assert!(icon_pixmap(&[1, 2, 3]).is_none());
}
