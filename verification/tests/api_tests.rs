use kucheat::api::{
    display_name,
    ApiError, ApiRequest, ApiResponse, ChannelInfo, ChzzkClient, LiveCheckAction, LiveCheckEvent,
    LiveDetail, LiveStatus, LookupAction, LookupEvent, OfficialChannelInfo, PagedData,
};
use kucheat::config::ApiConfig;

fn client(id: &str, secret: &str) -> ChzzkClient {
    ChzzkClient::new(&ApiConfig { client_id: id.to_string(), client_secret: secret.to_string() })
}

fn headers(req: &ApiRequest) -> Vec<(String, String)> {
    req.headers.clone()
}

fn info(id: &str, name: &str, live: bool) -> ChannelInfo {
    ChannelInfo {
        channel_id: id.to_string(),
        channel_name: name.to_string(),
        channel_image_url: None,
        open_live: live,
    }
}

#[test]
fn official_api_needs_both_credentials() {
    assert!(client("id", "secret").use_official());
    assert!(!client("", "secret").use_official());
    assert!(!client("id", "").use_official());
    assert!(!client("", "").use_official());
}

#[test]
fn into_content_of_success() {
    let r = ApiResponse { code: 200, message: None, content: Some(7) }.into_content();
    assert!(matches!(r, Ok(7)));
}

#[test]
fn into_content_without_content() {
    let r = ApiResponse::<i32> { code: 200, message: Some("OK".into()), content: None }.into_content();
    assert!(matches!(r, Err(ApiError::EmptyContent)));
}

#[test]
fn into_content_of_error_code() {
    let r = ApiResponse { code: 404, message: Some("not found".into()), content: Some(1) }.into_content();
    match r {
        Err(ApiError::Status { code, message }) => {
            assert_eq!(code, 404);
            assert_eq!(message, "not found");
        }
        _ => panic!("expected a status error"),
    }
    let r = ApiResponse::<i32> { code: 500, message: None, content: None }.into_content();
    match r {
        Err(e @ ApiError::Status { .. }) => assert_eq!(e.message(), "API error (500): "),
        _ => panic!("expected a status error"),
    }
}

#[test]
fn error_messages() {
    assert_eq!(ApiError::Status { code: -3, message: "bad".into() }.message(), "API error (-3): bad");
    assert_eq!(ApiError::EmptyContent.message(), "Empty content in API response");
    assert_eq!(ApiError::NoChannel.message(), "No channel found in official API response");
    assert_eq!(ApiError::Request("HTTP request failed".into()).message(), "HTTP request failed");
    assert_eq!(ApiError::Decode("bad body".into()).message(), "bad body");
}

#[test]
fn lookup_starts_with_official_api_when_configured() {
    let c = client("cid", "csecret");
    match c.lookup_step("abc", LookupEvent::Start) {
        LookupAction::FetchOfficial(req) => {
            assert_eq!(req.url, "https://openapi.chzzk.naver.com/open/v1/channels?channelIds=abc");
            assert_eq!(
                headers(&req),
                vec![
                    ("Client-Id".to_string(), "cid".to_string()),
                    ("Client-Secret".to_string(), "csecret".to_string())
                ]
            );
        }
        _ => panic!("expected the official request"),
    }
}

#[test]
fn lookup_starts_with_unofficial_api_without_credentials() {
    let c = client("", "");
    match c.lookup_step("abc", LookupEvent::Start) {
        LookupAction::FetchUnofficial(req) => {
            assert_eq!(req.url, "https://api.chzzk.naver.com/service/v1/channels/abc");
            assert!(req.headers.is_empty());
        }
        _ => panic!("expected the unofficial request"),
    }
}

#[test]
fn official_reply_gives_first_channel_not_live() {
    let c = client("cid", "csecret");
    let paged = PagedData {
        data: vec![
            OfficialChannelInfo {
                channel_id: "abc".into(),
                channel_name: "First".into(),
                channel_image_url: Some("img".into()),
            },
            OfficialChannelInfo { channel_id: "def".into(), channel_name: "Second".into(), channel_image_url: None },
        ],
    };
    match c.lookup_step("abc", LookupEvent::OfficialReply(Ok(paged))) {
        LookupAction::Done(Ok(i)) => {
            assert_eq!(i.channel_id, "abc");
            assert_eq!(i.channel_name, "First");
            assert_eq!(i.channel_image_url.as_deref(), Some("img"));
            assert!(!i.open_live);
        }
        _ => panic!("expected the official channel"),
    }
}

#[test]
fn official_failure_falls_back_to_unofficial() {
    let c = client("cid", "csecret");
    let empty = PagedData { data: Vec::new() };
    for event in [
        LookupEvent::OfficialReply(Ok(empty)),
        LookupEvent::OfficialReply(Err(ApiError::Request("timeout".into()))),
    ] {
        match c.lookup_step("abc", event) {
            LookupAction::FetchUnofficial(req) => {
                assert_eq!(req.url, "https://api.chzzk.naver.com/service/v1/channels/abc");
                assert!(req.headers.is_empty());
            }
            _ => panic!("expected a fallback"),
        }
    }
}

#[test]
fn unofficial_reply_ends_lookup() {
    let c = client("", "");
    match c.lookup_step("abc", LookupEvent::UnofficialReply(Ok(info("abc", "Name", true)))) {
        LookupAction::Done(Ok(i)) => {
            assert_eq!(i.channel_name, "Name");
            assert!(i.open_live);
        }
        _ => panic!("expected the result"),
    }
    match c.lookup_step("abc", LookupEvent::UnofficialReply(Err(ApiError::EmptyContent))) {
        LookupAction::Done(Err(ApiError::EmptyContent)) => {}
        _ => panic!("expected the error"),
    }
}

#[test]
fn live_check_asks_unofficial_channel_info() {
    let c = client("cid", "csecret");
    match c.live_check_step("abc", LiveCheckEvent::Start) {
        LiveCheckAction::FetchChannel(req) => {
            assert_eq!(req.url, "https://api.chzzk.naver.com/service/v1/channels/abc");
            assert!(req.headers.is_empty());
        }
        _ => panic!("expected the channel request"),
    }
}

#[test]
fn live_check_of_offline_channel_skips_detail() {
    let c = client("", "");
    match c.live_check_step("abc", LiveCheckEvent::ChannelReply(Ok(info("abc", "Name", false)))) {
        LiveCheckAction::Done(Ok(s)) => {
            assert!(!s.is_live);
            assert_eq!(s.channel_name, "Name");
            assert!(s.live_title.is_none() && s.category.is_none() && s.viewer_count.is_none());
        }
        _ => panic!("expected an offline status"),
    }
}

#[test]
fn live_check_error_is_passed_on() {
    let c = client("", "");
    let a = c.live_check_step("abc", LiveCheckEvent::ChannelReply(Err(ApiError::Decode("x".into()))));
    assert!(matches!(a, LiveCheckAction::Done(Err(ApiError::Decode(_)))));
}

fn pending_for_live() -> LiveStatus {
    let c = client("", "");
    match c.live_check_step("abc", LiveCheckEvent::ChannelReply(Ok(info("abc", "Name", true)))) {
        LiveCheckAction::FetchDetail { request, pending } => {
            assert_eq!(request.url, "https://api.chzzk.naver.com/service/v3/channels/abc/live-detail");
            assert!(request.headers.is_empty());
            assert!(pending.is_live);
            assert_eq!(pending.channel_name, "Name");
            pending
        }
        _ => panic!("expected a detail request"),
    }
}

#[test]
fn live_detail_fills_title_category_and_viewers() {
    let c = client("", "");
    let detail = LiveDetail {
        live_title: Some("Playing".into()),
        concurrent_user_count: 1234,
        live_category: Some("GAME".into()),
        live_category_value: Some("Minecraft".into()),
    };
    match c.live_check_step("abc", LiveCheckEvent::DetailReply { pending: pending_for_live(), reply: Ok(detail) }) {
        LiveCheckAction::Done(Ok(s)) => {
            assert!(s.is_live);
            assert_eq!(s.live_title.as_deref(), Some("Playing"));
            assert_eq!(s.category.as_deref(), Some("Minecraft"));
            assert_eq!(s.viewer_count, Some(1234));
        }
        _ => panic!("expected a live status"),
    }
}

#[test]
fn live_detail_category_falls_back_to_category() {
    let c = client("", "");
    let detail = LiveDetail {
        live_title: None,
        concurrent_user_count: 0,
        live_category: Some("GAME".into()),
        live_category_value: None,
    };
    match c.live_check_step("abc", LiveCheckEvent::DetailReply { pending: pending_for_live(), reply: Ok(detail) }) {
        LiveCheckAction::Done(Ok(s)) => {
            assert_eq!(s.category.as_deref(), Some("GAME"));
            assert_eq!(s.viewer_count, Some(0));
            assert!(s.live_title.is_none());
        }
        _ => panic!("expected a live status"),
    }
}

#[test]
fn live_detail_failure_keeps_channel_status() {
    let c = client("", "");
    let a = c.live_check_step(
        "abc",
        LiveCheckEvent::DetailReply { pending: pending_for_live(), reply: Err(ApiError::EmptyContent) },
    );
    match a {
        LiveCheckAction::Done(Ok(s)) => {
            assert!(s.is_live);
            assert!(s.viewer_count.is_none());
            assert!(s.category.is_none());
        }
        _ => panic!("expected the partial status"),
    }
}

#[test]
fn added_channel_name_prefers_the_given_one() {
    assert_eq!(display_name(Some("Mine".into()), info("a", "From API", false)), "Mine");
    assert_eq!(display_name(None, info("a", "From API", false)), "From API");
}
