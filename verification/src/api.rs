//! The CHZZK API as the library sees it: what a channel lookup and a live
//! check request, and how the replies are turned into a result.

use vstd::prelude::*;

verus! {

/// Basic channel info (the unofficial API also reports whether the channel
/// is live).
#[derive(Debug)]
pub struct ChannelInfo {
    pub channel_id: String,
    pub channel_name: String,
    pub channel_image_url: Option<String>,
    pub open_live: bool,
}

/// The name a channel is added under: the one the user gave, else the name
/// the API reports.
pub fn display_name(requested: Option<String>, info: ChannelInfo) -> (name: String)
    ensures
        name == (match requested {
            Some(r) => r,
            None => info.channel_name,
        }),
{
    match requested {
        Some(r) => r,
        None => info.channel_name,
    }
}

/// Channel info as the official API reports it.
pub struct OfficialChannelInfo {
    pub channel_id: String,
    pub channel_name: String,
    pub channel_image_url: Option<String>,
}

/// Details of a running live stream (unofficial API).
#[derive(Debug)]
pub struct LiveDetail {
    pub live_title: Option<String>,
    pub concurrent_user_count: i64,
    pub live_category: Option<String>,
    pub live_category_value: Option<String>,
}

/// Whether a channel is live, with what the live detail adds.
#[derive(Debug)]
pub struct LiveStatus {
    pub is_live: bool,
    pub channel_name: String,
    pub live_title: Option<String>,
    pub category: Option<String>,
    pub viewer_count: Option<i64>,
}

} // verus!

verus! {

/// Base URL of the official CHZZK Open API.
pub const OFFICIAL_BASE_URL: &'static str = "https://openapi.chzzk.naver.com";

/// Base URL of the unofficial CHZZK API.
pub const UNOFFICIAL_BASE_URL: &'static str = "https://api.chzzk.naver.com";

/// Why an API call gave no result.
pub enum ApiError {
    /// The HTTP request failed or its body could not be read.
    Request(String),
    /// The body is not a well-formed API response.
    Decode(String),
    /// The API answered with a code other than 200.
    Status { code: i32, message: String },
    /// The API answered 200 without content.
    EmptyContent,
    /// The official API listed no channel for the id.
    NoChannel,
}

/// The text describing an API error.
pub open spec fn error_text(e: ApiError) -> Seq<char> {
    match e {
        ApiError::Request(detail) => detail@,
        ApiError::Decode(detail) => detail@,
        ApiError::Status { code, message } => "API error ("@ + crate::text::decimal(code as int) + "): "@
            + message@,
        ApiError::EmptyContent => "Empty content in API response"@,
        ApiError::NoChannel => "No channel found in official API response"@,
    }
}

impl ApiError {
    /// The text describing this error.
    pub fn message(&self) -> (text: String)
        ensures
            text@ == error_text(*self),
    {
        match self {
            ApiError::Request(detail) => detail.clone(),
            ApiError::Decode(detail) => detail.clone(),
            ApiError::Status { code, message } => {
                let mut text = "API error (".to_owned();
                crate::text::push_decimal(&mut text, *code as i64);
                text.append("): ");
                text.append(message.as_str());
                text
            },
            ApiError::EmptyContent => "Empty content in API response".to_owned(),
            ApiError::NoChannel => "No channel found in official API response".to_owned(),
        }
    }
}

/// The envelope every CHZZK API reply comes in.
pub struct ApiResponse<T> {
    pub code: i32,
    pub message: Option<String>,
    pub content: Option<T>,
}

/// The official API wraps a channel list in `{ data: [...] }`.
pub struct PagedData<T> {
    pub data: Vec<T>,
}

/// The text of an optional message, empty when there is none.
pub open spec fn text_or_empty(message: Option<String>) -> Seq<char> {
    match message {
        Some(m) => m@,
        None => Seq::empty(),
    }
}

impl<T> ApiResponse<T> {
    /// The content of a successful reply: the code must be 200 and the
    /// content present.
    pub fn into_content(self) -> (r: Result<T, ApiError>)
        ensures
            self.code != 200 ==> (r matches Err(ApiError::Status { code, message }) && code
                == self.code && message@ == text_or_empty(self.message)),
            self.code == 200 ==> r == (match self.content {
                Some(c) => Ok(c),
                None => Err(ApiError::EmptyContent),
            }),
    {
        if self.code != 200 {
            let message = match self.message {
                Some(m) => m,
                None => String::new(),
            };
            return Err(ApiError::Status { code: self.code, message });
        }
        match self.content {
            Some(c) => Ok(c),
            None => Err(ApiError::EmptyContent),
        }
    }
}

/// A GET request to make: the URL and the extra headers.
pub struct ApiRequest {
    pub url: String,
    pub headers: Vec<(String, String)>,
}

/// The text of each header name and value.
pub open spec fn header_texts(headers: Seq<(String, String)>) -> Seq<(Seq<char>, Seq<char>)> {
    headers.map_values(|h: (String, String)| (h.0@, h.1@))
}

/// `GET /open/v1/channels?channelIds=<id>` on the official API.
pub open spec fn official_channel_url(channel_id: Seq<char>) -> Seq<char> {
    OFFICIAL_BASE_URL@ + "/open/v1/channels?channelIds="@ + channel_id
}

/// `GET /service/v1/channels/<id>` on the unofficial API.
pub open spec fn unofficial_channel_url(channel_id: Seq<char>) -> Seq<char> {
    UNOFFICIAL_BASE_URL@ + "/service/v1/channels/"@ + channel_id
}

/// `GET /service/v3/channels/<id>/live-detail` on the unofficial API.
pub open spec fn live_detail_url(channel_id: Seq<char>) -> Seq<char> {
    UNOFFICIAL_BASE_URL@ + "/service/v3/channels/"@ + channel_id + "/live-detail"@
}

/// A request to `url` without extra headers.
pub open spec fn is_plain_request(req: ApiRequest, url: Seq<char>) -> bool {
    req.url@ == url && req.headers@.len() == 0
}

/// What a check of a channel learns from its channel info alone.
pub open spec fn status_from_info(info: ChannelInfo) -> LiveStatus {
    LiveStatus {
        is_live: info.open_live,
        channel_name: info.channel_name,
        live_title: None,
        category: None,
        viewer_count: None,
    }
}

/// `status` completed with the live detail: its title, its category (the
/// category value when there is one, else the category) and its viewer count.
pub open spec fn status_with_detail(status: LiveStatus, detail: LiveDetail) -> LiveStatus {
    LiveStatus {
        live_title: detail.live_title,
        category: match detail.live_category_value {
            Some(v) => Some(v),
            None => detail.live_category,
        },
        viewer_count: Some(detail.concurrent_user_count),
        ..status
    }
}

/// Channel info built from the official API's first listed channel (which
/// does not say whether the channel is live).
pub open spec fn info_from_official(ch: OfficialChannelInfo) -> ChannelInfo {
    ChannelInfo {
        channel_id: ch.channel_id,
        channel_name: ch.channel_name,
        channel_image_url: ch.channel_image_url,
        open_live: false,
    }
}

/// What drives a channel lookup forward.
pub enum LookupEvent {
    /// The lookup begins.
    Start,
    /// The official API answered.
    OfficialReply(Result<PagedData<OfficialChannelInfo>, ApiError>),
    /// The unofficial API answered.
    UnofficialReply(Result<ChannelInfo, ApiError>),
}

/// What a channel lookup asks for next.
pub enum LookupAction {
    /// Fetch a `PagedData<OfficialChannelInfo>` with this request.
    FetchOfficial(ApiRequest),
    /// Fetch a `ChannelInfo` with this request.
    FetchUnofficial(ApiRequest),
    /// The lookup is over.
    Done(Result<ChannelInfo, ApiError>),
}

/// What drives a live check forward.
pub enum LiveCheckEvent {
    /// The check begins.
    Start,
    /// The unofficial channel info arrived.
    ChannelReply(Result<ChannelInfo, ApiError>),
    /// The live detail arrived for the check whose status so far is `pending`.
    DetailReply { pending: LiveStatus, reply: Result<LiveDetail, ApiError> },
}

/// What a live check asks for next.
pub enum LiveCheckAction {
    /// Fetch a `ChannelInfo` with this request.
    FetchChannel(ApiRequest),
    /// Fetch a `LiveDetail` with this request, then complete `pending`.
    FetchDetail { request: ApiRequest, pending: LiveStatus },
    /// The check is over.
    Done(Result<LiveStatus, ApiError>),
}

/// The decisions of the CHZZK client: which API to ask, with which
/// credentials, and what to make of the replies.
pub struct ChzzkClient {
    use_official: bool,
    client_id: String,
    client_secret: String,
}

fn plain_request(url: String) -> (req: ApiRequest)
    ensures
        req.url == url,
        req.headers@.len() == 0,
{
    ApiRequest { url, headers: Vec::new() }
}

impl ChzzkClient {
    /// Whether the official API is asked first.
    pub closed spec fn uses_official(&self) -> bool {
        self.use_official
    }

    /// The configured Client ID.
    pub closed spec fn id_credential(&self) -> Seq<char> {
        self.client_id@
    }

    /// The configured Client Secret.
    pub closed spec fn secret_credential(&self) -> Seq<char> {
        self.client_secret@
    }

    /// A request to the official API, authenticated with both credentials.
    pub open spec fn is_official_request(&self, req: ApiRequest, channel_id: Seq<char>) -> bool {
        &&& req.url@ == official_channel_url(channel_id)
        &&& header_texts(req.headers@) == seq![
            ("Client-Id"@, self.id_credential()),
            ("Client-Secret"@, self.secret_credential()),
        ]
    }

    /// A client for `config`: the official API is used only when both the
    /// Client ID and the Client Secret are set.
    pub fn new(config: &crate::config::ApiConfig) -> (c: Self)
        ensures
            c.uses_official() == (config.client_id@.len() > 0 && config.client_secret@.len() > 0),
            c.id_credential() == config.client_id@,
            c.secret_credential() == config.client_secret@,
    {
        let use_official = !config.client_id.as_str().is_empty()
            && !config.client_secret.as_str().is_empty();
        ChzzkClient {
            use_official,
            client_id: config.client_id.clone(),
            client_secret: config.client_secret.clone(),
        }
    }

    /// Whether the official API is asked first.
    pub fn use_official(&self) -> (b: bool)
        ensures
            b == self.uses_official(),
    {
        self.use_official
    }

    fn official_request(&self, channel_id: &str) -> (req: ApiRequest)
        ensures
            self.is_official_request(req, channel_id@),
    {
        let url = crate::text::concat3(OFFICIAL_BASE_URL, "/open/v1/channels?channelIds=", channel_id);
        let mut headers: Vec<(String, String)> = Vec::new();
        headers.push(("Client-Id".to_owned(), self.client_id.clone()));
        headers.push(("Client-Secret".to_owned(), self.client_secret.clone()));
        proof {
            assert(header_texts(headers@) =~= seq![
                ("Client-Id"@, self.id_credential()),
                ("Client-Secret"@, self.secret_credential()),
            ]);
        }
        ApiRequest { url, headers }
    }

    fn unofficial_channel_request(channel_id: &str) -> (req: ApiRequest)
        ensures
            is_plain_request(req, unofficial_channel_url(channel_id@)),
    {
        plain_request(crate::text::concat3(UNOFFICIAL_BASE_URL, "/service/v1/channels/", channel_id))
    }

    fn live_detail_request(channel_id: &str) -> (req: ApiRequest)
        ensures
            is_plain_request(req, live_detail_url(channel_id@)),
    {
        let mut url = crate::text::concat3(UNOFFICIAL_BASE_URL, "/service/v3/channels/", channel_id);
        url.append("/live-detail");
        plain_request(url)
    }

    /// One step of getting basic channel info: the official API first when
    /// it is configured, falling back to the unofficial API when it fails or
    /// lists no channel.
    pub fn lookup_step(&self, channel_id: &str, event: LookupEvent) -> (a: LookupAction)
        ensures
            match event {
                LookupEvent::Start => if self.uses_official() {
                    a matches LookupAction::FetchOfficial(req) && self.is_official_request(req, channel_id@)
                } else {
                    a matches LookupAction::FetchUnofficial(req) && is_plain_request(req, unofficial_channel_url(channel_id@))
                },
                LookupEvent::OfficialReply(reply) => match reply {
                    Ok(paged) if paged.data@.len() > 0 => a == LookupAction::Done(
                        Ok(info_from_official(paged.data@[0])),
                    ),
                    _ => a matches LookupAction::FetchUnofficial(req) && is_plain_request(req, unofficial_channel_url(channel_id@)),
                },
                LookupEvent::UnofficialReply(reply) => a == LookupAction::Done(reply),
            },
    {
        match event {
            LookupEvent::Start => {
                if self.use_official {
                    LookupAction::FetchOfficial(self.official_request(channel_id))
                } else {
                    LookupAction::FetchUnofficial(Self::unofficial_channel_request(channel_id))
                }
            },
            LookupEvent::OfficialReply(reply) => {
                match reply {
                    Ok(paged) => {
                        let mut data = paged.data;
                        if data.len() > 0 {
                            let ch = data.remove(0);
                            LookupAction::Done(
                                Ok(
                                    ChannelInfo {
                                        channel_id: ch.channel_id,
                                        channel_name: ch.channel_name,
                                        channel_image_url: ch.channel_image_url,
                                        open_live: false,
                                    },
                                ),
                            )
                        } else {
                            LookupAction::FetchUnofficial(Self::unofficial_channel_request(channel_id))
                        }
                    },
                    Err(_) => LookupAction::FetchUnofficial(Self::unofficial_channel_request(channel_id)),
                }
            },
            LookupEvent::UnofficialReply(reply) => LookupAction::Done(reply),
        }
    }

    /// One step of checking whether a channel is live. Always asks the
    /// unofficial API (only it reports `openLive`); the live detail is
    /// fetched only for a live channel, and a failure to get it leaves the
    /// title, category and viewer count unknown.
    pub fn live_check_step(&self, channel_id: &str, event: LiveCheckEvent) -> (a: LiveCheckAction)
        ensures
            match event {
                LiveCheckEvent::Start => a matches LiveCheckAction::FetchChannel(req) && is_plain_request(req, unofficial_channel_url(channel_id@)),
                LiveCheckEvent::ChannelReply(reply) => match reply {
                    Err(e) => a == LiveCheckAction::Done(Err(e)),
                    Ok(info) => if info.open_live {
                        a matches LiveCheckAction::FetchDetail { request, pending } && is_plain_request(request, live_detail_url(channel_id@))
                            && pending == status_from_info(info)
                    } else {
                        a == LiveCheckAction::Done(Ok(status_from_info(info)))
                    },
                },
                LiveCheckEvent::DetailReply { pending, reply } => match reply {
                    Ok(detail) => a == LiveCheckAction::Done(Ok(status_with_detail(pending, detail)))
                        && (a matches LiveCheckAction::Done(Ok(s)) && s.channel_name == pending.channel_name
                        && s.is_live == pending.is_live && s.live_title == detail.live_title
                        && s.viewer_count == Some(detail.concurrent_user_count)),
                    Err(_) => a == LiveCheckAction::Done(Ok(pending)),
                },
            },
    {
        match event {
            LiveCheckEvent::Start => LiveCheckAction::FetchChannel(Self::unofficial_channel_request(channel_id)),
            LiveCheckEvent::ChannelReply(reply) => match reply {
                Err(e) => LiveCheckAction::Done(Err(e)),
                Ok(info) => {
                    let open_live = info.open_live;
                    let status = LiveStatus {
                        is_live: info.open_live,
                        channel_name: info.channel_name,
                        live_title: None,
                        category: None,
                        viewer_count: None,
                    };
                    if open_live {
                        LiveCheckAction::FetchDetail {
                            request: Self::live_detail_request(channel_id),
                            pending: status,
                        }
                    } else {
                        LiveCheckAction::Done(Ok(status))
                    }
                },
            },
            LiveCheckEvent::DetailReply { pending, reply } => match reply {
                Ok(detail) => {
                    let category = match detail.live_category_value {
                        Some(v) => Some(v),
                        None => detail.live_category,
                    };
                    LiveCheckAction::Done(
                        Ok(
                            LiveStatus {
                                is_live: pending.is_live,
                                channel_name: pending.channel_name,
                                live_title: detail.live_title,
                                category,
                                viewer_count: Some(detail.concurrent_user_count),
                            },
                        ),
                    )
                },
                Err(_) => LiveCheckAction::Done(Ok(pending)),
            },
        }
    }
}

} // verus!

verus! {

/// Completing a check with the live detail keeps what the channel info said
/// (the channel's name and whether it is live) and takes the title, the
/// category (the category value when there is one, else the category) and
/// the viewer count from the detail.
pub proof fn detail_completes_status(pending: LiveStatus, detail: LiveDetail)
    ensures
        status_with_detail(pending, detail).channel_name == pending.channel_name,
        status_with_detail(pending, detail).is_live == pending.is_live,
        status_with_detail(pending, detail).live_title == detail.live_title,
        status_with_detail(pending, detail).viewer_count == Some(detail.concurrent_user_count),
        detail.live_category_value is Some ==> status_with_detail(pending, detail).category
            == detail.live_category_value,
        detail.live_category_value is None ==> status_with_detail(pending, detail).category
            == detail.live_category,
{
}

/// A live check reports the channel's name and live flag from the channel
/// info, whatever the live detail says.
pub proof fn live_check_keeps_channel_info(info: ChannelInfo, detail: LiveDetail)
    ensures
        status_with_detail(status_from_info(info), detail).channel_name == info.channel_name,
        status_with_detail(status_from_info(info), detail).is_live == info.open_live,
        status_from_info(info).channel_name == info.channel_name,
        status_from_info(info).is_live == info.open_live,
{
}

} // verus!
