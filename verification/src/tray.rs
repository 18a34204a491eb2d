//! What the system tray shows: the tooltip, the menu with live and offline
//! channels and their links, and the icon pixmap.

use vstd::prelude::*;

use crate::config::ChannelConfig;
use crate::state::AppState;
use crate::text::{concat2, concat3, decimal, push_decimal};

verus! {

/// A page on chzzk.naver.com: `https://chzzk.naver.com/<path>/<channel_id>`.
pub open spec fn chzzk_page(path: Seq<char>, channel_id: Seq<char>) -> Seq<char> {
    "https://chzzk.naver.com/"@ + path + "/"@ + channel_id
}

/// A page on chzzk.naver.com: `https://chzzk.naver.com/<path>/<channel_id>`.
pub fn chzzk_url(path: &str, channel_id: &str) -> (url: String)
    ensures
        url@ == chzzk_page(path@, channel_id@),
{
    let mut url = concat3("https://chzzk.naver.com/", path, "/");
    url.append(channel_id);
    url
}

/// The page of a channel: `https://chzzk.naver.com/<channel_id>`.
pub open spec fn channel_page(channel_id: Seq<char>) -> Seq<char> {
    "https://chzzk.naver.com/"@ + channel_id
}

/// The page of a channel: `https://chzzk.naver.com/<channel_id>`.
pub fn channel_page_url(channel_id: &str) -> (url: String)
    ensures
        url@ == channel_page(channel_id@),
{
    concat2("https://chzzk.naver.com/", channel_id)
}

/// An entry of a channel's submenu.
pub enum SubItem {
    /// Text that cannot be clicked.
    Label(String),
    /// An entry that opens `url` in the browser.
    Link { label: String, url: String },
    Separator,
}

/// An entry of the tray menu.
pub enum MenuItem {
    /// Text that cannot be clicked.
    Label(String),
    /// A channel's submenu.
    SubMenu { label: String, items: Vec<SubItem> },
    Separator,
    /// The entry that quits the tray.
    Quit(String),
}

/// A submenu entry as text.
pub enum SubItemView {
    Label(Seq<char>),
    Link(Seq<char>, Seq<char>),
    Separator,
}

/// A menu entry as text.
pub enum MenuItemView {
    Label(Seq<char>),
    SubMenu(Seq<char>, Seq<SubItemView>),
    Separator,
    Quit(Seq<char>),
}

impl View for SubItem {
    type V = SubItemView;

    open spec fn view(&self) -> SubItemView {
        match self {
            SubItem::Label(t) => SubItemView::Label(t@),
            SubItem::Link { label, url } => SubItemView::Link(label@, url@),
            SubItem::Separator => SubItemView::Separator,
        }
    }
}

/// The submenu entries as text.
pub open spec fn sub_views(items: Seq<SubItem>) -> Seq<SubItemView> {
    items.map_values(|i: SubItem| i@)
}

impl View for MenuItem {
    type V = MenuItemView;

    open spec fn view(&self) -> MenuItemView {
        match self {
            MenuItem::Label(t) => MenuItemView::Label(t@),
            MenuItem::SubMenu { label, items } => MenuItemView::SubMenu(label@, sub_views(items@)),
            MenuItem::Separator => MenuItemView::Separator,
            MenuItem::Quit(t) => MenuItemView::Quit(t@),
        }
    }
}

/// The menu entries as text.
pub open spec fn menu_views(items: Seq<MenuItem>) -> Seq<MenuItemView> {
    items.map_values(|i: MenuItem| i@)
}

/// Whether the recorded state of channel `id` says it is live.
pub open spec fn is_live_in(states: Map<Seq<char>, crate::state::ChannelState>, id: Seq<char>) -> bool {
    states.contains_key(id) && states[id].is_live
}

/// Holds of the channels that `states` records as live.
pub open spec fn live_filter(states: Map<Seq<char>, crate::state::ChannelState>) -> spec_fn(ChannelConfig) -> bool {
    |c: ChannelConfig| is_live_in(states, c.id@)
}

/// Holds of the channels that `states` does not record as live.
pub open spec fn offline_filter(states: Map<Seq<char>, crate::state::ChannelState>) -> spec_fn(ChannelConfig) -> bool {
    |c: ChannelConfig| !is_live_in(states, c.id@)
}

/// The submenu of a live channel: its title and viewer count when known, a
/// separator, then links to the live page and the channel page; labelled
/// with the name the last check reported (or the configured one).
pub open spec fn live_submenu(ch: ChannelConfig, states: Map<Seq<char>, crate::state::ChannelState>) -> MenuItemView {
    MenuItemView::SubMenu(
        "🔴 "@ + live_name(ch, states),
        live_title_items(ch, states) + live_viewer_items(ch, states) + seq![
            SubItemView::Separator,
            SubItemView::Link("🔗 라이브 보기"@, chzzk_page("live"@, ch.id@)),
            SubItemView::Link("🔗 채널 페이지 열기"@, channel_page(ch.id@)),
        ],
    )
}

/// The name a live channel is shown with: the one the last check reported,
/// else the configured one.
pub open spec fn live_name(ch: ChannelConfig, states: Map<Seq<char>, crate::state::ChannelState>) -> Seq<char> {
    if states.contains_key(ch.id@) {
        states[ch.id@].channel_name@
    } else {
        ch.name@
    }
}

/// The title line of a live channel's submenu, when the title is known.
pub open spec fn live_title_items(ch: ChannelConfig, states: Map<Seq<char>, crate::state::ChannelState>) -> Seq<SubItemView> {
    if states.contains_key(ch.id@) && states[ch.id@].live_title is Some {
        seq![SubItemView::Label("📺 "@ + states[ch.id@].live_title->0@)]
    } else {
        Seq::empty()
    }
}

/// The viewer line of a live channel's submenu, when the count is known.
pub open spec fn live_viewer_items(ch: ChannelConfig, states: Map<Seq<char>, crate::state::ChannelState>) -> Seq<SubItemView> {
    if states.contains_key(ch.id@) && states[ch.id@].viewer_count is Some {
        seq![SubItemView::Label("👤 시청자 "@ + decimal(states[ch.id@].viewer_count->0 as int) + "명"@)]
    } else {
        Seq::empty()
    }
}

/// The submenu of an offline channel: a link to its channel page, labelled
/// with the configured name.
pub open spec fn offline_submenu(ch: ChannelConfig) -> MenuItemView {
    MenuItemView::SubMenu(
        "⚫ "@ + ch.name@,
        seq![SubItemView::Link("🔗 채널 페이지 열기"@, channel_page(ch.id@))],
    )
}

/// A section header with the number of channels in it.
pub open spec fn header(prefix: Seq<char>, count: nat) -> Seq<char> {
    prefix + decimal(count as int) + ") ━━"@
}

/// The tray menu for the configured `channels` and the recorded `states`:
/// a hint when no channel is configured; otherwise the live channels under
/// a header with their count, then the offline channels under a header with
/// theirs (a section is left out when it is empty), each in configured
/// order; and at the end a separator and the quit entry.
pub open spec fn menu_of(channels: Seq<ChannelConfig>, states: Map<Seq<char>, crate::state::ChannelState>) -> Seq<MenuItemView> {
    let live = channels.filter(live_filter(states));
    let offline = channels.filter(offline_filter(states));
    let body: Seq<MenuItemView> = if channels.len() == 0 {
        seq![MenuItemView::Label("채널 없음 (kucheat add <id>)"@)]
    } else {
        (if live.len() > 0 {
            seq![MenuItemView::Label(header("━━ 라이브 ("@, live.len()))] + live.map_values(
                |c: ChannelConfig| live_submenu(c, states),
            )
        } else {
            Seq::empty()
        }) + (if offline.len() > 0 {
            seq![MenuItemView::Label(header("━━ 오프라인 ("@, offline.len()))] + offline.map_values(
                |c: ChannelConfig| offline_submenu(c),
            )
        } else {
            Seq::empty()
        })
    };
    body + seq![MenuItemView::Separator, MenuItemView::Quit("종료"@)]
}

fn push_count(s: &mut String, n: usize)
    ensures
        final(s)@ == old(s)@ + decimal(n as int),
{
    proof {
        assert(n <= u64::MAX);
    }
    push_decimal_unsigned(s, n as u64);
}

fn push_decimal_unsigned(s: &mut String, n: u64)
    ensures
        final(s)@ == old(s)@ + decimal(n as int),
{
    if n <= i64::MAX as u64 {
        push_decimal(s, n as i64);
    } else {
        crate::text::push_digits_u64(s, n);
    }
}

fn live_item(ch: &ChannelConfig, state: &AppState) -> (item: MenuItem)
    ensures
        item@ == live_submenu(*ch, state@),
{
    let cs = state.get(ch.id.as_str());
    let name = match cs {
        Some(s) => s.channel_name.as_str(),
        None => ch.name.as_str(),
    };
    let mut sub: Vec<SubItem> = Vec::new();
    let ghost states = state@;
    match cs {
        Some(s) => match &s.live_title {
            Some(t) => sub.push(SubItem::Label(concat2("📺 ", t.as_str()))),
            None => {},
        },
        None => {},
    }
    assert(sub_views(sub@) =~= live_title_items(*ch, states));
    let ghost after_title = sub@;
    match cs {
        Some(s) => match s.viewer_count {
            Some(count) => {
                let mut line = "👤 시청자 ".to_owned();
                push_decimal(&mut line, count);
                line.append("명");
                sub.push(SubItem::Label(line));
            },
            None => {},
        },
        None => {},
    }
    assert(sub_views(sub@) =~= live_title_items(*ch, states) + live_viewer_items(*ch, states)) by {
        assert(sub@.subrange(0, after_title.len() as int) =~= after_title);
    }
    sub.push(SubItem::Separator);
    sub.push(SubItem::Link { label: "🔗 라이브 보기".to_owned(), url: chzzk_url("live", ch.id.as_str()) });
    sub.push(
        SubItem::Link { label: "🔗 채널 페이지 열기".to_owned(), url: channel_page_url(ch.id.as_str()) },
    );
    let item = MenuItem::SubMenu { label: concat2("🔴 ", name), items: sub };
    assert(sub_views(sub@) =~= live_title_items(*ch, states) + live_viewer_items(*ch, states) + seq![
        SubItemView::Separator,
        SubItemView::Link("🔗 라이브 보기"@, chzzk_page("live"@, ch.id@)),
        SubItemView::Link("🔗 채널 페이지 열기"@, channel_page(ch.id@)),
    ]);
    item
}

fn offline_item(ch: &ChannelConfig) -> (item: MenuItem)
    ensures
        item@ == offline_submenu(*ch),
{
    let mut sub: Vec<SubItem> = Vec::new();
    sub.push(
        SubItem::Link { label: "🔗 채널 페이지 열기".to_owned(), url: channel_page_url(ch.id.as_str()) },
    );
    let item = MenuItem::SubMenu { label: concat2("⚫ ", ch.name.as_str()), items: sub };
    proof {
        assert(sub_views(sub@) =~= seq![SubItemView::Link("🔗 채널 페이지 열기"@, channel_page(ch.id@))]);
    }
    item
}

fn is_live(state: &AppState, id: &str) -> (b: bool)
    ensures
        b == is_live_in(state@, id@),
{
    match state.get(id) {
        Some(s) => s.is_live,
        None => false,
    }
}

/// The number of configured channels that `states` records as live.
pub open spec fn live_count_of(channels: Seq<ChannelConfig>, states: Map<Seq<char>, crate::state::ChannelState>) -> nat {
    channels.filter(live_filter(states)).len()
}

/// The tray menu for the configured `channels` and the recorded `state`.
pub fn build_menu(channels: &Vec<ChannelConfig>, state: &AppState) -> (menu: Vec<MenuItem>)
    ensures
        menu_views(menu@) == menu_of(channels@, state@),
{
    let ghost states = state@;
    let ghost lf = live_filter(states);
    let ghost of = offline_filter(states);
    let mut items: Vec<MenuItem> = Vec::new();
    if channels.len() == 0 {
        items.push(MenuItem::Label("채널 없음 (kucheat add <id>)".to_owned()));
    } else {
        let mut live_items: Vec<MenuItem> = Vec::new();
        let mut offline_items: Vec<MenuItem> = Vec::new();
        let n = channels.len();
        for i in 0..n
            invariant
                n == channels@.len(),
                states == state@,
                lf == live_filter(states),
                of == offline_filter(states),
                menu_views(live_items@) == channels@.take(i as int).filter(lf).map_values(
                    |c: ChannelConfig| live_submenu(c, states),
                ),
                menu_views(offline_items@) == channels@.take(i as int).filter(of).map_values(
                    |c: ChannelConfig| offline_submenu(c),
                ),
                live_items@.len() == channels@.take(i as int).filter(lf).len(),
                offline_items@.len() == channels@.take(i as int).filter(of).len(),
        {
            let ch = &channels[i];
            proof {
                broadcast use Seq::lemma_filter_push;
                assert(channels@.take(i + 1) =~= channels@.take(i as int).push(*ch));
            }
            let ghost old_live = live_items@;
            let ghost old_offline = offline_items@;
            if is_live(state, ch.id.as_str()) {
                live_items.push(live_item(ch, state));
                proof {
                    assert(menu_views(live_items@) =~= menu_views(old_live).push(live_submenu(*ch, states)));
                    assert(channels@.take(i as int).filter(lf).push(*ch).map_values(
                        |c: ChannelConfig| live_submenu(c, states),
                    ) =~= channels@.take(i as int).filter(lf).map_values(
                        |c: ChannelConfig| live_submenu(c, states),
                    ).push(live_submenu(*ch, states)));
                }
            } else {
                offline_items.push(offline_item(ch));
                proof {
                    assert(menu_views(offline_items@) =~= menu_views(old_offline).push(offline_submenu(*ch)));
                    assert(channels@.take(i as int).filter(of).push(*ch).map_values(
                        |c: ChannelConfig| offline_submenu(c),
                    ) =~= channels@.take(i as int).filter(of).map_values(
                        |c: ChannelConfig| offline_submenu(c),
                    ).push(offline_submenu(*ch)));
                }
            }
        }
        proof {
            assert(channels@.take(n as int) =~= channels@);
        }
        let ghost live_views = menu_views(live_items@);
        let ghost offline_views = menu_views(offline_items@);
        if live_items.len() > 0 {
            let mut h = "━━ 라이브 (".to_owned();
            push_count(&mut h, live_items.len());
            h.append(") ━━");
            items.push(MenuItem::Label(h));
            items.append(&mut live_items);
        }
        let ghost after_live = items@;
        if offline_items.len() > 0 {
            let mut h = "━━ 오프라인 (".to_owned();
            push_count(&mut h, offline_items.len());
            h.append(") ━━");
            items.push(MenuItem::Label(h));
            items.append(&mut offline_items);
        }
        proof {
            let live = channels@.filter(lf);
            let offline = channels@.filter(of);
            let live_part: Seq<MenuItemView> = if live.len() > 0 {
                seq![MenuItemView::Label(header("━━ 라이브 ("@, live.len()))] + live_views
            } else {
                Seq::empty()
            };
            assert(menu_views(after_live) =~= live_part);
            let offline_part: Seq<MenuItemView> = if offline.len() > 0 {
                seq![MenuItemView::Label(header("━━ 오프라인 ("@, offline.len()))] + offline_views
            } else {
                Seq::empty()
            };
            assert(menu_views(items@) =~= live_part + offline_part);
        }
    }
    let ghost body = menu_views(items@);
    items.push(MenuItem::Separator);
    items.push(MenuItem::Quit("종료".to_owned()));
    proof {
        assert(menu_views(items@) =~= body + seq![MenuItemView::Separator, MenuItemView::Quit("종료"@)]);
    }
    items
}

/// The tooltip text: how many configured channels are live, or that none is.
pub open spec fn tooltip_text(live_count: nat) -> Seq<char> {
    if live_count > 0 {
        decimal(live_count as int) + "개 채널 라이브 중"@
    } else {
        "라이브 없음"@
    }
}

/// The number of configured channels that `state` records as live.
pub fn live_count(channels: &Vec<ChannelConfig>, state: &AppState) -> (count: usize)
    ensures
        count == live_count_of(channels@, state@),
{
    let ghost lf = live_filter(state@);
    let mut count: usize = 0;
    let n = channels.len();
    for i in 0..n
        invariant
            n == channels@.len(),
            lf == live_filter(state@),
            count == channels@.take(i as int).filter(lf).len(),
            count <= i,
    {
        proof {
            broadcast use Seq::lemma_filter_push;
            assert(channels@.take(i + 1) =~= channels@.take(i as int).push(channels@[i as int]));
        }
        if is_live(state, channels[i].id.as_str()) {
            count = count + 1;
        }
    }
    proof {
        assert(channels@.take(n as int) =~= channels@);
    }
    count
}

/// The tooltip description for the configured `channels` and the recorded
/// `state`.
pub fn tooltip_description(channels: &Vec<ChannelConfig>, state: &AppState) -> (text: String)
    ensures
        text@ == tooltip_text(live_count_of(channels@, state@)),
{
    let count = live_count(channels, state);
    if count > 0 {
        let mut text = String::new();
        push_count(&mut text, count);
        text.append("개 채널 라이브 중");
        assert(text@ =~= decimal(count as int) + "개 채널 라이브 중"@);
        text
    } else {
        "라이브 없음".to_owned()
    }
}

/// What decoding `png` as a PNG image and converting it to 8-bit RGBA gives:
/// the width, the height and the pixel bytes (R, G, B, A per pixel, row by
/// row); nothing when `png` is not a valid PNG image.
pub uninterp spec fn png_as_rgba8(png: Seq<u8>) -> Option<(u32, u32, Seq<u8>)>;

/// Decodes a PNG image into 8-bit RGBA pixels.
///
/// Trusted: calls `image::load_from_memory_with_format` with
/// `ImageFormat::Png`, then `DynamicImage::into_rgba8`, `ImageBuffer::width`,
/// `ImageBuffer::height` and `ImageBuffer::into_raw`. The result is named by
/// `png_as_rgba8`; the one fact stated beside it is that the pixel buffer
/// holds at least 4 bytes per pixel (an `ImageBuffer` is only ever built over
/// a buffer that large).
#[verifier::external_body]
fn decode_png_rgba8(png: &[u8]) -> (r: Option<(u32, u32, Vec<u8>)>)
    ensures
        match r {
            Some((w, h, px)) => png_as_rgba8(png@) == Some((w, h, px@)) && px@.len() >= 4 * w * h,
            None => png_as_rgba8(png@) is None,
        },
{
    match image::load_from_memory_with_format(png, image::ImageFormat::Png) {
        Ok(img) => {
            let rgba = img.into_rgba8();
            Some((rgba.width(), rgba.height(), rgba.into_raw()))
        },
        Err(_) => None,
    }
}

/// The four bytes of pixel `p` of a buffer with four bytes per pixel.
pub open spec fn pixel(bytes: Seq<u8>, p: int) -> (u8, u8, u8, u8) {
    (bytes[4 * p], bytes[4 * p + 1], bytes[4 * p + 2], bytes[4 * p + 3])
}

/// `argb` holds the first `n` pixels of `rgba` with each pixel's bytes
/// reordered from R, G, B, A to A, R, G, B.
pub open spec fn is_argb_of(argb: Seq<u8>, rgba: Seq<u8>, n: nat) -> bool {
    &&& argb.len() == 4 * n
    &&& forall|p: int|
        0 <= p < n ==> #[trigger] pixel(argb, p) == (
            rgba[4 * p + 3],
            rgba[4 * p],
            rgba[4 * p + 1],
            rgba[4 * p + 2],
        )
}

/// A tray icon: its size and its pixels in ARGB byte order.
pub struct IconPixmap {
    pub width: i32,
    pub height: i32,
    pub data: Vec<u8>,
}

/// The first `width * height` pixels of `rgba`, each reordered from R, G, B, A
/// to A, R, G, B.
pub fn argb_from_rgba(width: u32, height: u32, rgba: &Vec<u8>) -> (argb: Vec<u8>)
    requires
        rgba@.len() >= 4 * width * height,
    ensures
        is_argb_of(argb@, rgba@, (width * height) as nat),
{
    let len = rgba.len();
    proof {
        assert(width * height <= 4 * width * height) by (nonlinear_arith);
        assert(4 * (width * height) == 4 * width * height) by (nonlinear_arith);
    }
    let n: usize = (width as usize) * (height as usize);
    let mut argb: Vec<u8> = Vec::new();
    for p in 0..n
        invariant
            n == width * height,
            len == rgba@.len(),
            4 * n <= len,
            argb@.len() == 4 * p,
            forall|q: int|
                0 <= q < p ==> #[trigger] pixel(argb@, q) == (
                    rgba@[4 * q + 3],
                    rgba@[4 * q],
                    rgba@[4 * q + 1],
                    rgba@[4 * q + 2],
                ),
    {
        let base = 4 * p;
        let ghost before = argb@;
        argb.push(rgba[base + 3]);
        argb.push(rgba[base]);
        argb.push(rgba[base + 1]);
        argb.push(rgba[base + 2]);
        proof {
            assert forall|q: int| 0 <= q < p + 1 implies #[trigger] pixel(argb@, q) == (
                rgba@[4 * q + 3],
                rgba@[4 * q],
                rgba@[4 * q + 1],
                rgba@[4 * q + 2],
            ) by {
                if q < p {
                    assert(pixel(before, q) == pixel(argb@, q));
                }
            }
        }
    }
    argb
}

/// The tray icon drawn from the PNG image `png`; nothing when `png` is not a
/// valid PNG image.
pub fn icon_pixmap(png: &[u8]) -> (icon: Option<IconPixmap>)
    ensures
        match png_as_rgba8(png@) {
            None => icon is None,
            Some((w, h, px)) => icon matches Some(i) && i.width == w as i32 && i.height == h as i32
                && is_argb_of(i.data@, px, (w * h) as nat),
        },
{
    match decode_png_rgba8(png) {
        Some((w, h, px)) => {
            let data = argb_from_rgba(w, h, &px);
            Some(IconPixmap { width: w as i32, height: h as i32, data })
        },
        None => None,
    }
}

} // verus!

verus! {

/// Every configured channel is listed exactly once in the menu: the live
/// and the offline sections together hold as many channels as are
/// configured.
pub proof fn every_channel_listed_once(channels: Seq<ChannelConfig>, states: Map<Seq<char>, crate::state::ChannelState>)
    ensures
        channels.filter(live_filter(states)).len() + channels.filter(offline_filter(states)).len()
            == channels.len(),
    decreases channels.len(),
{
    broadcast use Seq::lemma_filter_len_push;

    if channels.len() > 0 {
        let s = channels.drop_last();
        every_channel_listed_once(s, states);
        assert(s.push(channels.last()) =~= channels);
    }
}

} // verus!

verus! {

/// A configured channel is in the live section of the menu exactly when a
/// state is recorded for it and that state says it is live, and in the
/// offline section exactly otherwise; in particular a channel recorded as not
/// live is offline whenever it went live before.
pub proof fn sections_follow_recorded_live_flag(
    channels: Seq<ChannelConfig>,
    states: Map<Seq<char>, crate::state::ChannelState>,
    i: int,
)
    requires
        0 <= i < channels.len(),
    ensures
        channels.filter(live_filter(states)).contains(channels[i]) <==> (states.contains_key(
            channels[i].id@,
        ) && states[channels[i].id@].is_live),
        channels.filter(offline_filter(states)).contains(channels[i]) <==> !(states.contains_key(
            channels[i].id@,
        ) && states[channels[i].id@].is_live),
{
    broadcast use Seq::lemma_filter_contains, Seq::lemma_filter_contains_rev;

    let c = channels[i];
    let live = channels.filter(live_filter(states));
    let offline = channels.filter(offline_filter(states));
    if live.contains(c) {
        let k = choose|k: int| 0 <= k < live.len() && live[k] == c;
        channels.lemma_filter_pred(live_filter(states), k);
    }
    if offline.contains(c) {
        let k = choose|k: int| 0 <= k < offline.len() && offline[k] == c;
        channels.lemma_filter_pred(offline_filter(states), k);
    }
}

/// When some configured channel is recorded as live, the tooltip gives the
/// number of live channels followed by "개 채널 라이브 중", and that number is
/// at least one; "라이브 없음" is shown only when no configured channel is live.
pub proof fn tooltip_reports_live_channels(
    channels: Seq<ChannelConfig>,
    states: Map<Seq<char>, crate::state::ChannelState>,
    i: int,
)
    requires
        0 <= i < channels.len(),
        states.contains_key(channels[i].id@),
        states[channels[i].id@].is_live,
    ensures
        live_count_of(channels, states) >= 1,
        tooltip_text(live_count_of(channels, states)) == decimal(live_count_of(channels, states) as int)
            + "개 채널 라이브 중"@,
{
    sections_follow_recorded_live_flag(channels, states, i);
    let live = channels.filter(live_filter(states));
    assert(live.contains(channels[i]));
}

/// With no configured channel recorded as live, the tooltip says that no
/// channel is live.
pub proof fn tooltip_without_live_channels(
    channels: Seq<ChannelConfig>,
    states: Map<Seq<char>, crate::state::ChannelState>,
)
    requires
        forall|i: int|
            0 <= i < channels.len() ==> !(#[trigger] states.contains_key(channels[i].id@)
                && states[channels[i].id@].is_live),
    ensures
        live_count_of(channels, states) == 0,
        tooltip_text(live_count_of(channels, states)) == "라이브 없음"@,
{
    let live = channels.filter(live_filter(states));
    if live.len() > 0 {
        channels.lemma_filter_pred(live_filter(states), 0);
        assert(live.contains(live[0]));
        channels.lemma_filter_contains_rev(live_filter(states), live[0]);
        let j = choose|j: int| 0 <= j < channels.len() && channels[j] == live[0];
        assert(states.contains_key(channels[j].id@));
    }
}

} // verus!
