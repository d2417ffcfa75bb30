//! The local server for overlays: requests on its websocket, the replies it
//! frames, colour edits, and the records streamed to overlays.
use vstd::prelude::*;
use vstd::string::*;
use std::sync::Arc;
use crate::client::{ConnectionState, copy_frames};
use crate::config::{Color, DDStatsRustConfig, Style, Styles};
use crate::mem::{StatsBlockWithFrames, StatsDataBlock, StatsFrame};
use crate::text::{
    dec_int, has_prefix, parse_decimal, parse_decimal_str, push_dec_i64, push_str, second_field,
    second_field_of, starts_with, text_eq,
};

verus! {

/// A message broadcast to every websocket client: `{"type": .., "data": ..}`.
#[derive(Clone, Debug)]
pub struct WsBroadcast {
    pub _type: String,
    pub data: String,
}

/// The local overlay server (its sockets live with the caller).
pub struct WebsocketServer;

/// The first event of the mini-block stream.
pub const SSE_HELLO: &'static str = "{\"type\":\"hello\"}";

/// The event of an empty mini-block stream.
pub const SSE_EMPTY: &'static str = "{\"type\":\"empty\"}";

/// The reply to a colour edit.
pub const COLOR_SET_OK_REPLY: &'static str = "{\"type\": \"color_set_ok\", \"data\": null }";

/// The pattern of a colour edit: a part of the interface, then background
/// and foreground, each as a kind and three numbers.
pub const COLOR_SET_PATTERN: &'static str =
    "clr-set\\s(\\w*)\\s(\\w*)\\s(\\d*)\\s(\\d*)\\s(\\d*)\\s(\\w*)\\s(\\d*)\\s(\\d*)\\s(\\d*)";

/// How long after a run starts the stream still carries its full record
/// (milliseconds).
pub const FRESH_RUN_MS: u128 = 20000;

/// A request that a websocket client can make.
#[derive(Clone, Debug)]
pub enum WsRequest {
    /// `gimme`: the full current record.
    Gimme,
    /// `config`: the configuration.
    Config,
    /// `ddcl_replay <id>`: load a leaderboard replay; `None` when the id is
    /// missing or is not an `i32` (the handler gives up on the connection).
    DdclReplay(Option<i32>),
    /// `replay_link <url>`: load a replay from a link; `None` when the
    /// message holds no space (the handler gives up on the connection).
    ReplayLink(Option<String>),
    /// `clr-set ...`: edit colours.
    ColorSet,
    /// `get-style`: the styles being edited.
    GetStyle,
    /// Anything else: no reply.
    Other,
}

/// The leaderboard replay id of a `ddcl_replay` request.
pub open spec fn ddcl_replay_id(m: Seq<char>) -> Option<i32> {
    match second_field(m) {
        Some(w) => match parse_decimal(w, true, i32::MIN as int, i32::MAX as int) {
            Some(v) => Some(v as i32),
            None => None,
        },
        None => None,
    }
}

/// What kind of request a message is.
pub open spec fn request_kind(m: Seq<char>) -> int {
    if m == "gimme"@ { 0 }
    else if m == "config"@ { 1 }
    else if has_prefix(m, "ddcl_replay"@) { 2 }
    else if has_prefix(m, "replay_link"@) { 3 }
    else if has_prefix(m, "clr-set"@) { 4 }
    else if has_prefix(m, "get-style"@) { 5 }
    else { 6 }
}

/// Reads a websocket text message.
pub fn parse_ws_request(msg: &str) -> (r: WsRequest)
    ensures
        r is Gimme <==> request_kind(msg@) == 0,
        r is Config <==> request_kind(msg@) == 1,
        r is DdclReplay <==> request_kind(msg@) == 2,
        r is ReplayLink <==> request_kind(msg@) == 3,
        r is ColorSet <==> request_kind(msg@) == 4,
        r is GetStyle <==> request_kind(msg@) == 5,
        r is Other <==> request_kind(msg@) == 6,
        r matches WsRequest::DdclReplay(id) ==> id == ddcl_replay_id(msg@),
        r matches WsRequest::ReplayLink(l) ==> match l {
            Some(t) => second_field(msg@) == Some(t@),
            None => second_field(msg@) is None,
        },
{
    if text_eq(msg, "gimme") {
        WsRequest::Gimme
    } else if text_eq(msg, "config") {
        WsRequest::Config
    } else if starts_with(msg, "ddcl_replay") {
        let id = match second_field_of(msg) {
            Some(w) => match parse_decimal_str(w, true, i32::MIN as i64, i32::MAX as i64) {
                Some(v) => Some(v as i32),
                None => None,
            },
            None => None,
        };
        WsRequest::DdclReplay(id)
    } else if starts_with(msg, "replay_link") {
        let link = match second_field_of(msg) {
            Some(w) => Some(String::from_str(w)),
            None => None,
        };
        WsRequest::ReplayLink(link)
    } else if starts_with(msg, "clr-set") {
        WsRequest::ColorSet
    } else if starts_with(msg, "get-style") {
        WsRequest::GetStyle
    } else {
        WsRequest::Other
    }
}

/// A reply that carries a JSON value: `{"type": "<kind>", "data": <data> }`.
pub fn ws_reply(kind: &str, data: &str) -> (s: String)
    ensures
        s@ == "{\"type\": \""@ + kind@ + "\", \"data\": "@ + data@ + " }"@,
{
    let mut s = String::from_str("{\"type\": \"");
    push_str(&mut s, kind);
    push_str(&mut s, "\", \"data\": ");
    push_str(&mut s, data);
    push_str(&mut s, " }");
    s
}

/// The reply to a leaderboard replay request.
pub fn ddcl_replay_ok_reply(id: i32) -> (s: String)
    ensures
        s@ == "{\"type\": \"ddcl_replay_ok\", \"data\": { \"replay_id\": "@ + dec_int(id as int)
            + " } }"@,
{
    let mut s = String::from_str("{\"type\": \"ddcl_replay_ok\", \"data\": { \"replay_id\": ");
    push_dec_i64(&mut s, id as i64);
    push_str(&mut s, " } }");
    s
}

/// The reply to a replay link request.
pub fn replay_link_ok_reply(link: &str) -> (s: String)
    ensures
        s@ == "{\"type\": \"replay_link_ok\", \"data\": { \"replay_link\": \""@ + link@
            + "\" } }"@,
{
    let mut s = String::from_str("{\"type\": \"replay_link_ok\", \"data\": { \"replay_link\": \"");
    push_str(&mut s, link);
    push_str(&mut s, "\" } }");
    s
}

/// Whether a replay request starts the game first: the poller is not
/// attached and the configuration asks for it.
pub fn should_open_game(conn: ConnectionState, cfg: &DDStatsRustConfig) -> (r: bool)
    ensures
        r == (conn == ConnectionState::NotConnected && cfg.open_game_on_replay_request),
{
    conn == ConnectionState::NotConnected && cfg.open_game_on_replay_request
}

/// A colour by name; every unknown name is white.
pub struct ColorProxy(pub Color);

/// The colour a name stands for.
pub open spec fn color_named(s: Seq<char>) -> Color {
    if s == "Reset"@ { Color::Reset }
    else if s == "Black"@ { Color::Black }
    else if s == "Red"@ { Color::Red }
    else if s == "Green"@ { Color::Green }
    else if s == "Yellow"@ { Color::Yellow }
    else if s == "Blue"@ { Color::Blue }
    else if s == "Magenta"@ { Color::Magenta }
    else if s == "Cyan"@ { Color::Cyan }
    else if s == "Gray"@ { Color::Gray }
    else if s == "DarkGray"@ { Color::DarkGray }
    else if s == "LightRed"@ { Color::LightRed }
    else if s == "LightGreen"@ { Color::LightGreen }
    else if s == "LightYellow"@ { Color::LightYellow }
    else if s == "LightBlue"@ { Color::LightBlue }
    else if s == "LightMagenta"@ { Color::LightMagenta }
    else if s == "LightCyan"@ { Color::LightCyan }
    else { Color::White }
}

impl ColorProxy {
    /// The colour named `input` (never fails).
    pub fn from_str(input: &str) -> (r: ColorProxy)
        ensures
            r.0 == color_named(input@),
    {
        let c = if text_eq(input, "Reset") { Color::Reset }
        else if text_eq(input, "Black") { Color::Black }
        else if text_eq(input, "Red") { Color::Red }
        else if text_eq(input, "Green") { Color::Green }
        else if text_eq(input, "Yellow") { Color::Yellow }
        else if text_eq(input, "Blue") { Color::Blue }
        else if text_eq(input, "Magenta") { Color::Magenta }
        else if text_eq(input, "Cyan") { Color::Cyan }
        else if text_eq(input, "Gray") { Color::Gray }
        else if text_eq(input, "DarkGray") { Color::DarkGray }
        else if text_eq(input, "LightRed") { Color::LightRed }
        else if text_eq(input, "LightGreen") { Color::LightGreen }
        else if text_eq(input, "LightYellow") { Color::LightYellow }
        else if text_eq(input, "LightBlue") { Color::LightBlue }
        else if text_eq(input, "LightMagenta") { Color::LightMagenta }
        else if text_eq(input, "LightCyan") { Color::LightCyan }
        else { Color::White };
        ColorProxy(c)
    }
}

/// A byte in decimal, as `u8::from_str_radix(s, 10)` reads it.
pub open spec fn byte_of(s: Seq<char>) -> Option<u8> {
    match parse_decimal(s, false, 0, 255) {
        Some(v) => Some(v as u8),
        None => None,
    }
}

/// The colour of an edit: `Rgb` with three bytes, `Indexed` with one (the
/// first number), or a colour by name. `None` where a needed number is not
/// a byte (the handler gives up on the connection).
pub open spec fn spec_color_from_match(kind: Seq<char>, red: Seq<char>, green: Seq<char>, blue: Seq<char>) -> Option<Color> {
    if kind == "Rgb"@ {
        match (byte_of(red), byte_of(green), byte_of(blue)) {
            (Some(r), Some(g), Some(b)) => Some(Color::Rgb(r, g, b)),
            _ => None,
        }
    } else if kind == "Indexed"@ {
        match byte_of(red) {
            Some(i) => Some(Color::Indexed(i)),
            None => None,
        }
    } else {
        Some(color_named(kind))
    }
}

fn parse_byte(s: &str) -> (r: Option<u8>)
    ensures
        r == byte_of(s@),
{
    match parse_decimal_str(s, false, 0, 255) {
        Some(v) => Some(v as u8),
        None => None,
    }
}

/// The colour of an edit.
pub fn color_from_match(kind: &str, red: &str, green: &str, blue: &str) -> (r: Option<Color>)
    ensures
        r == spec_color_from_match(kind@, red@, green@, blue@),
{
    if text_eq(kind, "Rgb") {
        let r = parse_byte(red);
        let g = parse_byte(green);
        let b = parse_byte(blue);
        match (r, g, b) {
            (Some(r), Some(g), Some(b)) => Some(Color::Rgb(r, g, b)),
            _ => None,
        }
    } else if text_eq(kind, "Indexed") {
        match parse_byte(red) {
            Some(i) => Some(Color::Indexed(i)),
            None => None,
        }
    } else {
        Some(ColorProxy::from_str(kind).0)
    }
}

/// The styles after one colour edit: the named part gets exactly the two
/// colours; an unknown part leaves the styles as they are.
pub open spec fn edited_styles(base: Styles, part: Seq<char>, s: Style) -> Styles {
    if part == "logo"@ { Styles { logo: s, ..base } }
    else if part == "logs"@ { Styles { logs: s, ..base } }
    else if part == "log_text"@ { Styles { log_text: s, ..base } }
    else if part == "most_recent_log"@ { Styles { most_recent_log: s, ..base } }
    else if part == "game_data"@ { Styles { game_data: s, ..base } }
    else if part == "split_name"@ { Styles { split_name: s, ..base } }
    else if part == "split_diff_pos"@ { Styles { split_diff_pos: s, ..base } }
    else if part == "split_diff_neg"@ { Styles { split_diff_neg: s, ..base } }
    else { base }
}

/// The styles after a colour edit given by its nine fields (part,
/// background kind and numbers, foreground kind and numbers); `None` where
/// a colour cannot be read.
pub open spec fn spec_color_set(base: Styles, g: Seq<Seq<char>>) -> Option<Styles> {
    match (spec_color_from_match(g[1], g[2], g[3], g[4]), spec_color_from_match(g[5], g[6], g[7], g[8])) {
        (Some(bg), Some(fg)) => Some(edited_styles(
            base,
            g[0],
            Style { fg: Some(fg), bg: Some(bg), add_modifier: 0, sub_modifier: 0 },
        )),
        _ => None,
    }
}

/// Applies one colour edit, given by its nine fields, to `base`.
pub fn color_set_styles(base: Styles, groups: &Vec<String>) -> (r: Option<Styles>)
    requires
        groups@.len() == 9,
    ensures
        r == spec_color_set(base, groups.deep_view()),
{
    let ghost g = groups.deep_view();
    assert(forall|i: int| 0 <= i < 9 ==> #[trigger] g[i] == groups@[i]@);
    let bg = color_from_match(groups[1].as_str(), groups[2].as_str(), groups[3].as_str(), groups[4].as_str());
    let fg = color_from_match(groups[5].as_str(), groups[6].as_str(), groups[7].as_str(), groups[8].as_str());
    match (bg, fg) {
        (Some(bg), Some(fg)) => {
            let s = Style::default().fg(fg).bg(bg);
            let part = groups[0].as_str();
            let styles = if text_eq(part, "logo") { Styles { logo: s, ..base } }
            else if text_eq(part, "logs") { Styles { logs: s, ..base } }
            else if text_eq(part, "log_text") { Styles { log_text: s, ..base } }
            else if text_eq(part, "most_recent_log") { Styles { most_recent_log: s, ..base } }
            else if text_eq(part, "game_data") { Styles { game_data: s, ..base } }
            else if text_eq(part, "split_name") { Styles { split_name: s, ..base } }
            else if text_eq(part, "split_diff_pos") { Styles { split_diff_pos: s, ..base } }
            else if text_eq(part, "split_diff_neg") { Styles { split_diff_neg: s, ..base } }
            else { base };
            Some(styles)
        },
        _ => None,
    }
}

/// The matches of the colour-edit pattern in a message, each as its nine
/// groups, in the order the regex crate finds them.
pub uninterp spec fn color_set_captures(msg: Seq<char>) -> Seq<Seq<Seq<char>>>;

/// Compiles `COLOR_SET_PATTERN` with `regex::Regex::new` and collects
/// `captures_iter(msg)`, each match as the text of groups 1 to 9. The
/// result is named, not stated; each match holds nine groups because the
/// body takes exactly those nine.
#[verifier::external_body]
fn color_set_matches(msg: &str) -> (r: Vec<Vec<String>>)
    ensures
        r.deep_view() == color_set_captures(msg@),
        forall|i: int| 0 <= i < r@.len() ==> #[trigger] r@[i]@.len() == 9,
{
    let re = regex::Regex::new(COLOR_SET_PATTERN).unwrap();
    let mut out = Vec::new();
    for cap in re.captures_iter(msg) {
        let mut groups = Vec::new();
        for i in 1..10 {
            groups.push(cap[i].to_string());
        }
        out.push(groups);
    }
    out
}

/// The styles after each colour edit in a message, each applied to `base`
/// on its own; `None` at an edit whose colours cannot be read (the handler
/// gives up on the connection there).
pub fn color_set_updates(base: Styles, msg: &str) -> (r: Vec<Option<Styles>>)
    ensures
        r@.len() == color_set_captures(msg@).len(),
        forall|i: int| 0 <= i < r@.len() ==> r@[i] == spec_color_set(base, #[trigger] color_set_captures(msg@)[i]),
{
    let caps = color_set_matches(msg);
    let mut out: Vec<Option<Styles>> = Vec::new();
    let mut i: usize = 0;
    while i < caps.len()
        invariant
            i <= caps@.len(),
            caps.deep_view() == color_set_captures(msg@),
            forall|k: int| 0 <= k < caps@.len() ==> #[trigger] caps@[k]@.len() == 9,
            out@.len() == i,
            forall|k: int| 0 <= k < i ==> out@[k] == spec_color_set(base, #[trigger] color_set_captures(msg@)[k]),
        decreases caps@.len() - i,
    {
        assert(caps.deep_view()[i as int] == caps@[i as int].deep_view());
        let s = color_set_styles(base, &caps[i]);
        out.push(s);
        i = i + 1;
    }
    out
}

/// Whether the poller is attached, reported beside a full record.
#[derive(Clone, Copy, Debug)]
pub struct AdditionalInfo {
    pub frame_count: usize,
    pub connection_state: Option<ConnectionState>,
}

/// A full record with its frame count.
#[derive(Clone, Debug)]
pub struct StatsDto {
    pub block: StatsDataBlock,
    pub frames: Vec<StatsFrame>,
    pub additional_info: AdditionalInfo,
}

impl StatsDto {
    /// The record of `data`, its frame count, and no connection state.
    pub fn from_sbwf(data: Arc<StatsBlockWithFrames>) -> (r: Self)
        ensures
            r.block == data.block,
            r.frames@ == data.frames@,
            r.additional_info.frame_count == data.frames@.len(),
            r.additional_info.connection_state is None,
    {
        let s = data.frames.len();
        StatsDto {
            block: data.block,
            frames: copy_frames(&data.frames),
            additional_info: AdditionalInfo { frame_count: s, connection_state: None },
        }
    }
}

/// A full record tagged with its type.
#[derive(Clone, Debug)]
pub struct FullDto {
    pub _type: String,
    pub data: StatsBlockWithFrames,
}

/// The figures streamed many times a second (`time` is an `f32` bit
/// pattern).
#[derive(Clone, Copy, Debug)]
pub struct MiniBlock {
    pub time: u32,
    pub daggers_fired: i32,
    pub daggers_hit: i32,
    pub enemies_alive: i32,
    pub gems_collected: i32,
    pub gems_despawned: i32,
    pub gems_eaten: i32,
    pub gems_total: i32,
    pub homing: i32,
    pub kills: i32,
    pub status: i32,
    pub snowflake: u128,
}

/// Whether `m` holds the streamed figures of `b` and the snowflake `sf`.
pub open spec fn is_mini_block_of(m: MiniBlock, b: StatsDataBlock, sf: u128) -> bool {
    &&& m.time == b.time
    &&& m.daggers_fired == b.daggers_fired
    &&& m.daggers_hit == b.daggers_hit
    &&& m.enemies_alive == b.enemies_alive
    &&& m.gems_collected == b.gems_collected
    &&& m.gems_despawned == b.gems_despawned
    &&& m.gems_eaten == b.gems_eaten
    &&& m.gems_total == b.gems_total
    &&& m.homing == b.homing
    &&& m.kills == b.kills
    &&& m.status == b.status
    &&& m.snowflake == sf
}

impl MiniBlock {
    /// The streamed figures of the current record.
    pub fn from_stats(data: Arc<StatsBlockWithFrames>, snowflake: Arc<u128>) -> (r: Self)
        ensures
            is_mini_block_of(r, data.block, *snowflake),
    {
        let b = &data.block;
        MiniBlock {
            time: b.time,
            daggers_fired: b.daggers_fired,
            daggers_hit: b.daggers_hit,
            enemies_alive: b.enemies_alive,
            gems_collected: b.gems_collected,
            gems_despawned: b.gems_despawned,
            gems_eaten: b.gems_eaten,
            gems_total: b.gems_total,
            homing: b.homing,
            kills: b.kills,
            status: b.status,
            snowflake: *snowflake,
        }
    }
}

/// One streamed event: the figures, and the full record (with its first
/// frame only) once at the start of a run.
#[derive(Clone, Debug)]
pub struct MiniDto {
    pub _type: String,
    pub data: MiniBlock,
    pub extra: Option<StatsDto>,
}

/// Whether the stream carries the full record: the snowflake differs from
/// the last one streamed (compared as `u64`), and the run started less than
/// 20 seconds ago (the difference taken modulo 2^128, as unsigned
/// subtraction wraps).
pub open spec fn carries_record(last: u64, snowflake: u128, now_ms: u128) -> bool {
    last != snowflake as u64 && now_ms.wrapping_sub(snowflake) < FRESH_RUN_MS
}

/// The next streamed event and the snowflake to remember: the remembered
/// snowflake becomes this one whenever it differs; the record, if carried,
/// holds the block and only the first frame.
pub fn sse_miniblock(last: u64, mini: MiniBlock, data: &StatsBlockWithFrames, now_ms: u128) -> (r: (u64, MiniDto))
    ensures
        r.0 == mini.snowflake as u64,
        r.1._type@ == "miniblock"@,
        r.1.data == mini,
        r.1.extra is Some <==> carries_record(last, mini.snowflake, now_ms),
        r.1.extra matches Some(e) ==> e.block == data.block
            && e.frames@ == data.frames@.take(if data.frames@.len() > 0 { 1int } else { 0int })
            && e.additional_info.frame_count == e.frames@.len()
            && e.additional_info.connection_state is None,
{
    let sf = mini.snowflake as u64;
    let mut extra: Option<StatsDto> = None;
    if last != sf {
        let t = now_ms.wrapping_sub(mini.snowflake);
        if t < FRESH_RUN_MS {
            let mut frames: Vec<StatsFrame> = Vec::new();
            if data.frames.len() > 0 {
                frames.push(data.frames[0]);
            }
            proof {
                assert(frames@ =~= data.frames@.take(if data.frames@.len() > 0 { 1int } else { 0int }));
            }
            let n = frames.len();
            extra = Some(StatsDto {
                block: data.block,
                frames,
                additional_info: AdditionalInfo { frame_count: n, connection_state: None },
            });
        }
    }
    (sf, MiniDto { _type: String::from_str("miniblock"), data: mini, extra })
}


/// Applying the same colour edit twice gives what applying it once gives.
pub proof fn lemma_color_set_idempotent(base: Styles, g: Seq<Seq<char>>)
    requires
        spec_color_set(base, g) is Some,
    ensures
        spec_color_set(spec_color_set(base, g)->0, g) == spec_color_set(base, g),
{
}

/// The stream carries a run's full record at most once: after an event,
/// the remembered snowflake is the event's, so the next event of the same
/// run carries no record, whatever the time.
pub proof fn lemma_record_once(snowflake: u128, now_ms: u128)
    ensures
        !carries_record(snowflake as u64, snowflake, now_ms),
{
}

} // verus!
