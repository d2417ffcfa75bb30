//! The live-stats connection: the messages sent to the live service and the
//! decisions taken on each tick of its loop.
use vstd::prelude::*;
use vstd::string::*;
use crate::client::{default_level_hash, is_non_default_spawnset};
use crate::config::DDStatsRustConfig;
use crate::mem::{GameStatus, StatsBlockWithFrames, hex_bytes, status_of};
use crate::text::{bool_text, dec_int, dec_nat, push_bool, push_dec_i64, push_dec_u128, push_str};

verus! {

/// The state of the live connection.
#[derive(Clone, Copy, Debug, PartialEq, Eq, Structural, PartialOrd)]
pub enum SioStatus {
    Disconnected,
    Connecting,
    Connected,
    LoggedIn,
    Timeout,
}

/// The live-stats client.
pub struct LiveGameClient {
    pub sio_status: SioStatus,
}

/// A submitted game to announce on the live service.
#[derive(Clone, Copy, Debug)]
pub struct SubmitSioEvent {
    pub game_id: u32,
}

/// `42["game_submitted",<id>,<notify_pb>,<notify_above_1000>]`
pub open spec fn sio_submit_text(game_id: u32, notify: (bool, bool)) -> Seq<char> {
    "42[\"game_submitted\","@ + dec_nat(game_id as nat) + ","@ + bool_text(notify.0) + ","@
        + bool_text(notify.1) + "]"@
}

/// The announcement of a submitted game, with the two notification flags.
pub fn create_sio_submit(ev: &SubmitSioEvent, notify: (bool, bool)) -> (s: String)
    ensures
        s@ == sio_submit_text(ev.game_id, notify),
{
    let mut s = String::from_str("42[\"game_submitted\",");
    push_dec_u128(&mut s, ev.game_id as u128);
    push_str(&mut s, ",");
    push_bool(&mut s, notify.0);
    push_str(&mut s, ",");
    push_bool(&mut s, notify.1);
    push_str(&mut s, "]");
    s
}

/// The report of what the player is doing: `42["status_update",<id>,<code>]`.
pub fn create_change_status_message(player_id: i32, status: i32) -> (s: String)
    ensures
        s@ == "42[\"status_update\","@ + dec_int(player_id as int) + ","@ + dec_int(status as int)
            + "]"@,
{
    let mut s = String::from_str("42[\"status_update\",");
    push_dec_i64(&mut s, player_id as i64);
    push_str(&mut s, ",");
    push_dec_i64(&mut s, status as i64);
    push_str(&mut s, "]");
    s
}

/// The login message: `42["login", <id>]` (with a space after the comma).
pub fn create_login_message(player_id: i32) -> (s: String)
    ensures
        s@ == "42[\"login\", "@ + dec_int(player_id as int) + "]"@,
{
    let mut s = String::from_str("42[\"login\", ");
    push_dec_i64(&mut s, player_id as i64);
    push_str(&mut s, "]");
    s
}

/// The live statistics message. The four times come already rendered with
/// four decimals, in the order time, level 2, level 3, level 4.
pub open spec fn submit_stats_text(
    data: StatsBlockWithFrames,
    death: i32,
    time: Seq<char>,
    lvl2: Seq<char>,
    lvl3: Seq<char>,
    lvl4: Seq<char>,
    cfg: DDStatsRustConfig,
) -> Seq<char> {
    let b = data.block;
    "42[\"submit\","@ + dec_int(b.player_id as int) + ","@ + time + ","@
        + dec_int(b.gems_total as int) + ","@ + dec_int(b.homing as int) + ","@
        + dec_int(b.enemies_alive as int) + ","@ + dec_int(b.kills as int) + ","@
        + dec_int(b.daggers_hit as int) + ","@ + dec_int(b.daggers_fired as int) + ","@
        + lvl2 + ","@ + lvl3 + ","@ + lvl4 + ","@ + bool_text(b.is_replay) + ","@
        + dec_int(death as int) + ","@ + bool_text(cfg.discord.notify_player_best) + ","@
        + bool_text(cfg.discord.notify_above_1000) + "]"@
}

/// The live statistics of the current run.
pub fn create_submit_stats_message(
    data: &StatsBlockWithFrames,
    death: i32,
    time: &str,
    lvl2: &str,
    lvl3: &str,
    lvl4: &str,
    cfg: &DDStatsRustConfig,
) -> (s: String)
    ensures
        s@ == submit_stats_text(*data, death, time@, lvl2@, lvl3@, lvl4@, *cfg),
{
    let b = &data.block;
    let mut s = String::from_str("42[\"submit\",");
    push_dec_i64(&mut s, b.player_id as i64);
    push_str(&mut s, ",");
    push_str(&mut s, time);
    push_str(&mut s, ",");
    push_dec_i64(&mut s, b.gems_total as i64);
    push_str(&mut s, ",");
    push_dec_i64(&mut s, b.homing as i64);
    push_str(&mut s, ",");
    push_dec_i64(&mut s, b.enemies_alive as i64);
    push_str(&mut s, ",");
    push_dec_i64(&mut s, b.kills as i64);
    push_str(&mut s, ",");
    push_dec_i64(&mut s, b.daggers_hit as i64);
    push_str(&mut s, ",");
    push_dec_i64(&mut s, b.daggers_fired as i64);
    push_str(&mut s, ",");
    push_str(&mut s, lvl2);
    push_str(&mut s, ",");
    push_str(&mut s, lvl3);
    push_str(&mut s, ",");
    push_str(&mut s, lvl4);
    push_str(&mut s, ",");
    push_bool(&mut s, b.is_replay);
    push_str(&mut s, ",");
    push_dec_i64(&mut s, death as i64);
    push_str(&mut s, ",");
    push_bool(&mut s, cfg.discord.notify_player_best);
    push_str(&mut s, ",");
    push_bool(&mut s, cfg.discord.notify_above_1000);
    push_str(&mut s, "]");
    s
}

/// Whether the current run is streamed: runs on other spawnsets only when
/// their submission is enabled; own runs when live stats are on, replays
/// when live replay stats are on.
pub open spec fn spec_should_submit_sio(data: StatsBlockWithFrames, cfg: DDStatsRustConfig) -> bool {
    let non_default = hex_bytes(data.block.survival_md5@, true) != default_level_hash();
    &&& !(non_default && !cfg.submit.non_default_spawnsets)
    &&& (cfg.stream.stats && !data.block.is_replay || cfg.stream.replay_stats && data.block.is_replay)
}

/// Whether the current run is streamed.
pub fn should_submit_sio(data: &StatsBlockWithFrames, cfg: &DDStatsRustConfig) -> (r: bool)
    ensures
        r == spec_should_submit_sio(*data, *cfg),
{
    let is_non_default = is_non_default_spawnset(&data.block.level_hash());
    if is_non_default && !cfg.submit.non_default_spawnsets {
        return false;
    }
    cfg.stream.stats && !data.block.is_replay || cfg.stream.replay_stats && data.block.is_replay
}

/// The notification flags of an announcement: the configured ones, both
/// off for a replay.
pub fn notify_flags(cfg: &DDStatsRustConfig, is_replay: bool) -> (r: (bool, bool))
    ensures
        r == (if is_replay { (false, false) } else {
            (cfg.discord.notify_player_best, cfg.discord.notify_above_1000)
        }),
{
    if is_replay {
        (false, false)
    } else {
        (cfg.discord.notify_player_best, cfg.discord.notify_above_1000)
    }
}

/// The death type streamed with live statistics: -1 while playing, the
/// game's death type once dead, -2 otherwise.
pub open spec fn spec_live_death_type(status: i32, death_type: u8) -> i32 {
    if status == 3 { -1i32 } else if status == 4 { death_type as i32 } else { -2i32 }
}

/// The death type streamed with live statistics.
pub fn live_death_type(status: i32, death_type: u8) -> (r: i32)
    ensures
        r == spec_live_death_type(status, death_type),
{
    if status == 3 {
        -1
    } else if status == 4 {
        death_type as i32
    } else {
        -2
    }
}

/// The live service's code for what the player is doing outside a run.
pub open spec fn spec_status_code(s: GameStatus) -> i32 {
    match s {
        GameStatus::Title | GameStatus::Menu => 4,
        GameStatus::Lobby => 5,
        GameStatus::Playing => 2,
        GameStatus::Dead => 6,
        _ => 3,
    }
}

/// The live service's code for a game status.
pub fn status_code(s: GameStatus) -> (r: i32)
    ensures
        r == spec_status_code(s),
{
    match s {
        GameStatus::Title | GameStatus::Menu => 4,
        GameStatus::Lobby => 5,
        GameStatus::Playing => 2,
        GameStatus::Dead => 6,
        _ => 3,
    }
}

/// A message the live loop sends on a tick.
#[derive(Clone, Copy, Debug, PartialEq, Eq, Structural)]
pub enum SioOutgoing {
    /// The announcement of a submitted game, with its notification flags.
    GameSubmitted(u32, bool, bool),
    /// The keep-alive ping (`2`).
    KeepAlive,
    /// The live statistics, with the streamed death type.
    Stats(i32),
    /// The status report, with player id and status code.
    StatusUpdate(i32, i32),
}

/// What the live loop does on a tick.
#[derive(Clone, Debug)]
pub enum SioStep {
    /// The poller is not attached to the game: drop the connection.
    Disconnect,
    /// Not logged in and the login cool-down is over: connect and log in.
    Login,
    /// Not logged in and still cooling down: nothing.
    Wait,
    /// Logged in: send these messages in order, dropping the connection at
    /// the first one that fails.
    Send(Vec<SioOutgoing>),
}

/// The messages of a logged-in tick: the pending announcement, the ping
/// when it is due, then the live statistics during a run or after death
/// (when the run is streamed), or else the status report (when live stats
/// are on).
pub open spec fn tick_messages(
    pending: Option<SubmitSioEvent>,
    ping_due: bool,
    data: StatsBlockWithFrames,
    cfg: DDStatsRustConfig,
) -> Seq<SioOutgoing> {
    let b = data.block;
    let flags = if b.is_replay { (false, false) } else {
        (cfg.discord.notify_player_best, cfg.discord.notify_above_1000)
    };
    let first = match pending {
        Some(ev) => seq![SioOutgoing::GameSubmitted(ev.game_id, flags.0, flags.1)],
        None => Seq::empty(),
    };
    let ping = if ping_due { seq![SioOutgoing::KeepAlive] } else { Seq::empty() };
    let last = if b.is_in_game || b.status == 4 {
        if spec_should_submit_sio(data, cfg) {
            seq![SioOutgoing::Stats(spec_live_death_type(b.status, b.death_type))]
        } else {
            Seq::empty()
        }
    } else if cfg.stream.stats {
        seq![SioOutgoing::StatusUpdate(b.player_id, spec_status_code(status_of(b.status as int)->0))]
    } else {
        Seq::empty()
    };
    first + ping + last
}

/// Whether a tick can be planned: outside a run the status number must
/// name a game status.
pub open spec fn tick_plannable(data: StatsBlockWithFrames) -> bool {
    data.block.is_in_game || data.block.status == 4 || status_of(data.block.status as int) is Some
}

/// Plans one tick of the live loop: `attached` says whether the poller is
/// connected to the game, `cooldown_over` whether two seconds have passed
/// since the last login attempt, `ping_due` whether 24 seconds have passed
/// since the last ping. `None` where the status number outside a run names
/// no game status.
pub fn plan_sio_tick(
    attached: bool,
    status: SioStatus,
    cooldown_over: bool,
    pending: Option<SubmitSioEvent>,
    ping_due: bool,
    data: &StatsBlockWithFrames,
    cfg: &DDStatsRustConfig,
) -> (r: Option<SioStep>)
    ensures
        !attached ==> r == Some(SioStep::Disconnect),
        attached && status != SioStatus::LoggedIn ==> r == Some(
            if cooldown_over { SioStep::Login } else { SioStep::Wait },
        ),
        attached && status == SioStatus::LoggedIn ==> (r is Some <==> tick_plannable(*data)),
        attached && status == SioStatus::LoggedIn && r is Some ==> (r->0 matches SioStep::Send(v)
            && v@ == tick_messages(pending, ping_due, *data, *cfg)),
{
    if !attached {
        return Some(SioStep::Disconnect);
    }
    if status != SioStatus::LoggedIn {
        return Some(if cooldown_over { SioStep::Login } else { SioStep::Wait });
    }
    let b = &data.block;
    let ghost expected = tick_messages(pending, ping_due, *data, *cfg);
    let mut out: Vec<SioOutgoing> = Vec::new();
    let flags = notify_flags(cfg, b.is_replay);
    match pending {
        Some(ev) => {
            out.push(SioOutgoing::GameSubmitted(ev.game_id, flags.0, flags.1));
        },
        None => {},
    }
    if ping_due {
        out.push(SioOutgoing::KeepAlive);
    }
    if b.is_in_game || b.status == 4 {
        if should_submit_sio(data, cfg) {
            out.push(SioOutgoing::Stats(live_death_type(b.status, b.death_type)));
        }
    } else {
        match GameStatus::from_i32(b.status) {
            Some(s) => {
                if cfg.stream.stats {
                    out.push(SioOutgoing::StatusUpdate(b.player_id, status_code(s)));
                }
            },
            None => {
                return None;
            },
        }
    }
    assert(out@ =~= expected);
    Some(SioStep::Send(out))
}

/// What the live loop does after one message of a logged-in tick: the
/// new connection state, whether the connection is kept, whether the rest
/// of the tick's messages are sent, whether the pending announcement is
/// dropped (it is once it was tried) and whether the ping clock restarts
/// (it does once a ping was tried).
#[derive(Clone, Copy, Debug, PartialEq, Eq, Structural)]
pub struct SendOutcome {
    pub status: SioStatus,
    pub keep_socket: bool,
    pub go_on: bool,
    pub clear_pending: bool,
    pub ping_sent: bool,
}

/// The outcome of sending `out` in state `status`; `sent` is whether the
/// socket took it. A failed send drops the connection, marks it
/// disconnected and skips the rest of the tick.
pub open spec fn spec_after_send(status: SioStatus, out: SioOutgoing, sent: bool) -> SendOutcome {
    SendOutcome {
        status: if sent { status } else { SioStatus::Disconnected },
        keep_socket: sent,
        go_on: sent,
        clear_pending: out is GameSubmitted,
        ping_sent: out is KeepAlive,
    }
}

/// The outcome of sending one message of a tick.
pub fn after_send(status: SioStatus, out: SioOutgoing, sent: bool) -> (r: SendOutcome)
    ensures
        r == spec_after_send(status, out, sent),
{
    SendOutcome {
        status: if sent { status } else { SioStatus::Disconnected },
        keep_socket: sent,
        go_on: sent,
        clear_pending: match out {
            SioOutgoing::GameSubmitted(..) => true,
            _ => false,
        },
        ping_sent: match out {
            SioOutgoing::KeepAlive => true,
            _ => false,
        },
    }
}

/// The connection state after a login attempt, and whether the new socket
/// replaces the old one: when the connection opened, the state is logged in
/// if the login message was taken and connected otherwise; when it did not
/// open, nothing changes.
pub fn after_login(status: SioStatus, connected: bool, login_sent: bool) -> (r: (SioStatus, bool))
    ensures
        r == (if !connected {
            (status, false)
        } else if login_sent {
            (SioStatus::LoggedIn, true)
        } else {
            (SioStatus::Connected, true)
        }),
{
    if !connected {
        (status, false)
    } else if login_sent {
        (SioStatus::LoggedIn, true)
    } else {
        (SioStatus::Connected, true)
    }
}

/// A logged-in tick that sends `msgs` in order, the socket taking them as
/// `results` says: the final state, whether the connection is kept, and
/// how many sends were tried.
pub open spec fn spec_send_run(status: SioStatus, msgs: Seq<SioOutgoing>, results: Seq<bool>)
    -> (SioStatus, bool, nat)
    decreases msgs.len(),
{
    if msgs.len() == 0 || results.len() == 0 {
        (status, true, 0)
    } else {
        let o = spec_after_send(status, msgs[0], results[0]);
        if !o.go_on {
            (o.status, o.keep_socket, 1)
        } else {
            let r = spec_send_run(o.status, msgs.drop_first(), results.drop_first());
            (r.0, r.1, r.2 + 1)
        }
    }
}

/// In a logged-in tick, the first send the socket refuses drops the
/// connection, marks it disconnected, and is the last send tried; when
/// every send is taken, the state and the connection stay and all are
/// sent.
pub proof fn lemma_send_run(status: SioStatus, msgs: Seq<SioOutgoing>, results: Seq<bool>, i: int)
    requires
        results.len() == msgs.len(),
    ensures
        0 <= i < msgs.len() && !results[i] && (forall|j: int| 0 <= j < i ==> results[j])
            ==> spec_send_run(status, msgs, results) == (SioStatus::Disconnected, false, (i + 1) as nat),
        (forall|j: int| 0 <= j < msgs.len() ==> results[j])
            ==> spec_send_run(status, msgs, results) == (status, true, msgs.len()),
    decreases msgs.len(),
{
    if msgs.len() > 0 {
        lemma_send_run(status, msgs.drop_first(), results.drop_first(), i - 1);
        if 0 <= i < msgs.len() && !results[i] && (forall|j: int| 0 <= j < i ==> results[j]) {
            if i > 0 {
                assert(results[0]);
                assert forall|j: int| 0 <= j < i - 1 implies results.drop_first()[j] by {
                    assert(results[j + 1]);
                }
            }
        }
        if forall|j: int| 0 <= j < msgs.len() ==> results[j] {
            assert(results[0]);
            assert forall|j: int| 0 <= j < msgs.len() - 1 implies results.drop_first()[j] by {
                assert(results[j + 1]);
            }
        }
    }
}

/// A run is streamed live only when live streaming allows its kind: a
/// replay only with live replay stats on, an own run only with live stats
/// on, and a run on another spawnset only with submission of such runs on.
pub proof fn lemma_stream_by_config(data: StatsBlockWithFrames, cfg: DDStatsRustConfig)
    ensures
        data.block.is_replay && !cfg.stream.replay_stats ==> !spec_should_submit_sio(data, cfg),
        !data.block.is_replay && !cfg.stream.stats ==> !spec_should_submit_sio(data, cfg),
        hex_bytes(data.block.survival_md5@, true) != default_level_hash() && !cfg.submit.non_default_spawnsets
            ==> !spec_should_submit_sio(data, cfg),
        hex_bytes(data.block.survival_md5@, true) == default_level_hash() && data.block.is_replay
            && cfg.stream.replay_stats ==> spec_should_submit_sio(data, cfg),
        hex_bytes(data.block.survival_md5@, true) == default_level_hash() && !data.block.is_replay
            && cfg.stream.stats ==> spec_should_submit_sio(data, cfg),
{
}

/// A logged-in tick streams no live statistics of a replay while live
/// replay stats are off, nor of an own run while live stats are off.
pub proof fn lemma_no_stats_when_off(
    pending: Option<SubmitSioEvent>,
    ping_due: bool,
    data: StatsBlockWithFrames,
    cfg: DDStatsRustConfig,
)
    requires
        data.block.is_replay && !cfg.stream.replay_stats || !data.block.is_replay && !cfg.stream.stats,
    ensures
        forall|i: int| 0 <= i < tick_messages(pending, ping_due, data, cfg).len()
            ==> !(#[trigger] tick_messages(pending, ping_due, data, cfg)[i] is Stats),
{
    let t = tick_messages(pending, ping_due, data, cfg);
    let b = data.block;
    let flags = if b.is_replay { (false, false) } else {
        (cfg.discord.notify_player_best, cfg.discord.notify_above_1000)
    };
    let first: Seq<SioOutgoing> = match pending {
        Some(ev) => seq![SioOutgoing::GameSubmitted(ev.game_id, flags.0, flags.1)],
        None => Seq::empty(),
    };
    let ping: Seq<SioOutgoing> = if ping_due { seq![SioOutgoing::KeepAlive] } else { Seq::empty() };
    let last: Seq<SioOutgoing> = if b.is_in_game || b.status == 4 {
        Seq::empty()
    } else if cfg.stream.stats {
        seq![SioOutgoing::StatusUpdate(b.player_id, spec_status_code(status_of(b.status as int)->0))]
    } else {
        Seq::empty()
    };
    assert(!spec_should_submit_sio(data, cfg));
    assert(t =~= first + ping + last);
    assert forall|i: int| 0 <= i < t.len() implies !(#[trigger] t[i] is Stats) by {
        if i < first.len() {
            assert(t[i] == first[i]);
        } else if i < first.len() + ping.len() {
            assert(t[i] == ping[i - first.len()]);
        } else {
            assert(t[i] == last[i - first.len() - ping.len()]);
        }
    }
}

/// What a logged-in tick sends, in order: the pending announcement first
/// (with both notifications off for a replay, else the configured ones),
/// then the ping when it is due, then the live statistics of a streamed run
/// in game or just ended (death type -1 while playing, the way of death
/// once dead) or, outside a run, the status report when live stats are on.
pub proof fn lemma_tick_order(
    pending: Option<SubmitSioEvent>,
    ping_due: bool,
    data: StatsBlockWithFrames,
    cfg: DDStatsRustConfig,
)
    ensures
        ({
            let t = tick_messages(pending, ping_due, data, cfg);
            let b = data.block;
            let k: int = if pending is Some { 1 } else { 0 };
            let j: int = if ping_due { k + 1 } else { k };
            &&& (pending matches Some(ev) ==> t[0] == SioOutgoing::GameSubmitted(
                ev.game_id,
                !b.is_replay && cfg.discord.notify_player_best,
                !b.is_replay && cfg.discord.notify_above_1000,
            ))
            &&& (ping_due ==> t[k] == SioOutgoing::KeepAlive)
            &&& ((b.is_in_game || b.status == 4) && spec_should_submit_sio(data, cfg) ==> t.len() == j + 1
                && t[j] == SioOutgoing::Stats(if b.status == 3 { -1i32 } else if b.status == 4 {
                    b.death_type as i32 } else { -2i32 }))
            &&& ((b.is_in_game || b.status == 4) && !spec_should_submit_sio(data, cfg) ==> t.len() == j)
            &&& (!(b.is_in_game || b.status == 4) && cfg.stream.stats ==> t.len() == j + 1
                && t[j] == SioOutgoing::StatusUpdate(b.player_id, spec_status_code(status_of(b.status as int)->0)))
            &&& (!(b.is_in_game || b.status == 4) && !cfg.stream.stats ==> t.len() == j)
        }),
{
}

} // verus!
