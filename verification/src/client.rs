//! The game poller: connection states, the run record sent for submission,
//! and the rules that decide when a run is new and when it is submitted.
use vstd::prelude::*;
use crate::grpc_models::{Run, Frames, SavedData, same_frame, min_counts, max_counts, avg_counts, avg_fits, run_divisor, block_avg_fits};
use crate::float_bits::{f32_lt, lt};
use crate::mem::{GameStatus, StatsBlockWithFrames, StatsFrame, status_of, padded_name, hex_bytes, hex_string};
use crate::text::{ascii_uppercase, upper_ascii, push_str};
use vstd::string::*;
use std::sync::Arc;
use crate::threads::Message;

verus! {

/// How far the poller has got with the game process.
#[derive(Clone, Copy, Debug, PartialEq, Eq, Structural)]
pub enum ConnectionState {
    NotConnected,
    Connecting,
    Connected,
}

impl ConnectionState {
    /// `NotConnected`.
    pub fn default() -> (s: Self)
        ensures
            s == ConnectionState::NotConnected,
    {
        ConnectionState::NotConnected
    }
}

/// A finished run as the poller compiles it for submission (times are
/// `f32` bit patterns).
#[derive(Clone, Debug)]
pub struct CompiledRun {
    pub version: String,
    pub player_id: i32,
    pub player_name: String,
    pub level_hash_md5: String,
    pub time_max: u32,
    pub time_lvl2: u32,
    pub time_lvl3: u32,
    pub time_lvl4: u32,
    pub time_levi_down: u32,
    pub time_orb_down: u32,
    pub enemies_alive_max: i32,
    pub enemies_alive_max_time: u32,
    pub homing_daggers_max: i32,
    pub homing_daggers_max_time: u32,
    pub death_type: i32,
    pub is_replay: bool,
    pub replay_player_id: i32,
    pub gems_collected: i32,
    pub enemies_killed: i32,
    pub enemies_alive: i32,
    pub level_gems: i32,
    pub homing_daggers: i32,
    pub gems_total: i32,
    pub gems_despawned: i32,
    pub gems_eaten: i32,
    pub daggers_eaten: i32,
    pub daggers_hit: i32,
    pub daggers_fired: i32,
    pub per_enemy_alive_count: [i16; 17],
    pub per_enemy_kill_count: [i16; 17],
    pub stats: Vec<crate::mem::StatsFrame>,
}

/// A run to submit, the snowflake of the session it belongs to, and the
/// replay bytes.
#[derive(Clone, Debug)]
pub struct SubmitGameEvent(pub CompiledRun, pub u128, pub Arc<Vec<u8>>);

/// Whether two frame lists hold the same values.
pub open spec fn same_frames(a: Frames, b: Frames) -> bool {
    &&& a.frames@.len() == b.frames@.len()
    &&& forall|i: int| 0 <= i < a.frames@.len() ==> same_frame(#[trigger] a.frames@[i], b.frames@[i])
}

/// How many of the oldest runs leave the history when it grows to `len`
/// runs and may hold `max`.
pub open spec fn runs_dropped(len: int, max: int) -> int {
    if len > max { len - max } else { 0 }
}

/// Whether a run of length `time_max` goes into the run history: it must
/// last longer than the configured threshold (both `f32` bit patterns).
pub fn should_record_run(time_max: u32, record_threshold: u32) -> (r: bool)
    ensures
        r == lt(record_threshold, time_max),
{
    f32_lt(record_threshold, time_max)
}

/// Adds a finished run to the history: counts it, appends it, drops the
/// oldest runs beyond `saved_games_max`, and updates the integer statistics
/// of the minimum, maximum and running average (the first run recorded in
/// an empty history is also the starting minimum and maximum).
pub fn record_finished_run(saved: &mut SavedData, run: Run, saved_games_max: u32)
    requires
        old(saved).recorded_runs < u32::MAX,
        saved_games_max >= 1,
        avg_fits(old(saved).avg.block, run.block, run_divisor((old(saved).recorded_runs + 1) as u32)),
    ensures
        final(saved).recorded_runs == old(saved).recorded_runs + 1,
        final(saved).recent_runs.runs@ == old(saved).recent_runs.runs@.push(run).skip(
            runs_dropped(old(saved).recent_runs.runs@.len() + 1int, saved_games_max as int)),
        min_counts(final(saved).min.block,
            if old(saved).recent_runs.runs@.len() == 0 { run.block } else { old(saved).min.block },
            old(saved).avg.block, run.block),
        max_counts(final(saved).max.block,
            if old(saved).recent_runs.runs@.len() == 0 { run.block } else { old(saved).max.block },
            old(saved).avg.block, run.block),
        same_frames(final(saved).min.frames,
            if old(saved).recent_runs.runs@.len() == 0 { run.frames } else { old(saved).min.frames }),
        same_frames(final(saved).max.frames,
            if old(saved).recent_runs.runs@.len() == 0 { run.frames } else { old(saved).max.frames }),
        avg_counts(final(saved).avg.block, old(saved).avg.block, old(saved).avg.block, run.block,
            run_divisor((old(saved).recorded_runs + 1) as u32)),
        final(saved).avg.frames == old(saved).avg.frames,
{
    let ghost old_runs = saved.recent_runs.runs@;
    saved.recorded_runs = saved.recorded_runs + 1;
    if saved.recent_runs.runs.len() == 0 {
        saved.min = run.copy();
        saved.max = run.copy();
    }
    let ghost base_min = saved.min;
    let ghost base_max = saved.max;
    saved.recent_runs.runs.push(run);
    let ghost all = saved.recent_runs.runs@;
    let limit = saved_games_max as usize;
    let ghost k: int = 0;
    while saved.recent_runs.runs.len() > limit
        invariant
            limit >= 1,
            all == old_runs.push(run),
            0 <= k <= all.len() - 1,
            saved.recent_runs.runs@ == all.skip(k),
            saved.min == base_min,
            saved.max == base_max,
            saved.avg == old(saved).avg,
            saved.recorded_runs == old(saved).recorded_runs + 1,
            k == 0 || all.len() - k >= limit,
            all.len() - k > limit ==> k < all.len() - limit,
        decreases saved.recent_runs.runs@.len(),
    {
        saved.recent_runs.runs.remove(0);
        proof {
            k = k + 1;
            assert(saved.recent_runs.runs@ =~= all.skip(k));
        }
    }
    proof {
        assert(k == runs_dropped(all.len() as int, saved_games_max as int));
        assert(saved.recent_runs.runs@.last() == run);
    }
    saved.update_min();
    saved.update_max();
    saved.update_avg();
}

/// Whether a run was just started: the game is playing, or a replay of
/// some kind has just begun.
pub open spec fn spec_new_run_started(status: GameStatus, old: GameStatus) -> bool {
    ||| status == GameStatus::Playing
    ||| (old != GameStatus::OtherReplay && status == GameStatus::OtherReplay)
    ||| (old != GameStatus::OwnReplayFromLeaderboard && status == GameStatus::OwnReplayFromLeaderboard)
    ||| (old != GameStatus::LocalReplay && status == GameStatus::LocalReplay)
}

/// Whether a run was just started (the submission flag is then cleared).
pub fn new_run_started(status: &GameStatus, old: &GameStatus) -> (r: bool)
    ensures
        r == spec_new_run_started(*status, *old),
{
    let status = *status;
    let old = *old;
    status == GameStatus::Playing
        || (old != GameStatus::OtherReplay && status == GameStatus::OtherReplay)
        || (old != GameStatus::OwnReplayFromLeaderboard && status == GameStatus::OwnReplayFromLeaderboard)
        || (old != GameStatus::LocalReplay && status == GameStatus::LocalReplay)
}

/// Whether the finished run on screen is submitted now: its statistics have
/// loaded, it was not submitted yet, and the player died or a replay (other
/// than the own last run) is shown.
pub open spec fn spec_should_submit(data: StatsBlockWithFrames, submitted: bool, status: GameStatus) -> bool {
    &&& data.block.stats_finished_loading
    &&& !submitted
    &&& (status == GameStatus::Dead || status == GameStatus::OtherReplay
        || status == GameStatus::OwnReplayFromLeaderboard || status == GameStatus::LocalReplay)
}

/// Whether the finished run on screen is submitted now.
pub fn should_submit(data: &StatsBlockWithFrames, submitted_data: bool, status: &GameStatus) -> (r: bool)
    ensures
        r == spec_should_submit(*data, submitted_data, *status),
{
    let status = *status;
    data.block.stats_finished_loading && !submitted_data && (status == GameStatus::Dead
        || status == GameStatus::OtherReplay || status == GameStatus::OwnReplayFromLeaderboard
        || status == GameStatus::LocalReplay)
}

/// Whether a new session snowflake starts: on entering a replay of either
/// kind, the own last run's replay, or the menu; or while playing, when the
/// clock went back or more time has passed than the run's length allows
/// (`run_span_ms` is the run time in seconds times 1100).
pub open spec fn spec_new_snowflake(
    old: GameStatus,
    status: GameStatus,
    current: u128,
    now: u128,
    run_span_ms: u128,
) -> bool {
    ||| (old != GameStatus::OtherReplay && status == GameStatus::OtherReplay)
    ||| (old != GameStatus::OwnReplayFromLeaderboard && status == GameStatus::OwnReplayFromLeaderboard)
    ||| (old != GameStatus::OwnReplayFromLastRun && status == GameStatus::OwnReplayFromLastRun)
    ||| (old != GameStatus::Menu && status == GameStatus::Menu)
    ||| (old == GameStatus::Playing && status == GameStatus::Playing
        && (current > now || now - current > run_span_ms))
}

/// The new session snowflake (the time `now` in milliseconds), or `None`
/// when the session goes on.
pub fn new_snowflake(
    old: GameStatus,
    status: GameStatus,
    current: u128,
    now: u128,
    run_span_ms: u128,
) -> (r: Option<u128>)
    ensures
        r matches Some(v) ==> v == now && spec_new_snowflake(old, status, current, now, run_span_ms),
        r is None ==> !spec_new_snowflake(old, status, current, now, run_span_ms),
{
    if old != GameStatus::OtherReplay && status == GameStatus::OtherReplay {
        return Some(now);
    }
    if old != GameStatus::OwnReplayFromLeaderboard && status == GameStatus::OwnReplayFromLeaderboard {
        return Some(now);
    }
    if old != GameStatus::OwnReplayFromLastRun && status == GameStatus::OwnReplayFromLastRun {
        return Some(now);
    }
    if old != GameStatus::Menu && status == GameStatus::Menu {
        return Some(now);
    }
    if old == GameStatus::Playing && status == GameStatus::Playing {
        if current > now {
            return Some(now);
        }
        if now - current > run_span_ms {
            return Some(now);
        }
    }
    None
}

/// The player submitted for and the player whose replay it is: in a
/// replay the two are swapped, otherwise there is no replay player.
pub open spec fn submit_ids(is_replay: bool, player_id: i32, replay_player_id: i32) -> (i32, i32) {
    if is_replay { (replay_player_id, player_id) } else { (player_id, 0) }
}

/// The frames, one by one.
pub(crate) fn copy_frames(frames: &Vec<StatsFrame>) -> (r: Vec<StatsFrame>)
    ensures
        r@ == frames@,
{
    let mut r: Vec<StatsFrame> = Vec::new();
    let mut i: usize = 0;
    while i < frames.len()
        invariant
            i <= frames@.len(),
            r@ == frames@.take(i as int),
        decreases frames@.len() - i,
    {
        r.push(frames[i]);
        i = i + 1;
        proof {
            assert(r@ =~= frames@.take(i as int));
        }
    }
    proof {
        assert(frames@.take(frames@.len() as int) =~= frames@);
    }
    r
}

/// Whether `c` compiles the run of `data` whose last frame is `last`.
pub open spec fn is_compiled_run(c: CompiledRun, data: StatsBlockWithFrames, last: StatsFrame) -> bool {
    let b = data.block;
    let ids = submit_ids(b.is_replay, b.player_id, b.replay_player_id);
    &&& c.version@ == crate::consts::VERSION@
    &&& c.player_id == ids.0
    &&& c.replay_player_id == ids.1
    &&& c.player_name@ == padded_name(b.username@)
    &&& c.level_hash_md5@ == hex_bytes(b.survival_md5@, true)
    &&& c.time_lvl2 == b.time_lvl2
    &&& c.time_lvl3 == b.time_lvl3
    &&& c.time_lvl4 == b.time_lvl4
    &&& c.time_levi_down == b.levi_down_time
    &&& c.time_orb_down == b.orb_down_time
    &&& c.enemies_alive_max == b.enemies_alive_max
    &&& c.enemies_alive_max_time == b.time_enemies_alive_max
    &&& c.homing_daggers_max == b.max_homing
    &&& c.homing_daggers_max_time == b.time_max_homing
    &&& c.death_type == b.death_type as i32
    &&& c.is_replay == b.is_replay
    &&& c.per_enemy_alive_count == last.per_enemy_alive_count
    &&& c.per_enemy_kill_count == last.per_enemy_kill_count
    &&& c.time_max == b.time_max
    &&& c.gems_collected == last.gems_collected
    &&& c.gems_total == last.gems_total
    &&& c.gems_despawned == last.gems_despawned
    &&& c.gems_eaten == last.gems_eaten
    &&& c.daggers_eaten == last.daggers_eaten
    &&& c.daggers_fired == last.daggers_fired
    &&& c.daggers_hit == last.daggers_hit
    &&& c.enemies_killed == last.kills
    &&& c.enemies_alive == last.enemies_alive
    &&& c.level_gems == last.level_gems
    &&& c.homing_daggers == last.homing
    &&& c.stats@ == data.frames@
}

/// The submission of a finished run: the compiled run, the session
/// snowflake and the replay.
pub fn create_submit_event(
    data: &StatsBlockWithFrames,
    last: &StatsFrame,
    snowflake: u128,
    replay: Arc<Vec<u8>>,
) -> (e: SubmitGameEvent)
    ensures
        is_compiled_run(e.0, *data, *last),
        e.1 == snowflake,
        e.2 == replay,
{
    let mut player_id = data.block.player_id;
    let replay_player_id;
    if data.block.is_replay {
        player_id = data.block.replay_player_id;
        replay_player_id = data.block.player_id;
    } else {
        replay_player_id = 0;
    }
    SubmitGameEvent(CompiledRun {
        version: String::from_str(crate::consts::VERSION),
        player_id,
        player_name: data.block.player_username(),
        level_hash_md5: data.block.level_hash(),
        time_lvl2: data.block.time_lvl2,
        time_lvl3: data.block.time_lvl3,
        time_lvl4: data.block.time_lvl4,
        time_levi_down: data.block.levi_down_time,
        time_orb_down: data.block.orb_down_time,
        enemies_alive_max: data.block.enemies_alive_max,
        enemies_alive_max_time: data.block.time_enemies_alive_max,
        homing_daggers_max: data.block.max_homing,
        homing_daggers_max_time: data.block.time_max_homing,
        death_type: data.block.death_type as i32,
        is_replay: data.block.is_replay,
        replay_player_id,
        per_enemy_alive_count: last.per_enemy_alive_count,
        per_enemy_kill_count: last.per_enemy_kill_count,
        time_max: data.block.time_max,
        gems_collected: last.gems_collected,
        gems_total: last.gems_total,
        gems_despawned: last.gems_despawned,
        gems_eaten: last.gems_eaten,
        daggers_eaten: last.daggers_eaten,
        daggers_fired: last.daggers_fired,
        daggers_hit: last.daggers_hit,
        enemies_killed: last.kills,
        enemies_alive: last.enemies_alive,
        level_gems: last.level_gems,
        homing_daggers: last.homing,
        stats: copy_frames(&data.frames),
    }, snowflake, replay)
}

/// The default spawnset's hash as the game reports hashes (upper case).
pub open spec fn default_level_hash() -> Seq<char> {
    crate::consts::V3_SURVIVAL_HASH@.map_values(|c: char| upper_ascii(c))
}

/// Whether `hash` names a spawnset other than the default one.
pub fn is_non_default_spawnset(hash: &String) -> (r: bool)
    ensures
        r == (hash@ != default_level_hash()),
{
    let default_hash = ascii_uppercase(crate::consts::V3_SURVIVAL_HASH);
    !(*hash == default_hash)
}

/// Everything the custom leaderboards need before they are asked whether
/// they know the spawnset: the run ended (dead, or a replay of the own
/// last run or from the leaderboard), the spawnset is not the default one,
/// the client holds the submission secrets, and the run is a survival run
/// or a finished time attack or race.
pub open spec fn spec_ddcl_prerequisites(data: StatsBlockWithFrames, secrets_present: bool) -> bool {
    &&& (data.block.status == 3 || data.block.status == 4 || data.block.status == 5)
    &&& hex_bytes(data.block.survival_md5@, true) != default_level_hash()
    &&& secrets_present
    &&& (data.block.game_mode == 0 || data.block.is_time_attack_or_race_finished)
}

/// Whether a run may go to the custom leaderboards, once they confirm that
/// they know its spawnset.
pub fn ddcl_prerequisites(data: &StatsBlockWithFrames, secrets_present: bool) -> (r: bool)
    ensures
        r == spec_ddcl_prerequisites(*data, secrets_present),
{
    let non_default = is_non_default_spawnset(&data.block.level_hash());
    (data.block.status == 3 || data.block.status == 4 || data.block.status == 5)
        && non_default && secrets_present
        && (data.block.game_mode == 0 || data.block.is_time_attack_or_race_finished)
}


/// How long the poller waits between attempts to attach (milliseconds).
pub const ATTACH_RETRY_MS: u64 = 5000;

/// How long attaching may take before the poller gives up (milliseconds).
pub const ATTACH_TIMEOUT_MS: u64 = 3000;

/// What the poller does on a tick, by connection state.
#[derive(Clone, Copy, Debug, PartialEq, Eq, Structural)]
pub enum PollerStep {
    /// Not attached, and the last attempt was less than five seconds ago.
    Wait,
    /// Not attached: try to attach now (the attempt time becomes now).
    Attach,
    /// Attaching: drop the connection first when attaching has taken more
    /// than three seconds, then check whether the game answers.
    CheckAttaching(bool),
    /// Attached: check the connection, then read the game.
    Poll,
}

/// The step of a tick, with the clock in milliseconds.
pub fn poller_step(state: ConnectionState, now_ms: u64, last_attempt_ms: u64, connecting_start_ms: u64) -> (r: PollerStep)
    ensures
        r == (match state {
            ConnectionState::NotConnected =>
                if crate::timing::elapsed(now_ms, last_attempt_ms) < ATTACH_RETRY_MS { PollerStep::Wait } else { PollerStep::Attach },
            ConnectionState::Connecting =>
                PollerStep::CheckAttaching(crate::timing::elapsed(now_ms, connecting_start_ms) > ATTACH_TIMEOUT_MS),
            ConnectionState::Connected => PollerStep::Poll,
        }),
{
    match state {
        ConnectionState::NotConnected => {
            let e = if now_ms >= last_attempt_ms { now_ms - last_attempt_ms } else { 0 };
            if e < ATTACH_RETRY_MS { PollerStep::Wait } else { PollerStep::Attach }
        },
        ConnectionState::Connecting => {
            let e = if now_ms >= connecting_start_ms { now_ms - connecting_start_ms } else { 0 };
            PollerStep::CheckAttaching(e > ATTACH_TIMEOUT_MS)
        },
        ConnectionState::Connected => PollerStep::Poll,
    }
}

/// The connection state after a step: `succeeded` is whether the attempt
/// to attach worked (for `Attach`) or whether the game answered (for
/// `CheckAttaching` and `Poll`). Every change is announced on the bus.
pub fn after_poller_step(state: ConnectionState, step: PollerStep, succeeded: bool) -> (r: ConnectionState)
    ensures
        r == (match step {
            PollerStep::Wait => state,
            PollerStep::Attach => if succeeded { ConnectionState::Connecting } else { state },
            PollerStep::CheckAttaching(timed_out) =>
                if succeeded { ConnectionState::Connected }
                else if timed_out { ConnectionState::NotConnected }
                else { state },
            PollerStep::Poll => if succeeded { state } else { ConnectionState::NotConnected },
        }),
{
    match step {
        PollerStep::Wait => state,
        PollerStep::Attach => if succeeded { ConnectionState::Connecting } else { state },
        PollerStep::CheckAttaching(timed_out) => {
            if succeeded {
                ConnectionState::Connected
            } else if timed_out {
                ConnectionState::NotConnected
            } else {
                state
            }
        },
        PollerStep::Poll => if succeeded { state } else { ConnectionState::NotConnected },
    }
}

/// The decisions of one read of the game while attached.
#[derive(Clone, Copy, Debug, PartialEq, Eq, Structural)]
pub struct PollPlan {
    /// A new session snowflake to announce.
    pub snowflake: Option<u128>,
    /// Load the pending replay request into the game (a pending request is
    /// dropped either way).
    pub play_replay: bool,
    /// The record has frames: the rest of the plan applies and the record
    /// is published.
    pub proceed: bool,
    /// The game status of the record.
    pub status: GameStatus,
    /// Whether the run counts as submitted after this read (a new run
    /// clears it; a submission, when it happens, sets it).
    pub submitted: bool,
    /// Read and upload the game's replay buffer.
    pub upload_replay: bool,
    /// Submit the finished run.
    pub submit: bool,
    /// Add the finished run to the history.
    pub record_run: bool,
}

/// The plan of one read of the game (see `plan_poll`).
pub open spec fn spec_plan_poll(
    data: StatsBlockWithFrames,
    last_status: GameStatus,
    snowflake: u128,
    now_ms: u128,
    run_span_ms: u128,
    replay_pending: bool,
    submitted: bool,
    upload_requested: bool,
    record_threshold: u32,
) -> Option<PollPlan> {
    match status_of(data.block.status as int) {
        None => None,
        Some(status) => {
            let proceed = data.frames@.len() > 0;
            let sub = submitted && !(proceed && spec_new_run_started(status, last_status));
            let submit = proceed && spec_should_submit(data, sub, status);
            Some(PollPlan {
                snowflake: if spec_new_snowflake(last_status, status, snowflake, now_ms, run_span_ms) {
                    Some(now_ms)
                } else {
                    None
                },
                play_replay: replay_pending && data.block.status != 3,
                proceed,
                status,
                submitted: sub,
                upload_replay: proceed && upload_requested,
                submit,
                record_run: submit && lt(record_threshold, data.block.time_max),
            })
        },
    }
}

/// Plans one read of the game: `last_status` is the status of the previous
/// read, `snowflake` the current session snowflake, `now_ms` the time,
/// `run_span_ms` the run time in seconds times 1100, and the flags say
/// whether a replay is waiting to be played, whether the run was
/// submitted, and whether a replay upload was asked for. `None` when the
/// status number names no game status.
pub fn plan_poll(
    data: &StatsBlockWithFrames,
    last_status: GameStatus,
    snowflake: u128,
    now_ms: u128,
    run_span_ms: u128,
    replay_pending: bool,
    submitted: bool,
    upload_requested: bool,
    record_threshold: u32,
) -> (r: Option<PollPlan>)
    ensures
        r is Some <==> status_of(data.block.status as int) is Some,
        r matches Some(p) ==> {
            let status = status_of(data.block.status as int)->0;
            let proceed = data.frames@.len() > 0;
            let sub = submitted && !(proceed && spec_new_run_started(status, last_status));
            &&& p.status == status
            &&& (p.snowflake is Some <==> spec_new_snowflake(last_status, status, snowflake, now_ms, run_span_ms))
            &&& (p.snowflake matches Some(v) ==> v == now_ms)
            &&& p.play_replay == (replay_pending && data.block.status != 3)
            &&& p.proceed == proceed
            &&& p.submitted == sub
            &&& p.upload_replay == (proceed && upload_requested)
            &&& p.submit == (proceed && spec_should_submit(*data, sub, status))
            &&& p.record_run == (p.submit && lt(record_threshold, data.block.time_max))
        },
        r == spec_plan_poll(*data, last_status, snowflake, now_ms, run_span_ms, replay_pending,
            submitted, upload_requested, record_threshold),
{
    let status = match GameStatus::from_i32(data.block.status) {
        Some(s) => s,
        None => {
            return None;
        },
    };
    let sf = new_snowflake(last_status, status, snowflake, now_ms, run_span_ms);
    let play_replay = replay_pending && data.block.status != 3;
    let proceed = data.frames.len() > 0;
    let sub = submitted && !(proceed && new_run_started(&status, &last_status));
    let upload_replay = proceed && upload_requested;
    let submit = proceed && should_submit(data, sub, &status);
    let record_run = submit && should_record_run(data.block.time_max, record_threshold);
    Some(PollPlan {
        snowflake: sf,
        play_replay,
        proceed,
        status,
        submitted: sub,
        upload_replay,
        submit,
        record_run,
    })
}


/// The MD5 digest of some bytes.
pub uninterp spec fn md5_of(data: Seq<u8>) -> Seq<u8>;

/// `md5::compute(data)`, its sixteen bytes: the digest is named, not
/// stated.
#[verifier::external_body]
pub(crate) fn md5_digest(data: &[u8]) -> (r: [u8; 16])
    ensures
        r@ == md5_of(data@),
{
    md5::compute(data).0
}

/// Where uploaded replays are shown.
pub const REPLAY_SITE: &'static str = "https://ddstats.live";

/// Where replays uploaded on request were shown.
pub const LEGACY_REPLAY_SITE: &'static str = "https://ddreplay.herokuapp.com";

/// The link of an uploaded replay: `<site>/replay/<md5 in lower-case hex>`.
pub fn replay_link(site: &str, replay: &[u8]) -> (s: String)
    ensures
        s@ == site@ + "/replay/"@ + hex_bytes(md5_of(replay@), false),
{
    let digest = md5_digest(replay);
    let hex = hex_string(&digest, false);
    let mut s = String::from_str(site);
    push_str(&mut s, "/replay/");
    push_str(&mut s, hex.as_str());
    s
}

/// The lower-case hexadecimal MD5 of some bytes (`{:x}` of the digest):
/// how replays and spawnset files are named.
pub fn md5_hex(data: &[u8]) -> (s: String)
    ensures
        s@ == hex_bytes(md5_of(data@), false),
{
    let digest = md5_digest(data);
    hex_string(&digest, false)
}

/// The log line after a replay upload.
pub fn upload_log(uploaded: bool) -> (s: &'static str)
    ensures
        s@ == (if uploaded { "Replay Uploaded"@ } else { "Replay Exists"@ }),
{
    if uploaded { "Replay Uploaded" } else { "Replay Exists" }
}

/// Which upload a replay came from.
#[derive(Clone, Copy, Debug, PartialEq, Eq, Structural)]
pub enum UploadKind {
    /// The game's replay buffer, read on request while attached.
    GameBuffer,
    /// Replay bytes handed over on the bus; `true` when asked for by hand.
    Handed(bool),
}

/// Where the link of an uploaded replay is put on the clipboard (`None`:
/// not at all): a buffer upload copies the link whatever the upload said,
/// a handed-over replay only when it was asked for by hand and uploaded.
pub fn clipboard_site(kind: UploadKind, uploaded: bool, auto_clipboard: bool) -> (r: Option<&'static str>)
    ensures
        match kind {
            UploadKind::GameBuffer => r == (if auto_clipboard { Some(REPLAY_SITE) } else { None::<&'static str> }),
            UploadKind::Handed(manual) => r == (if auto_clipboard && manual && uploaded { Some(LEGACY_REPLAY_SITE) } else { None::<&'static str> }),
        },
{
    match kind {
        UploadKind::GameBuffer => if auto_clipboard { Some(REPLAY_SITE) } else { None },
        UploadKind::Handed(manual) => if auto_clipboard && manual && uploaded { Some(LEGACY_REPLAY_SITE) } else { None },
    }
}


/// The run history after recording a run holds at most `saved_games_max`
/// runs, at least one, ends with the new run, and keeps the runs before it
/// in their order (the newest of them).
pub proof fn lemma_history_window(old_runs: Seq<Run>, run: Run, saved_games_max: u32)
    requires
        saved_games_max >= 1,
    ensures
        ({
            let all = old_runs.push(run);
            let kept = all.skip(runs_dropped(all.len() as int, saved_games_max as int));
            &&& kept.len() == (if all.len() > saved_games_max { saved_games_max as int } else { all.len() as int })
            &&& kept.len() >= 1
            &&& kept.last() == run
            &&& forall|i: int| 0 <= i < kept.len() ==> kept[i] == all[all.len() - kept.len() + i]
        }),
{
}

/// A submitted run is not submitted again until a new run starts: with the
/// submission flag set and no new run begun, the read submits nothing.
pub proof fn lemma_submitted_until_new_run(data: StatsBlockWithFrames, status: GameStatus, last_status: GameStatus)
    requires
        !spec_new_run_started(status, last_status),
    ensures
        !spec_should_submit(data, true && !(data.frames@.len() > 0 && spec_new_run_started(status, last_status)), status),
{
}


/// Whether a run can be recorded: the run counter has room, the history
/// keeps at least one run, and the running average stays within 32-bit
/// arithmetic (exactly what `record_finished_run` needs).
pub fn can_record_run(saved: &SavedData, run: &Run, saved_games_max: u32) -> (r: bool)
    ensures
        r == (saved.recorded_runs < u32::MAX && saved_games_max >= 1
            && avg_fits(saved.avg.block, run.block, run_divisor((saved.recorded_runs + 1) as u32))),
{
    if saved.recorded_runs == u32::MAX || saved_games_max == 0 {
        return false;
    }
    let d = saved.next_divisor();
    block_avg_fits(&saved.avg.block, &run.block, d)
}

/// What the poll task keeps of the requests it got over the bus: a replay
/// to play and whether the last run's replay is to be uploaded.
pub struct PollRequests {
    pub replay_request: Option<Arc<Vec<u8>>>,
    pub upload_replay_flag: bool,
}

impl PollRequests {
    /// No replay asked for, no upload asked for.
    pub fn new() -> (r: Self)
        ensures
            r.replay_request is None,
            !r.upload_replay_flag,
    {
        PollRequests { replay_request: None, upload_replay_flag: false }
    }
}

/// What the poll task does after a bus message.
pub enum PollBusAction {
    /// Nothing beyond the change of the requests.
    Nothing,
    /// Start the game.
    OpenGame,
    /// Read the replay file at this path (then hand it to
    /// `local_replay_loaded`).
    ReadLocalFile(String),
    /// Log that an upload starts and upload these replay bytes (asked for by
    /// hand when the flag is set).
    Upload(Arc<Vec<u8>>, bool),
}

/// Handles a bus message: a replay becomes the replay request (and starts
/// the game when the poller is not attached and the configuration asks for
/// it); a local replay file is to be read; an upload request sets the
/// upload flag; replay bytes handed over are uploaded; anything else
/// changes nothing.
pub fn poll_bus_step(req: &mut PollRequests, msg: Message, conn: ConnectionState, open_on_request: bool)
    -> (a: PollBusAction)
    ensures
        match msg {
            Message::Replay(d) => final(req).replay_request == Some(d)
                && final(req).upload_replay_flag == old(req).upload_replay_flag
                && a == (if conn == ConnectionState::NotConnected && open_on_request {
                    PollBusAction::OpenGame
                } else {
                    PollBusAction::Nothing
                }),
            Message::PlayReplayLocalFile(p) => *final(req) == *old(req) && a == PollBusAction::ReadLocalFile(p),
            Message::UploadReplayBuffer => final(req).replay_request == old(req).replay_request
                && final(req).upload_replay_flag && a == PollBusAction::Nothing,
            Message::UploadReplayData(d, manual) => *final(req) == *old(req)
                && a == PollBusAction::Upload(d, manual),
            _ => *final(req) == *old(req) && a == PollBusAction::Nothing,
        },
{
    match msg {
        Message::Replay(d) => {
            req.replay_request = Some(d);
            if conn == ConnectionState::NotConnected && open_on_request {
                PollBusAction::OpenGame
            } else {
                PollBusAction::Nothing
            }
        },
        Message::PlayReplayLocalFile(p) => PollBusAction::ReadLocalFile(p),
        Message::UploadReplayBuffer => {
            req.upload_replay_flag = true;
            PollBusAction::Nothing
        },
        Message::UploadReplayData(d, manual) => PollBusAction::Upload(d, manual),
        _ => PollBusAction::Nothing,
    }
}

/// After a local replay file was read: when it held a valid replay, its
/// bytes become the replay request and the game is started when the
/// poller is not attached and the configuration asks for it (`true`);
/// otherwise nothing changes.
pub fn local_replay_loaded(
    req: &mut PollRequests,
    loaded: Option<Arc<Vec<u8>>>,
    conn: ConnectionState,
    open_on_request: bool,
) -> (open_game: bool)
    ensures
        match loaded {
            Some(b) => final(req).replay_request == Some(b)
                && final(req).upload_replay_flag == old(req).upload_replay_flag
                && open_game == (conn == ConnectionState::NotConnected && open_on_request),
            None => *final(req) == *old(req) && !open_game,
        },
{
    match loaded {
        Some(b) => {
            req.replay_request = Some(b);
            conn == ConnectionState::NotConnected && open_on_request
        },
        None => false,
    }
}

/// A finished run is submitted once its statistics have loaded and it was
/// not submitted yet, when the game shows the end of a run: the player
/// died, or another player's replay, an own replay from the leaderboard or
/// a local replay is shown. On the title screen, the menu, the lobby,
/// while playing and in the replay of the own last run nothing is
/// submitted, and nothing is submitted twice or before its statistics
/// loaded.
pub proof fn lemma_submit_statuses(data: StatsBlockWithFrames, submitted: bool, status: GameStatus)
    ensures
        data.block.stats_finished_loading && !submitted && status == GameStatus::Dead
            ==> spec_should_submit(data, submitted, status),
        data.block.stats_finished_loading && !submitted && status == GameStatus::OtherReplay
            ==> spec_should_submit(data, submitted, status),
        data.block.stats_finished_loading && !submitted && status == GameStatus::OwnReplayFromLeaderboard
            ==> spec_should_submit(data, submitted, status),
        data.block.stats_finished_loading && !submitted && status == GameStatus::LocalReplay
            ==> spec_should_submit(data, submitted, status),
        status == GameStatus::Title || status == GameStatus::Menu || status == GameStatus::Lobby
            || status == GameStatus::Playing || status == GameStatus::OwnReplayFromLastRun
            ==> !spec_should_submit(data, submitted, status),
        submitted ==> !spec_should_submit(data, submitted, status),
        !data.block.stats_finished_loading ==> !spec_should_submit(data, submitted, status),
{
}

/// A read of a record with frames, whose statistics have loaded, that shows
/// another player's replay (status 7), and whose run was not submitted, is
/// planned for submission, whatever the previous status was.
pub proof fn lemma_other_replay_planned(
    data: StatsBlockWithFrames,
    last_status: GameStatus,
    snowflake: u128,
    now_ms: u128,
    run_span_ms: u128,
    replay_pending: bool,
    upload_requested: bool,
    record_threshold: u32,
)
    requires
        data.block.status == 7,
        data.frames@.len() > 0,
        data.block.stats_finished_loading,
    ensures
        spec_plan_poll(data, last_status, snowflake, now_ms, run_span_ms, replay_pending, false,
            upload_requested, record_threshold) matches Some(p) && p.submit
            && p.status == GameStatus::OtherReplay,
{
}

/// How the plans of reads relate: a run is submitted at most once (a read
/// of an already submitted run plans no submission unless a new run has
/// started), a new run clears the submission, a run is recorded only when
/// it is submitted, and nothing is submitted, recorded or uploaded from a
/// record without frames.
pub proof fn lemma_plan_poll_rules(
    data: StatsBlockWithFrames,
    last_status: GameStatus,
    snowflake: u128,
    now_ms: u128,
    run_span_ms: u128,
    replay_pending: bool,
    submitted: bool,
    upload_requested: bool,
    record_threshold: u32,
)
    ensures
        spec_plan_poll(data, last_status, snowflake, now_ms, run_span_ms, replay_pending, submitted,
            upload_requested, record_threshold) matches Some(p) ==> {
            &&& (submitted && !spec_new_run_started(p.status, last_status) ==> !p.submit && p.submitted)
            &&& (p.proceed && spec_new_run_started(p.status, last_status) ==> !p.submitted)
            &&& (p.record_run ==> p.submit)
            &&& (data.frames@.len() == 0 ==> !p.submit && !p.record_run && !p.upload_replay && !p.proceed)
            &&& (p.snowflake matches Some(v) ==> v == now_ms)
            &&& (p.status == GameStatus::Playing ==> !p.submit)
        },
{
}

/// Every time and peak of the compiled run is taken from its own field of
/// the block: the homing peak time from the time of the homing peak, the
/// enemies-alive peak time from the time of that peak, each level time
/// from its level, and so on; the ids are swapped in a replay; the counters
/// come from the last frame.
pub proof fn lemma_compiled_run_fields(c: CompiledRun, data: StatsBlockWithFrames, last: StatsFrame)
    requires
        is_compiled_run(c, data, last),
    ensures
        c.homing_daggers_max_time == data.block.time_max_homing,
        c.homing_daggers_max == data.block.max_homing,
        c.enemies_alive_max_time == data.block.time_enemies_alive_max,
        c.enemies_alive_max == data.block.enemies_alive_max,
        c.time_lvl2 == data.block.time_lvl2,
        c.time_lvl3 == data.block.time_lvl3,
        c.time_lvl4 == data.block.time_lvl4,
        c.time_levi_down == data.block.levi_down_time,
        c.time_orb_down == data.block.orb_down_time,
        c.time_max == data.block.time_max,
        data.block.is_replay ==> c.player_id == data.block.replay_player_id
            && c.replay_player_id == data.block.player_id,
        !data.block.is_replay ==> c.player_id == data.block.player_id && c.replay_player_id == 0,
        c.homing_daggers == last.homing,
        c.level_gems == last.level_gems,
        c.enemies_killed == last.kills,
        c.daggers_hit == last.daggers_hit,
        c.daggers_fired == last.daggers_fired,
{
}

/// The request sent to the service for a compiled run carries the same
/// peak times: the homing peak time is the block's time of the homing
/// peak, the enemies-alive peak time the block's time of that peak.
pub proof fn lemma_request_peak_times(
    r: crate::grpc_models::SubmitGameRequest,
    c: CompiledRun,
    data: StatsBlockWithFrames,
    last: StatsFrame,
)
    requires
        is_compiled_run(c, data, last),
        crate::grpc_models::is_request_of(r, c),
    ensures
        r.homing_daggers_max_time == data.block.time_max_homing,
        r.enemies_alive_max_time == data.block.time_enemies_alive_max,
        r.homing_daggers_max == data.block.max_homing,
        r.enemies_alive_max == data.block.enemies_alive_max,
        r.time_max == data.block.time_max,
{
}

/// When a run counts as new: always while playing; when a replay of
/// another player, an own replay from the leaderboard or a local replay
/// comes on screen; never while the same replay stays on screen, and never
/// on the title screen, the menu, the lobby, the death screen or the
/// replay of the own last run.
pub proof fn lemma_new_run_rules(status: GameStatus, old: GameStatus)
    ensures
        status == GameStatus::Playing ==> spec_new_run_started(status, old),
        old != GameStatus::OtherReplay && status == GameStatus::OtherReplay ==> spec_new_run_started(status, old),
        old != GameStatus::OwnReplayFromLeaderboard && status == GameStatus::OwnReplayFromLeaderboard
            ==> spec_new_run_started(status, old),
        old != GameStatus::LocalReplay && status == GameStatus::LocalReplay ==> spec_new_run_started(status, old),
        old == status && status != GameStatus::Playing ==> !spec_new_run_started(status, old),
        status == GameStatus::Title || status == GameStatus::Menu || status == GameStatus::Lobby
            || status == GameStatus::Dead || status == GameStatus::OwnReplayFromLastRun
            ==> !spec_new_run_started(status, old),
{
}

/// When a new session snowflake starts: on coming to the menu or to a
/// replay other than a local one; while playing, when the clock went back
/// or more time passed than the run allows; never while the same screen
/// other than the game stays, and never on the title screen, the lobby, the
/// death screen, a local replay or when a run begins.
pub proof fn lemma_snowflake_rules(
    old: GameStatus,
    status: GameStatus,
    current: u128,
    now: u128,
    span: u128,
)
    ensures
        old != GameStatus::Menu && status == GameStatus::Menu ==> spec_new_snowflake(old, status, current, now, span),
        old != GameStatus::OtherReplay && status == GameStatus::OtherReplay
            ==> spec_new_snowflake(old, status, current, now, span),
        old != GameStatus::OwnReplayFromLeaderboard && status == GameStatus::OwnReplayFromLeaderboard
            ==> spec_new_snowflake(old, status, current, now, span),
        old != GameStatus::OwnReplayFromLastRun && status == GameStatus::OwnReplayFromLastRun
            ==> spec_new_snowflake(old, status, current, now, span),
        old == GameStatus::Playing && status == GameStatus::Playing && current > now
            ==> spec_new_snowflake(old, status, current, now, span),
        old == GameStatus::Playing && status == GameStatus::Playing && current <= now && now - current > span
            ==> spec_new_snowflake(old, status, current, now, span),
        old == GameStatus::Playing && status == GameStatus::Playing && current <= now && now - current <= span
            ==> !spec_new_snowflake(old, status, current, now, span),
        old == status && status != GameStatus::Playing ==> !spec_new_snowflake(old, status, current, now, span),
        status == GameStatus::Title || status == GameStatus::Lobby || status == GameStatus::Dead
            || status == GameStatus::LocalReplay ==> !spec_new_snowflake(old, status, current, now, span),
        old != GameStatus::Playing && status == GameStatus::Playing ==> !spec_new_snowflake(old, status, current, now, span),
{
}

} // verus!
