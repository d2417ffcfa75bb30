//! Records sent to the submission service and the run history kept on disk.
//!
//! `f32` fields are held as their IEEE-754 bit patterns (`f32::to_bits`).
use vstd::prelude::*;
use vstd::slice::slice_to_vec;
use crate::mem::StatsBlockWithFrames;

verus! {

/// Integer division rounding toward zero, as `/` on Rust integers.
#[verifier::opaque]
pub open spec fn trunc_div(x: int, d: int) -> int {
    if x == 0 { 0 }
    else if x > 0 && d > 0 { x / d }
    else if x < 0 && d < 0 { (x * -1) / (d * -1) }
    else if x < 0 { ((x * -1) / d) * -1 }
    else { (x / (d * -1)) * -1 }
}

/// One second of a run as the submission service takes it.
#[derive(Clone, Debug)]
pub struct StatsFrame {
    pub gems_collected: i32,
    pub kills: i32,
    pub daggers_fired: i32,
    pub enemies_alive: i32,
    pub level_gems: i32,
    pub homing_daggers: i32,
    pub gems_despawned: i32,
    pub gems_eaten: i32,
    pub gems_total: i32,
    pub daggers_eaten: i32,
    pub per_enemy_kill_count: Vec<i32>,
    pub per_enemy_alive_count: Vec<i32>,
    pub daggers_hit: i32,
}

/// The counts widened to 32 bits, in order.
pub open spec fn widened(s: Seq<i16>) -> Seq<i32> {
    Seq::new(s.len(), |i: int| s[i] as i32)
}

/// Widens per-enemy counts to 32 bits.
pub fn widen_counts(counts: &[i16]) -> (v: Vec<i32>)
    ensures
        v@ == widened(counts@),
{
    let mut v: Vec<i32> = Vec::new();
    let mut i: usize = 0;
    while i < counts.len()
        invariant
            i <= counts@.len(),
            v@ == widened(counts@.take(i as int)),
        decreases counts@.len() - i,
    {
        v.push(counts[i] as i32);
        i = i + 1;
        proof {
            assert(v@ =~= widened(counts@.take(i as int)));
        }
    }
    proof {
        assert(counts@.take(counts@.len() as int) =~= counts@);
    }
    v
}

/// Whether `r` carries the counters of frame `f`.
pub open spec fn is_frame_record(r: StatsFrame, f: crate::mem::StatsFrame) -> bool {
    &&& r.gems_collected == f.gems_collected
    &&& r.kills == f.kills
    &&& r.daggers_fired == f.daggers_fired
    &&& r.enemies_alive == f.enemies_alive
    &&& r.level_gems == f.level_gems
    &&& r.homing_daggers == f.homing
    &&& r.gems_despawned == f.gems_despawned
    &&& r.gems_eaten == f.gems_eaten
    &&& r.gems_total == f.gems_total
    &&& r.daggers_eaten == f.daggers_eaten
    &&& r.per_enemy_kill_count@ == widened(f.per_enemy_kill_count@)
    &&& r.per_enemy_alive_count@ == widened(f.per_enemy_alive_count@)
    &&& r.daggers_hit == f.daggers_hit
}

impl StatsFrame {
    /// The service's record of a frame read from the game.
    pub fn from_game_frame(other: &crate::mem::StatsFrame) -> (r: Self)
        ensures
            is_frame_record(r, *other),
    {
        StatsFrame {
            gems_collected: other.gems_collected,
            kills: other.kills,
            daggers_fired: other.daggers_fired,
            enemies_alive: other.enemies_alive,
            level_gems: other.level_gems,
            homing_daggers: other.homing,
            gems_despawned: other.gems_despawned,
            gems_eaten: other.gems_eaten,
            gems_total: other.gems_total,
            daggers_eaten: other.daggers_eaten,
            per_enemy_kill_count: widen_counts(other.per_enemy_kill_count.as_slice()),
            per_enemy_alive_count: widen_counts(other.per_enemy_alive_count.as_slice()),
            daggers_hit: other.daggers_hit,
        }
    }
}


/// A run as the submission service takes it (times are `f32` bit patterns).
#[derive(Clone, Debug)]
pub struct SubmitGameRequest {
    pub version: String,
    pub player_id: i32,
    pub player_name: String,
    pub level_hash_md5: String,
    pub time_lvl2: u32,
    pub time_lvl3: u32,
    pub time_lvl4: u32,
    pub time_levi_down: u32,
    pub time_orb_down: u32,
    pub enemies_alive_max: i32,
    pub enemies_alive_max_time: u32,
    pub homing_daggers_max: i32,
    pub homing_daggers_max_time: u32,
    pub death_type: i32,
    pub is_replay: bool,
    pub replay_player_id: i32,
    pub daggers_hit: i32,
    pub daggers_fired: i32,
    pub enemies_alive: i32,
    pub enemies_killed: i32,
    pub gems_collected: i32,
    pub gems_total: i32,
    pub homing_daggers: i32,
    pub level_gems: i32,
    pub time_max: u32,
    pub daggers_eaten: i32,
    pub gems_eaten: i32,
    pub gems_despawned: i32,
    pub per_enemy_alive_count: Vec<i32>,
    pub per_enemy_kill_count: Vec<i32>,
    pub frames: Vec<StatsFrame>,
}

/// Whether `r` carries every value of the compiled run `c`.
pub open spec fn is_request_of(r: SubmitGameRequest, c: crate::client::CompiledRun) -> bool {
    &&& r.version@ == c.version@
    &&& r.player_id == c.player_id
    &&& r.player_name@ == c.player_name@
    &&& r.level_hash_md5@ == c.level_hash_md5@
    &&& r.time_lvl2 == c.time_lvl2
    &&& r.time_lvl3 == c.time_lvl3
    &&& r.time_lvl4 == c.time_lvl4
    &&& r.time_levi_down == c.time_levi_down
    &&& r.time_orb_down == c.time_orb_down
    &&& r.enemies_alive_max == c.enemies_alive_max
    &&& r.enemies_alive_max_time == c.enemies_alive_max_time
    &&& r.homing_daggers_max == c.homing_daggers_max
    &&& r.homing_daggers_max_time == c.homing_daggers_max_time
    &&& r.death_type == c.death_type
    &&& r.is_replay == c.is_replay
    &&& r.replay_player_id == c.replay_player_id
    &&& r.daggers_hit == c.daggers_hit
    &&& r.daggers_fired == c.daggers_fired
    &&& r.enemies_alive == c.enemies_alive
    &&& r.enemies_killed == c.enemies_killed
    &&& r.gems_collected == c.gems_collected
    &&& r.gems_total == c.gems_total
    &&& r.homing_daggers == c.homing_daggers
    &&& r.level_gems == c.level_gems
    &&& r.time_max == c.time_max
    &&& r.daggers_eaten == c.daggers_eaten
    &&& r.gems_eaten == c.gems_eaten
    &&& r.gems_despawned == c.gems_despawned
    &&& r.per_enemy_alive_count@ == widened(c.per_enemy_alive_count@)
    &&& r.per_enemy_kill_count@ == widened(c.per_enemy_kill_count@)
    &&& r.frames@.len() == c.stats@.len()
    &&& forall|i: int| 0 <= i < c.stats@.len() ==> is_frame_record(#[trigger] r.frames@[i], c.stats@[i])
}

impl SubmitGameRequest {
    /// The request that submits a compiled run.
    pub fn from_compiled_run(other: crate::client::CompiledRun) -> (r: Self)
        ensures
            is_request_of(r, other),
    {
        let mut frames: Vec<StatsFrame> = Vec::new();
        let mut i: usize = 0;
        while i < other.stats.len()
            invariant
                i <= other.stats@.len(),
                frames@.len() == i,
                forall|k: int| 0 <= k < i ==> is_frame_record(#[trigger] frames@[k], other.stats@[k]),
            decreases other.stats@.len() - i,
        {
            frames.push(StatsFrame::from_game_frame(&other.stats[i]));
            i = i + 1;
        }
        SubmitGameRequest {
            version: other.version.clone(),
            player_id: other.player_id,
            player_name: other.player_name.clone(),
            level_hash_md5: other.level_hash_md5.clone(),
            time_lvl2: other.time_lvl2,
            time_lvl3: other.time_lvl3,
            time_lvl4: other.time_lvl4,
            time_levi_down: other.time_levi_down,
            time_orb_down: other.time_orb_down,
            enemies_alive_max: other.enemies_alive_max,
            enemies_alive_max_time: other.enemies_alive_max_time,
            homing_daggers_max: other.homing_daggers_max,
            homing_daggers_max_time: other.homing_daggers_max_time,
            death_type: other.death_type,
            is_replay: other.is_replay,
            replay_player_id: other.replay_player_id,
            daggers_hit: other.daggers_hit,
            daggers_fired: other.daggers_fired,
            enemies_alive: other.enemies_alive,
            enemies_killed: other.enemies_killed,
            gems_collected: other.gems_collected,
            gems_total: other.gems_total,
            homing_daggers: other.homing_daggers,
            level_gems: other.level_gems,
            time_max: other.time_max,
            daggers_eaten: other.daggers_eaten,
            gems_eaten: other.gems_eaten,
            gems_despawned: other.gems_despawned,
            per_enemy_alive_count: widen_counts(other.per_enemy_alive_count.as_slice()),
            per_enemy_kill_count: widen_counts(other.per_enemy_kill_count.as_slice()),
            frames,
        }
    }
}


/// The statistics block of a stored run (times are `f32` bit patterns).
#[derive(Clone, Debug)]
pub struct Block {
    pub ddstats_version: i32,
    pub player_id: i32,
    pub username: Vec<u8>,
    pub time: u32,
    pub gems_collected: i32,
    pub kills: i32,
    pub daggers_fired: i32,
    pub daggers_hit: i32,
    pub enemies_alive: i32,
    pub level_gems: i32,
    pub homing: i32,
    pub gems_despawned: i32,
    pub gems_eaten: i32,
    pub gems_total: i32,
    pub daggers_eaten: i32,
    pub per_enemy_alive_count: Vec<i16>,
    pub per_enemy_kill_count: Vec<i16>,
    pub is_player_alive: bool,
    pub is_replay: bool,
    pub death_type: u8,
    pub is_in_game: bool,
    pub replay_player_id: i32,
    pub replay_player_name: Vec<u8>,
    pub survival_md5: Vec<u8>,
    pub time_lvl2: u32,
    pub time_lvl3: u32,
    pub time_lvl4: u32,
    pub levi_down_time: u32,
    pub orb_down_time: u32,
    pub status: i32,
    pub max_homing: i32,
    pub time_max_homing: u32,
    pub enemies_alive_max: i32,
    pub time_enemies_alive_max: u32,
    pub time_max: u32,
    pub stats_base: Vec<u8>,
    pub stats_frames_loaded: i32,
    pub stats_finished_loading: bool,
    pub starting_hand: i32,
    pub starting_homing: i32,
    pub starting_time: u32,
    pub prohibited_mods: bool,
    pub replay_base: Vec<u8>,
    pub replay_buffer_length: i32,
    pub replay_flag: bool,
    pub game_mode: u8,
    pub is_time_attack_or_race_finished: bool,
}

/// Stored frames of a run.
#[derive(Clone, Debug)]
pub struct Frames {
    pub frames: Vec<Frame>,
}

/// One stored second of a run.
#[derive(Clone, Debug)]
pub struct Frame {
    pub gems_collected: i32,
    pub kills: i32,
    pub daggers_fired: i32,
    pub daggers_hit: i32,
    pub enemies_alive: i32,
    pub level_gems: i32,
    pub homing: i32,
    pub gems_despawned: i32,
    pub gems_eaten: i32,
    pub gems_total: i32,
    pub daggers_eaten: i32,
    pub per_enemy_alive_count: Vec<i16>,
    pub per_enemy_kill_count: Vec<i16>,
}

/// A stored run.
#[derive(Clone, Debug)]
pub struct Run {
    pub block: Block,
    pub frames: Frames,
}

/// The most recent stored runs, oldest first.
#[derive(Clone, Debug)]
pub struct RunList {
    pub runs: Vec<Run>,
}

/// The run history: how many runs were recorded, the recent ones, and the
/// per-statistic minimum, maximum and running average.
#[derive(Clone, Debug)]
pub struct SavedData {
    pub recorded_runs: u32,
    pub recent_runs: RunList,
    pub min: Run,
    pub max: Run,
    pub avg: Run,
}

/// Whether `b` stores every value of the game block `o`.
pub open spec fn is_block_of(b: Block, o: crate::mem::StatsDataBlock) -> bool {
    &&& b.ddstats_version == o.ddstats_version
    &&& b.player_id == o.player_id
    &&& b.username@ == o.username@
    &&& b.time == o.time
    &&& b.gems_collected == o.gems_collected
    &&& b.kills == o.kills
    &&& b.daggers_fired == o.daggers_fired
    &&& b.daggers_hit == o.daggers_hit
    &&& b.enemies_alive == o.enemies_alive
    &&& b.level_gems == o.level_gems
    &&& b.homing == o.homing
    &&& b.gems_despawned == o.gems_despawned
    &&& b.gems_eaten == o.gems_eaten
    &&& b.gems_total == o.gems_total
    &&& b.daggers_eaten == o.daggers_eaten
    &&& b.per_enemy_alive_count@ == o.per_enemy_alive_count@
    &&& b.per_enemy_kill_count@ == o.per_enemy_kill_count@
    &&& b.is_player_alive == o.is_player_alive
    &&& b.is_replay == o.is_replay
    &&& b.death_type == o.death_type
    &&& b.is_in_game == o.is_in_game
    &&& b.replay_player_id == o.replay_player_id
    &&& b.replay_player_name@ == o.replay_player_name@
    &&& b.survival_md5@ == o.survival_md5@
    &&& b.time_lvl2 == o.time_lvl2
    &&& b.time_lvl3 == o.time_lvl3
    &&& b.time_lvl4 == o.time_lvl4
    &&& b.levi_down_time == o.levi_down_time
    &&& b.orb_down_time == o.orb_down_time
    &&& b.status == o.status
    &&& b.max_homing == o.max_homing
    &&& b.time_max_homing == o.time_max_homing
    &&& b.enemies_alive_max == o.enemies_alive_max
    &&& b.time_enemies_alive_max == o.time_enemies_alive_max
    &&& b.time_max == o.time_max
    &&& b.stats_base@ == o.stats_base@
    &&& b.stats_frames_loaded == o.stats_frames_loaded
    &&& b.stats_finished_loading == o.stats_finished_loading
    &&& b.starting_hand == o.starting_hand
    &&& b.starting_homing == o.starting_homing
    &&& b.starting_time == o.starting_time
    &&& b.prohibited_mods == o.prohibited_mods
    &&& b.replay_base@ == o.replay_base@
    &&& b.replay_buffer_length == o.replay_buffer_length
    &&& b.replay_flag == o.replay_flag
    &&& b.game_mode == o.game_mode
    &&& b.is_time_attack_or_race_finished == o.is_time_attack_or_race_finished
}

/// Whether `r` stores every value of the game frame `f`.
pub open spec fn is_stored_frame(r: Frame, f: crate::mem::StatsFrame) -> bool {
    &&& r.gems_collected == f.gems_collected
    &&& r.kills == f.kills
    &&& r.daggers_fired == f.daggers_fired
    &&& r.daggers_hit == f.daggers_hit
    &&& r.enemies_alive == f.enemies_alive
    &&& r.level_gems == f.level_gems
    &&& r.homing == f.homing
    &&& r.gems_despawned == f.gems_despawned
    &&& r.gems_eaten == f.gems_eaten
    &&& r.gems_total == f.gems_total
    &&& r.daggers_eaten == f.daggers_eaten
    &&& r.per_enemy_alive_count@ == f.per_enemy_alive_count@
    &&& r.per_enemy_kill_count@ == f.per_enemy_kill_count@
}

impl Frame {
    /// The stored form of a game frame.
    pub fn from_data_frame(other: &crate::mem::StatsFrame) -> (r: Self)
        ensures
            is_stored_frame(r, *other),
    {
        Frame {
            gems_collected: other.gems_collected,
            kills: other.kills,
            daggers_fired: other.daggers_fired,
            daggers_hit: other.daggers_hit,
            enemies_alive: other.enemies_alive,
            level_gems: other.level_gems,
            homing: other.homing,
            gems_despawned: other.gems_despawned,
            gems_eaten: other.gems_eaten,
            gems_total: other.gems_total,
            daggers_eaten: other.daggers_eaten,
            per_enemy_alive_count: slice_to_vec(other.per_enemy_alive_count.as_slice()),
            per_enemy_kill_count: slice_to_vec(other.per_enemy_kill_count.as_slice()),
        }
    }
}

impl Run {
    /// The stored form of a statistics block and its frames.
    pub fn from_sbwf(other: &StatsBlockWithFrames) -> (r: Self)
        ensures
            is_block_of(r.block, other.block),
            r.frames.frames@.len() == other.frames@.len(),
            forall|i: int| 0 <= i < other.frames@.len() ==> is_stored_frame(#[trigger] r.frames.frames@[i], other.frames@[i]),
    {
        let mut frames: Vec<Frame> = Vec::new();
        let mut i: usize = 0;
        while i < other.frames.len()
            invariant
                i <= other.frames@.len(),
                frames@.len() == i,
                forall|k: int| 0 <= k < i ==> is_stored_frame(#[trigger] frames@[k], other.frames@[k]),
            decreases other.frames@.len() - i,
        {
            frames.push(Frame::from_data_frame(&other.frames[i]));
            i = i + 1;
        }
        Run {
            block: Block {
                ddstats_version: other.block.ddstats_version,
                player_id: other.block.player_id,
                username: slice_to_vec(other.block.username.as_slice()),
                time: other.block.time,
                gems_collected: other.block.gems_collected,
                kills: other.block.kills,
                daggers_fired: other.block.daggers_fired,
                daggers_hit: other.block.daggers_hit,
                enemies_alive: other.block.enemies_alive,
                level_gems: other.block.level_gems,
                homing: other.block.homing,
                gems_despawned: other.block.gems_despawned,
                gems_eaten: other.block.gems_eaten,
                gems_total: other.block.gems_total,
                daggers_eaten: other.block.daggers_eaten,
                per_enemy_alive_count: slice_to_vec(other.block.per_enemy_alive_count.as_slice()),
                per_enemy_kill_count: slice_to_vec(other.block.per_enemy_kill_count.as_slice()),
                is_player_alive: other.block.is_player_alive,
                is_replay: other.block.is_replay,
                death_type: other.block.death_type,
                is_in_game: other.block.is_in_game,
                replay_player_id: other.block.replay_player_id,
                replay_player_name: slice_to_vec(other.block.replay_player_name.as_slice()),
                survival_md5: slice_to_vec(other.block.survival_md5.as_slice()),
                time_lvl2: other.block.time_lvl2,
                time_lvl3: other.block.time_lvl3,
                time_lvl4: other.block.time_lvl4,
                levi_down_time: other.block.levi_down_time,
                orb_down_time: other.block.orb_down_time,
                status: other.block.status,
                max_homing: other.block.max_homing,
                time_max_homing: other.block.time_max_homing,
                enemies_alive_max: other.block.enemies_alive_max,
                time_enemies_alive_max: other.block.time_enemies_alive_max,
                time_max: other.block.time_max,
                stats_base: slice_to_vec(other.block.stats_base.as_slice()),
                stats_frames_loaded: other.block.stats_frames_loaded,
                stats_finished_loading: other.block.stats_finished_loading,
                starting_hand: other.block.starting_hand,
                starting_homing: other.block.starting_homing,
                starting_time: other.block.starting_time,
                prohibited_mods: other.block.prohibited_mods,
                replay_base: slice_to_vec(other.block.replay_base.as_slice()),
                replay_buffer_length: other.block.replay_buffer_length,
                replay_flag: other.block.replay_flag,
                game_mode: other.block.game_mode,
                is_time_attack_or_race_finished: other.block.is_time_attack_or_race_finished,
            },
            frames: Frames { frames },
        }
    }
}

/// `cur` with the integer statistics set to the smaller of `avg` and `new`.
pub open spec fn min_counts(r: Block, cur: Block, avg: Block, new: Block) -> bool {
    &&& r.enemies_alive_max == (if avg.enemies_alive_max <= new.enemies_alive_max { avg.enemies_alive_max } else { new.enemies_alive_max })
    &&& r.max_homing == (if avg.max_homing <= new.max_homing { avg.max_homing } else { new.max_homing })
    &&& r.daggers_hit == (if avg.daggers_hit <= new.daggers_hit { avg.daggers_hit } else { new.daggers_hit })
    &&& r.daggers_fired == (if avg.daggers_fired <= new.daggers_fired { avg.daggers_fired } else { new.daggers_fired })
    &&& r.enemies_alive == (if avg.enemies_alive <= new.enemies_alive { avg.enemies_alive } else { new.enemies_alive })
    &&& r.kills == (if avg.kills <= new.kills { avg.kills } else { new.kills })
    &&& r.gems_collected == (if avg.gems_collected <= new.gems_collected { avg.gems_collected } else { new.gems_collected })
    &&& r.gems_total == (if avg.gems_total <= new.gems_total { avg.gems_total } else { new.gems_total })
    &&& r.homing == (if avg.homing <= new.homing { avg.homing } else { new.homing })
    &&& r.daggers_eaten == (if avg.daggers_eaten <= new.daggers_eaten { avg.daggers_eaten } else { new.daggers_eaten })
    &&& r.gems_eaten == (if avg.gems_eaten <= new.gems_eaten { avg.gems_eaten } else { new.gems_eaten })
    &&& r.gems_despawned == (if avg.gems_despawned <= new.gems_despawned { avg.gems_despawned } else { new.gems_despawned })
    &&& r.ddstats_version == cur.ddstats_version
    &&& r.player_id == cur.player_id
    &&& r.username@ == cur.username@
    &&& r.time == cur.time
    &&& r.level_gems == cur.level_gems
    &&& r.per_enemy_alive_count@ == cur.per_enemy_alive_count@
    &&& r.per_enemy_kill_count@ == cur.per_enemy_kill_count@
    &&& r.is_player_alive == cur.is_player_alive
    &&& r.is_replay == cur.is_replay
    &&& r.death_type == cur.death_type
    &&& r.is_in_game == cur.is_in_game
    &&& r.replay_player_id == cur.replay_player_id
    &&& r.replay_player_name@ == cur.replay_player_name@
    &&& r.survival_md5@ == cur.survival_md5@
    &&& r.time_lvl2 == cur.time_lvl2
    &&& r.time_lvl3 == cur.time_lvl3
    &&& r.time_lvl4 == cur.time_lvl4
    &&& r.levi_down_time == cur.levi_down_time
    &&& r.orb_down_time == cur.orb_down_time
    &&& r.status == cur.status
    &&& r.time_max_homing == cur.time_max_homing
    &&& r.time_enemies_alive_max == cur.time_enemies_alive_max
    &&& r.time_max == cur.time_max
    &&& r.stats_base@ == cur.stats_base@
    &&& r.stats_frames_loaded == cur.stats_frames_loaded
    &&& r.stats_finished_loading == cur.stats_finished_loading
    &&& r.starting_hand == cur.starting_hand
    &&& r.starting_homing == cur.starting_homing
    &&& r.starting_time == cur.starting_time
    &&& r.prohibited_mods == cur.prohibited_mods
    &&& r.replay_base@ == cur.replay_base@
    &&& r.replay_buffer_length == cur.replay_buffer_length
    &&& r.replay_flag == cur.replay_flag
    &&& r.game_mode == cur.game_mode
    &&& r.is_time_attack_or_race_finished == cur.is_time_attack_or_race_finished
}

/// `cur` with the integer statistics set to the larger of `avg` and `new`.
pub open spec fn max_counts(r: Block, cur: Block, avg: Block, new: Block) -> bool {
    &&& r.enemies_alive_max == (if avg.enemies_alive_max >= new.enemies_alive_max { avg.enemies_alive_max } else { new.enemies_alive_max })
    &&& r.max_homing == (if avg.max_homing >= new.max_homing { avg.max_homing } else { new.max_homing })
    &&& r.daggers_hit == (if avg.daggers_hit >= new.daggers_hit { avg.daggers_hit } else { new.daggers_hit })
    &&& r.daggers_fired == (if avg.daggers_fired >= new.daggers_fired { avg.daggers_fired } else { new.daggers_fired })
    &&& r.enemies_alive == (if avg.enemies_alive >= new.enemies_alive { avg.enemies_alive } else { new.enemies_alive })
    &&& r.kills == (if avg.kills >= new.kills { avg.kills } else { new.kills })
    &&& r.gems_collected == (if avg.gems_collected >= new.gems_collected { avg.gems_collected } else { new.gems_collected })
    &&& r.gems_total == (if avg.gems_total >= new.gems_total { avg.gems_total } else { new.gems_total })
    &&& r.homing == (if avg.homing >= new.homing { avg.homing } else { new.homing })
    &&& r.daggers_eaten == (if avg.daggers_eaten >= new.daggers_eaten { avg.daggers_eaten } else { new.daggers_eaten })
    &&& r.gems_eaten == (if avg.gems_eaten >= new.gems_eaten { avg.gems_eaten } else { new.gems_eaten })
    &&& r.gems_despawned == (if avg.gems_despawned >= new.gems_despawned { avg.gems_despawned } else { new.gems_despawned })
    &&& r.ddstats_version == cur.ddstats_version
    &&& r.player_id == cur.player_id
    &&& r.username@ == cur.username@
    &&& r.time == cur.time
    &&& r.level_gems == cur.level_gems
    &&& r.per_enemy_alive_count@ == cur.per_enemy_alive_count@
    &&& r.per_enemy_kill_count@ == cur.per_enemy_kill_count@
    &&& r.is_player_alive == cur.is_player_alive
    &&& r.is_replay == cur.is_replay
    &&& r.death_type == cur.death_type
    &&& r.is_in_game == cur.is_in_game
    &&& r.replay_player_id == cur.replay_player_id
    &&& r.replay_player_name@ == cur.replay_player_name@
    &&& r.survival_md5@ == cur.survival_md5@
    &&& r.time_lvl2 == cur.time_lvl2
    &&& r.time_lvl3 == cur.time_lvl3
    &&& r.time_lvl4 == cur.time_lvl4
    &&& r.levi_down_time == cur.levi_down_time
    &&& r.orb_down_time == cur.orb_down_time
    &&& r.status == cur.status
    &&& r.time_max_homing == cur.time_max_homing
    &&& r.time_enemies_alive_max == cur.time_enemies_alive_max
    &&& r.time_max == cur.time_max
    &&& r.stats_base@ == cur.stats_base@
    &&& r.stats_frames_loaded == cur.stats_frames_loaded
    &&& r.stats_finished_loading == cur.stats_finished_loading
    &&& r.starting_hand == cur.starting_hand
    &&& r.starting_homing == cur.starting_homing
    &&& r.starting_time == cur.starting_time
    &&& r.prohibited_mods == cur.prohibited_mods
    &&& r.replay_base@ == cur.replay_base@
    &&& r.replay_buffer_length == cur.replay_buffer_length
    &&& r.replay_flag == cur.replay_flag
    &&& r.game_mode == cur.game_mode
    &&& r.is_time_attack_or_race_finished == cur.is_time_attack_or_race_finished
}

/// `avg` with each integer statistic moved toward `new` by the difference
/// divided by `d`, as a running average over `d` runs.
pub open spec fn avg_counts(r: Block, cur: Block, avg: Block, new: Block, d: int) -> bool {
    &&& r.enemies_alive_max == avg.enemies_alive_max + trunc_div(new.enemies_alive_max - avg.enemies_alive_max, d)
    &&& r.max_homing == avg.max_homing + trunc_div(new.max_homing - avg.max_homing, d)
    &&& r.daggers_hit == avg.daggers_hit + trunc_div(new.daggers_hit - avg.daggers_hit, d)
    &&& r.daggers_fired == avg.daggers_fired + trunc_div(new.daggers_fired - avg.daggers_fired, d)
    &&& r.enemies_alive == avg.enemies_alive + trunc_div(new.enemies_alive - avg.enemies_alive, d)
    &&& r.kills == avg.kills + trunc_div(new.kills - avg.kills, d)
    &&& r.gems_collected == avg.gems_collected + trunc_div(new.gems_collected - avg.gems_collected, d)
    &&& r.gems_total == avg.gems_total + trunc_div(new.gems_total - avg.gems_total, d)
    &&& r.homing == avg.homing + trunc_div(new.homing - avg.homing, d)
    &&& r.daggers_eaten == avg.daggers_eaten + trunc_div(new.daggers_eaten - avg.daggers_eaten, d)
    &&& r.gems_eaten == avg.gems_eaten + trunc_div(new.gems_eaten - avg.gems_eaten, d)
    &&& r.gems_despawned == avg.gems_despawned + trunc_div(new.gems_despawned - avg.gems_despawned, d)
    &&& r.ddstats_version == cur.ddstats_version
    &&& r.player_id == cur.player_id
    &&& r.username@ == cur.username@
    &&& r.time == cur.time
    &&& r.level_gems == cur.level_gems
    &&& r.per_enemy_alive_count@ == cur.per_enemy_alive_count@
    &&& r.per_enemy_kill_count@ == cur.per_enemy_kill_count@
    &&& r.is_player_alive == cur.is_player_alive
    &&& r.is_replay == cur.is_replay
    &&& r.death_type == cur.death_type
    &&& r.is_in_game == cur.is_in_game
    &&& r.replay_player_id == cur.replay_player_id
    &&& r.replay_player_name@ == cur.replay_player_name@
    &&& r.survival_md5@ == cur.survival_md5@
    &&& r.time_lvl2 == cur.time_lvl2
    &&& r.time_lvl3 == cur.time_lvl3
    &&& r.time_lvl4 == cur.time_lvl4
    &&& r.levi_down_time == cur.levi_down_time
    &&& r.orb_down_time == cur.orb_down_time
    &&& r.status == cur.status
    &&& r.time_max_homing == cur.time_max_homing
    &&& r.time_enemies_alive_max == cur.time_enemies_alive_max
    &&& r.time_max == cur.time_max
    &&& r.stats_base@ == cur.stats_base@
    &&& r.stats_frames_loaded == cur.stats_frames_loaded
    &&& r.stats_finished_loading == cur.stats_finished_loading
    &&& r.starting_hand == cur.starting_hand
    &&& r.starting_homing == cur.starting_homing
    &&& r.starting_time == cur.starting_time
    &&& r.prohibited_mods == cur.prohibited_mods
    &&& r.replay_base@ == cur.replay_base@
    &&& r.replay_buffer_length == cur.replay_buffer_length
    &&& r.replay_flag == cur.replay_flag
    &&& r.game_mode == cur.game_mode
    &&& r.is_time_attack_or_race_finished == cur.is_time_attack_or_race_finished
}

/// Whether one running-average step stays within 32-bit arithmetic.
pub open spec fn avg_step_fits(avg: int, new: int, d: int) -> bool {
    &&& d != 0
    &&& i32::MIN <= new - avg <= i32::MAX
    &&& !(new - avg == i32::MIN && d == -1)
    &&& i32::MIN <= avg + trunc_div(new - avg, d) <= i32::MAX
}

/// Whether every running-average step of `update_avg` stays within 32-bit
/// arithmetic.
pub open spec fn avg_fits(avg: Block, new: Block, d: int) -> bool {
    &&& avg_step_fits(avg.enemies_alive_max as int, new.enemies_alive_max as int, d)
    &&& avg_step_fits(avg.max_homing as int, new.max_homing as int, d)
    &&& avg_step_fits(avg.daggers_hit as int, new.daggers_hit as int, d)
    &&& avg_step_fits(avg.daggers_fired as int, new.daggers_fired as int, d)
    &&& avg_step_fits(avg.enemies_alive as int, new.enemies_alive as int, d)
    &&& avg_step_fits(avg.kills as int, new.kills as int, d)
    &&& avg_step_fits(avg.gems_collected as int, new.gems_collected as int, d)
    &&& avg_step_fits(avg.gems_total as int, new.gems_total as int, d)
    &&& avg_step_fits(avg.homing as int, new.homing as int, d)
    &&& avg_step_fits(avg.daggers_eaten as int, new.daggers_eaten as int, d)
    &&& avg_step_fits(avg.gems_eaten as int, new.gems_eaten as int, d)
    &&& avg_step_fits(avg.gems_despawned as int, new.gems_despawned as int, d)
}

/// The run count as the divisor of the running average (`as i32`).
pub open spec fn run_divisor(n: u32) -> int {
    if n > i32::MAX { n - 0x1_0000_0000 } else { n as int }
}

fn divisor_of(n: u32) -> (d: i32)
    ensures
        d as int == run_divisor(n),
{
    if n > 0x7fff_ffff {
        (n as i64 - 0x1_0000_0000) as i32
    } else {
        n as i32
    }
}

fn min_of(a: i32, b: i32) -> (r: i32)
    ensures
        r == (if a <= b { a } else { b }),
{
    if a <= b { a } else { b }
}

fn max_of(a: i32, b: i32) -> (r: i32)
    ensures
        r == (if a >= b { a } else { b }),
{
    if a >= b { a } else { b }
}

fn avg_step(avg: i32, new: i32, d: i32) -> (r: i32)
    requires
        avg_step_fits(avg as int, new as int, d as int),
    ensures
        r == avg + trunc_div(new - avg, d as int),
{
    reveal(trunc_div);
    let diff = new - avg;
    match diff.checked_div(d) {
        Some(q) => avg + q,
        None => avg,
    }
}

impl SavedData {
    /// Sets the integer statistics of `min` to the smaller of the running
    /// average and the newest run (the `f32` times are set by the caller).
    pub fn update_min(&mut self)
        requires
            old(self).recent_runs.runs@.len() > 0,
        ensures
            min_counts(final(self).min.block, old(self).min.block, old(self).avg.block,
                old(self).recent_runs.runs@.last().block),
            final(self).min.frames == old(self).min.frames,
            final(self).max == old(self).max,
            final(self).avg == old(self).avg,
            final(self).recent_runs == old(self).recent_runs,
            final(self).recorded_runs == old(self).recorded_runs,
    {
        let last = self.recent_runs.runs.len() - 1;
        self.min.block.enemies_alive_max = min_of(self.avg.block.enemies_alive_max, self.recent_runs.runs[last].block.enemies_alive_max);
        self.min.block.max_homing = min_of(self.avg.block.max_homing, self.recent_runs.runs[last].block.max_homing);
        self.min.block.daggers_hit = min_of(self.avg.block.daggers_hit, self.recent_runs.runs[last].block.daggers_hit);
        self.min.block.daggers_fired = min_of(self.avg.block.daggers_fired, self.recent_runs.runs[last].block.daggers_fired);
        self.min.block.enemies_alive = min_of(self.avg.block.enemies_alive, self.recent_runs.runs[last].block.enemies_alive);
        self.min.block.kills = min_of(self.avg.block.kills, self.recent_runs.runs[last].block.kills);
        self.min.block.gems_collected = min_of(self.avg.block.gems_collected, self.recent_runs.runs[last].block.gems_collected);
        self.min.block.gems_total = min_of(self.avg.block.gems_total, self.recent_runs.runs[last].block.gems_total);
        self.min.block.homing = min_of(self.avg.block.homing, self.recent_runs.runs[last].block.homing);
        self.min.block.daggers_eaten = min_of(self.avg.block.daggers_eaten, self.recent_runs.runs[last].block.daggers_eaten);
        self.min.block.gems_eaten = min_of(self.avg.block.gems_eaten, self.recent_runs.runs[last].block.gems_eaten);
        self.min.block.gems_despawned = min_of(self.avg.block.gems_despawned, self.recent_runs.runs[last].block.gems_despawned);
    }

    /// Sets the integer statistics of `max` to the larger of the running
    /// average and the newest run (the `f32` times are set by the caller).
    pub fn update_max(&mut self)
        requires
            old(self).recent_runs.runs@.len() > 0,
        ensures
            max_counts(final(self).max.block, old(self).max.block, old(self).avg.block,
                old(self).recent_runs.runs@.last().block),
            final(self).max.frames == old(self).max.frames,
            final(self).min == old(self).min,
            final(self).avg == old(self).avg,
            final(self).recent_runs == old(self).recent_runs,
            final(self).recorded_runs == old(self).recorded_runs,
    {
        let last = self.recent_runs.runs.len() - 1;
        self.max.block.enemies_alive_max = max_of(self.avg.block.enemies_alive_max, self.recent_runs.runs[last].block.enemies_alive_max);
        self.max.block.max_homing = max_of(self.avg.block.max_homing, self.recent_runs.runs[last].block.max_homing);
        self.max.block.daggers_hit = max_of(self.avg.block.daggers_hit, self.recent_runs.runs[last].block.daggers_hit);
        self.max.block.daggers_fired = max_of(self.avg.block.daggers_fired, self.recent_runs.runs[last].block.daggers_fired);
        self.max.block.enemies_alive = max_of(self.avg.block.enemies_alive, self.recent_runs.runs[last].block.enemies_alive);
        self.max.block.kills = max_of(self.avg.block.kills, self.recent_runs.runs[last].block.kills);
        self.max.block.gems_collected = max_of(self.avg.block.gems_collected, self.recent_runs.runs[last].block.gems_collected);
        self.max.block.gems_total = max_of(self.avg.block.gems_total, self.recent_runs.runs[last].block.gems_total);
        self.max.block.homing = max_of(self.avg.block.homing, self.recent_runs.runs[last].block.homing);
        self.max.block.daggers_eaten = max_of(self.avg.block.daggers_eaten, self.recent_runs.runs[last].block.daggers_eaten);
        self.max.block.gems_eaten = max_of(self.avg.block.gems_eaten, self.recent_runs.runs[last].block.gems_eaten);
        self.max.block.gems_despawned = max_of(self.avg.block.gems_despawned, self.recent_runs.runs[last].block.gems_despawned);
    }

    /// Moves the integer statistics of the running average toward the newest
    /// run: `avg + (new - avg) / recorded_runs` (the `f32` times are set by
    /// the caller).
    #[verifier::spinoff_prover]
    pub fn update_avg(&mut self)
        requires
            old(self).recent_runs.runs@.len() > 0,
            avg_fits(old(self).avg.block, old(self).recent_runs.runs@.last().block,
                run_divisor(old(self).recorded_runs)),
        ensures
            avg_counts(final(self).avg.block, old(self).avg.block, old(self).avg.block,
                old(self).recent_runs.runs@.last().block, run_divisor(old(self).recorded_runs)),
            final(self).avg.frames == old(self).avg.frames,
            final(self).min == old(self).min,
            final(self).max == old(self).max,
            final(self).recent_runs == old(self).recent_runs,
            final(self).recorded_runs == old(self).recorded_runs,
    {
        let last = self.recent_runs.runs.len() - 1;
        let d = divisor_of(self.recorded_runs);
        let ghost avg0 = self.avg.block;
        let ghost new0 = self.recent_runs.runs@[last as int].block;
        assert(new0 == old(self).recent_runs.runs@.last().block);
        let v_enemies_alive_max = avg_step(self.avg.block.enemies_alive_max, self.recent_runs.runs[last].block.enemies_alive_max, d);
        let v_max_homing = avg_step(self.avg.block.max_homing, self.recent_runs.runs[last].block.max_homing, d);
        let v_daggers_hit = avg_step(self.avg.block.daggers_hit, self.recent_runs.runs[last].block.daggers_hit, d);
        let v_daggers_fired = avg_step(self.avg.block.daggers_fired, self.recent_runs.runs[last].block.daggers_fired, d);
        let v_enemies_alive = avg_step(self.avg.block.enemies_alive, self.recent_runs.runs[last].block.enemies_alive, d);
        let v_kills = avg_step(self.avg.block.kills, self.recent_runs.runs[last].block.kills, d);
        let v_gems_collected = avg_step(self.avg.block.gems_collected, self.recent_runs.runs[last].block.gems_collected, d);
        let v_gems_total = avg_step(self.avg.block.gems_total, self.recent_runs.runs[last].block.gems_total, d);
        let v_homing = avg_step(self.avg.block.homing, self.recent_runs.runs[last].block.homing, d);
        let v_daggers_eaten = avg_step(self.avg.block.daggers_eaten, self.recent_runs.runs[last].block.daggers_eaten, d);
        let v_gems_eaten = avg_step(self.avg.block.gems_eaten, self.recent_runs.runs[last].block.gems_eaten, d);
        let v_gems_despawned = avg_step(self.avg.block.gems_despawned, self.recent_runs.runs[last].block.gems_despawned, d);
        self.avg.block.enemies_alive_max = v_enemies_alive_max;
        self.avg.block.max_homing = v_max_homing;
        self.avg.block.daggers_hit = v_daggers_hit;
        self.avg.block.daggers_fired = v_daggers_fired;
        self.avg.block.enemies_alive = v_enemies_alive;
        self.avg.block.kills = v_kills;
        self.avg.block.gems_collected = v_gems_collected;
        self.avg.block.gems_total = v_gems_total;
        self.avg.block.homing = v_homing;
        self.avg.block.daggers_eaten = v_daggers_eaten;
        self.avg.block.gems_eaten = v_gems_eaten;
        self.avg.block.gems_despawned = v_gems_despawned;
    }
}

/// Whether two blocks hold the same values.
pub open spec fn same_block(a: Block, b: Block) -> bool {
    &&& a.ddstats_version == b.ddstats_version
    &&& a.player_id == b.player_id
    &&& a.username@ == b.username@
    &&& a.time == b.time
    &&& a.gems_collected == b.gems_collected
    &&& a.kills == b.kills
    &&& a.daggers_fired == b.daggers_fired
    &&& a.daggers_hit == b.daggers_hit
    &&& a.enemies_alive == b.enemies_alive
    &&& a.level_gems == b.level_gems
    &&& a.homing == b.homing
    &&& a.gems_despawned == b.gems_despawned
    &&& a.gems_eaten == b.gems_eaten
    &&& a.gems_total == b.gems_total
    &&& a.daggers_eaten == b.daggers_eaten
    &&& a.per_enemy_alive_count@ == b.per_enemy_alive_count@
    &&& a.per_enemy_kill_count@ == b.per_enemy_kill_count@
    &&& a.is_player_alive == b.is_player_alive
    &&& a.is_replay == b.is_replay
    &&& a.death_type == b.death_type
    &&& a.is_in_game == b.is_in_game
    &&& a.replay_player_id == b.replay_player_id
    &&& a.replay_player_name@ == b.replay_player_name@
    &&& a.survival_md5@ == b.survival_md5@
    &&& a.time_lvl2 == b.time_lvl2
    &&& a.time_lvl3 == b.time_lvl3
    &&& a.time_lvl4 == b.time_lvl4
    &&& a.levi_down_time == b.levi_down_time
    &&& a.orb_down_time == b.orb_down_time
    &&& a.status == b.status
    &&& a.max_homing == b.max_homing
    &&& a.time_max_homing == b.time_max_homing
    &&& a.enemies_alive_max == b.enemies_alive_max
    &&& a.time_enemies_alive_max == b.time_enemies_alive_max
    &&& a.time_max == b.time_max
    &&& a.stats_base@ == b.stats_base@
    &&& a.stats_frames_loaded == b.stats_frames_loaded
    &&& a.stats_finished_loading == b.stats_finished_loading
    &&& a.starting_hand == b.starting_hand
    &&& a.starting_homing == b.starting_homing
    &&& a.starting_time == b.starting_time
    &&& a.prohibited_mods == b.prohibited_mods
    &&& a.replay_base@ == b.replay_base@
    &&& a.replay_buffer_length == b.replay_buffer_length
    &&& a.replay_flag == b.replay_flag
    &&& a.game_mode == b.game_mode
    &&& a.is_time_attack_or_race_finished == b.is_time_attack_or_race_finished
}

/// Whether two frames hold the same values.
pub open spec fn same_frame(a: Frame, b: Frame) -> bool {
    &&& a.gems_collected == b.gems_collected
    &&& a.kills == b.kills
    &&& a.daggers_fired == b.daggers_fired
    &&& a.daggers_hit == b.daggers_hit
    &&& a.enemies_alive == b.enemies_alive
    &&& a.level_gems == b.level_gems
    &&& a.homing == b.homing
    &&& a.gems_despawned == b.gems_despawned
    &&& a.gems_eaten == b.gems_eaten
    &&& a.gems_total == b.gems_total
    &&& a.daggers_eaten == b.daggers_eaten
    &&& a.per_enemy_alive_count@ == b.per_enemy_alive_count@
    &&& a.per_enemy_kill_count@ == b.per_enemy_kill_count@
}

/// Whether two runs hold the same values.
pub open spec fn same_run(a: Run, b: Run) -> bool {
    &&& same_block(a.block, b.block)
    &&& a.frames.frames@.len() == b.frames.frames@.len()
    &&& forall|i: int| 0 <= i < a.frames.frames@.len() ==> same_frame(#[trigger] a.frames.frames@[i], b.frames.frames@[i])
}

impl Block {
    /// A copy of the block.
    pub fn copy(&self) -> (r: Block)
        ensures
            same_block(r, *self),
    {
        Block {
            ddstats_version: self.ddstats_version,
            player_id: self.player_id,
            username: slice_to_vec(self.username.as_slice()),
            time: self.time,
            gems_collected: self.gems_collected,
            kills: self.kills,
            daggers_fired: self.daggers_fired,
            daggers_hit: self.daggers_hit,
            enemies_alive: self.enemies_alive,
            level_gems: self.level_gems,
            homing: self.homing,
            gems_despawned: self.gems_despawned,
            gems_eaten: self.gems_eaten,
            gems_total: self.gems_total,
            daggers_eaten: self.daggers_eaten,
            per_enemy_alive_count: slice_to_vec(self.per_enemy_alive_count.as_slice()),
            per_enemy_kill_count: slice_to_vec(self.per_enemy_kill_count.as_slice()),
            is_player_alive: self.is_player_alive,
            is_replay: self.is_replay,
            death_type: self.death_type,
            is_in_game: self.is_in_game,
            replay_player_id: self.replay_player_id,
            replay_player_name: slice_to_vec(self.replay_player_name.as_slice()),
            survival_md5: slice_to_vec(self.survival_md5.as_slice()),
            time_lvl2: self.time_lvl2,
            time_lvl3: self.time_lvl3,
            time_lvl4: self.time_lvl4,
            levi_down_time: self.levi_down_time,
            orb_down_time: self.orb_down_time,
            status: self.status,
            max_homing: self.max_homing,
            time_max_homing: self.time_max_homing,
            enemies_alive_max: self.enemies_alive_max,
            time_enemies_alive_max: self.time_enemies_alive_max,
            time_max: self.time_max,
            stats_base: slice_to_vec(self.stats_base.as_slice()),
            stats_frames_loaded: self.stats_frames_loaded,
            stats_finished_loading: self.stats_finished_loading,
            starting_hand: self.starting_hand,
            starting_homing: self.starting_homing,
            starting_time: self.starting_time,
            prohibited_mods: self.prohibited_mods,
            replay_base: slice_to_vec(self.replay_base.as_slice()),
            replay_buffer_length: self.replay_buffer_length,
            replay_flag: self.replay_flag,
            game_mode: self.game_mode,
            is_time_attack_or_race_finished: self.is_time_attack_or_race_finished,
        }
    }
}

impl Frame {
    /// A copy of the frame.
    pub fn copy(&self) -> (r: Frame)
        ensures
            same_frame(r, *self),
    {
        Frame {
            gems_collected: self.gems_collected,
            kills: self.kills,
            daggers_fired: self.daggers_fired,
            daggers_hit: self.daggers_hit,
            enemies_alive: self.enemies_alive,
            level_gems: self.level_gems,
            homing: self.homing,
            gems_despawned: self.gems_despawned,
            gems_eaten: self.gems_eaten,
            gems_total: self.gems_total,
            daggers_eaten: self.daggers_eaten,
            per_enemy_alive_count: slice_to_vec(self.per_enemy_alive_count.as_slice()),
            per_enemy_kill_count: slice_to_vec(self.per_enemy_kill_count.as_slice()),
        }
    }
}

impl Run {
    /// A copy of the run.
    pub fn copy(&self) -> (r: Run)
        ensures
            same_run(r, *self),
    {
        let mut frames: Vec<Frame> = Vec::new();
        let mut i: usize = 0;
        while i < self.frames.frames.len()
            invariant
                i <= self.frames.frames@.len(),
                frames@.len() == i,
                forall|k: int| 0 <= k < i ==> same_frame(#[trigger] frames@[k], self.frames.frames@[k]),
            decreases self.frames.frames@.len() - i,
        {
            frames.push(self.frames.frames[i].copy());
            i = i + 1;
        }
        Run { block: self.block.copy(), frames: Frames { frames } }
    }
}


/// After both updates, every integer statistic of the minimum is at most
/// that of the maximum.
pub proof fn lemma_min_le_max(rmin: Block, rmax: Block, cur_min: Block, cur_max: Block, avg: Block, new: Block)
    requires
        min_counts(rmin, cur_min, avg, new),
        max_counts(rmax, cur_max, avg, new),
    ensures
        rmin.enemies_alive_max <= rmax.enemies_alive_max,
        rmin.max_homing <= rmax.max_homing,
        rmin.daggers_hit <= rmax.daggers_hit,
        rmin.daggers_fired <= rmax.daggers_fired,
        rmin.enemies_alive <= rmax.enemies_alive,
        rmin.kills <= rmax.kills,
        rmin.gems_collected <= rmax.gems_collected,
        rmin.gems_total <= rmax.gems_total,
        rmin.homing <= rmax.homing,
        rmin.daggers_eaten <= rmax.daggers_eaten,
        rmin.gems_eaten <= rmax.gems_eaten,
        rmin.gems_despawned <= rmax.gems_despawned,
{
}

/// A running-average step over at least one run lands between the old
/// average and the new value.
pub proof fn lemma_avg_step_between(avg: int, new: int, d: int)
    requires
        d >= 1,
    ensures
        avg <= new ==> avg <= avg + trunc_div(new - avg, d) <= new,
        new <= avg ==> new <= avg + trunc_div(new - avg, d) <= avg,
{
    reveal(trunc_div);
    let x = new - avg;
    if x > 0 {
        assert(0 <= x / d <= x) by (nonlinear_arith)
            requires
                x > 0,
                d >= 1,
        ;
    } else if x < 0 {
        let y = x * -1;
        assert(0 <= y / d <= y) by (nonlinear_arith)
            requires
                y > 0,
                d >= 1,
        ;
    }
}


/// Whether one running-average step stays within 32-bit arithmetic.
fn step_fits(avg: i32, new: i32, d: i32) -> (r: bool)
    ensures
        r == avg_step_fits(avg as int, new as int, d as int),
{
    reveal(trunc_div);
    if d == 0 {
        return false;
    }
    let diff: i64 = new as i64 - avg as i64;
    if diff < i32::MIN as i64 || diff > i32::MAX as i64 {
        return false;
    }
    let diff32 = diff as i32;
    if diff32 == i32::MIN && d == -1 {
        return false;
    }
    let q = match diff32.checked_div(d) {
        Some(q) => q,
        None => {
            return false;
        },
    };
    let next: i64 = avg as i64 + q as i64;
    next >= i32::MIN as i64 && next <= i32::MAX as i64
}

/// Whether every running-average step of `update_avg` stays within 32-bit
/// arithmetic.
pub fn block_avg_fits(avg: &Block, new: &Block, d: i32) -> (r: bool)
    ensures
        r == avg_fits(*avg, *new, d as int),
{
    step_fits(avg.enemies_alive_max, new.enemies_alive_max, d)
        && step_fits(avg.max_homing, new.max_homing, d)
        && step_fits(avg.daggers_hit, new.daggers_hit, d)
        && step_fits(avg.daggers_fired, new.daggers_fired, d)
        && step_fits(avg.enemies_alive, new.enemies_alive, d)
        && step_fits(avg.kills, new.kills, d)
        && step_fits(avg.gems_collected, new.gems_collected, d)
        && step_fits(avg.gems_total, new.gems_total, d)
        && step_fits(avg.homing, new.homing, d)
        && step_fits(avg.daggers_eaten, new.daggers_eaten, d)
        && step_fits(avg.gems_eaten, new.gems_eaten, d)
        && step_fits(avg.gems_despawned, new.gems_despawned, d)
}

impl SavedData {
    /// The divisor of the running average after one more run is recorded.
    pub fn next_divisor(&self) -> (d: i32)
        requires
            self.recorded_runs < u32::MAX,
        ensures
            d as int == run_divisor((self.recorded_runs + 1) as u32),
    {
        divisor_of(self.recorded_runs + 1)
    }
}

} // verus!
