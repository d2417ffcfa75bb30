//! The modules of the game data table and the figures their rows show.
use vstd::prelude::*;
use crate::consts::{death_type_caps, death_types_caps};
use crate::float_bits::{f32_le, f32_lt, le, lt, magnitude};
use crate::mem::{
    GameStatus, StatsBlockWithFrames, StatsDataBlock, StatsFrame, frames_until, homing_tally,
    homing_tally_fits, lemma_fits_prefix, status_of,
};
use crate::ui::{ExtraSettings, SizeStyle};

verus! {

/// One homing split: name, time (`f32` bit pattern), offset, positive
/// threshold, neutral zone, and the optional gold threshold.
pub type HomingSplit = (String, u32, i32, i32, u32, Option<i32>);

/// A row group of the game data table.
#[derive(Clone, Debug)]
pub enum GameDataModules {
    RunData,
    Timer,
    Gems,
    Homing(SizeStyle),
    Kills,
    Accuracy,
    GemsLost(SizeStyle),
    CollectionAccuracy,
    HomingSplits(Vec<HomingSplit>),
    HomingUsed,
    DaggersEaten,
    FarmEfficiency,
    Spacing,
}

/// The label of the run status row: what the game shows, the way the
/// player died once dead, `CONNECTING` for a status number the game does
/// not use.
pub open spec fn spec_status_label(status: i32, death_type: u8) -> Seq<char> {
    match status_of(status as int) {
        None => "CONNECTING"@,
        Some(s) => match s {
            GameStatus::Menu => "MENU"@,
            GameStatus::Lobby => "LOBBY"@,
            GameStatus::Dead => death_types_caps()[death_type as int],
            GameStatus::Title => "TITLE"@,
            GameStatus::Playing => "ALIVE"@,
            GameStatus::LocalReplay => "LOCAL REPLAY"@,
            _ => "REPLAY"@,
        },
    }
}

/// The label of the run status row (a dead player's death type is one of
/// the game's seventeen).
pub fn status_label(status: i32, death_type: u8) -> (s: &'static str)
    requires
        status == 4 ==> death_type < 17,
    ensures
        s@ == spec_status_label(status, death_type),
{
    match GameStatus::from_i32(status) {
        None => "CONNECTING",
        Some(st) => match st {
            GameStatus::Menu => "MENU",
            GameStatus::Lobby => "LOBBY",
            GameStatus::Dead => death_type_caps(death_type as usize).unwrap(),
            GameStatus::Title => "TITLE",
            GameStatus::Playing => "ALIVE",
            GameStatus::LocalReplay => "LOCAL REPLAY",
            _ => "REPLAY",
        },
    }
}

/// The homing count of the newest frame (as `u32`), 0 before any frame.
pub fn get_homing(data: &StatsBlockWithFrames) -> (r: u32)
    ensures
        r == (if data.frames@.len() > 0 { data.frames@.last().homing as u32 } else { 0u32 }),
{
    if data.frames.len() > 0 {
        data.frames[data.frames.len() - 1].homing as u32
    } else {
        0
    }
}

/// The gems lost so far: eaten and despawned.
pub fn gems_lost(block: &StatsDataBlock) -> (r: i64)
    ensures
        r == block.gems_eaten + block.gems_despawned,
{
    block.gems_eaten as i64 + block.gems_despawned as i64
}

/// The time of the homing peak shown: 0 before level 3 is reached (the
/// level 3 time still zero), else the recorded time (`f32` bit patterns).
pub fn homing_peak_time(block: &StatsDataBlock) -> (r: u32)
    ensures
        r == (if magnitude(block.time_lvl3) == 0 { 0u32 } else { block.time_max_homing }),
{
    if block.time_lvl3 & 0x7fff_ffff == 0 {
        0
    } else {
        block.time_max_homing
    }
}

/// The whole-number parts of the farm efficiency at the end of the farm
/// (second 363 of a run from the start): skulls' gems collected by then
/// (gems collected less 285 less those spent, the spent ones being gems less
/// homing less 220) and the kill baseline (kills less 127, plus enemies
/// alive less one). `None` without that frame or when the run did not start
/// at 0.
pub open spec fn spec_farm_counts(data: StatsBlockWithFrames) -> Option<(int, int)> {
    if data.frames@.len() > 363 && le(data.block.starting_time, 0) {
        let f = data.frames@[363];
        let used = f.gems_collected - f.homing - 220;
        Some((f.gems_collected - 285 - used, f.kills - 127 + (f.enemies_alive - 1)))
    } else {
        None
    }
}

/// The whole-number parts of the farm efficiency.
pub fn farm_counts(data: &StatsBlockWithFrames) -> (r: Option<(i64, i64)>)
    ensures
        match r {
            Some((e, k)) => spec_farm_counts(*data) == Some((e as int, k as int)),
            None => spec_farm_counts(*data) is None,
        },
{
    if data.frames.len() > 363 && f32_le(data.block.starting_time, 0) {
        let f = data.frames[363];
        let used: i64 = f.gems_collected as i64 - f.homing as i64 - 220;
        let elite: i64 = f.gems_collected as i64 - 285 - used;
        let baseline: i64 = f.kills as i64 - 127 + (f.enemies_alive as i64 - 1);
        Some((elite, baseline))
    } else {
        None
    }
}

/// The style a split's difference is shown in.
#[derive(Clone, Copy, Debug, PartialEq, Eq, Structural)]
pub enum SplitStyle {
    Gold,
    Neutral,
    Positive,
    Negative,
}

/// The style of a split's difference: gold at or above the gold threshold,
/// neutral within the neutral zone (as `i32`) around the positive
/// threshold, positive above it, negative below.
pub open spec fn spec_split_style(diff: int, positive: i32, neutral: u32, gold: Option<i32>) -> SplitStyle {
    let n = (neutral as i32) as int;
    if gold matches Some(g) && diff >= g {
        SplitStyle::Gold
    } else if diff <= positive + n && diff >= positive - n {
        SplitStyle::Neutral
    } else if diff > positive {
        SplitStyle::Positive
    } else {
        SplitStyle::Negative
    }
}

/// The style of a split's difference.
pub fn split_style(diff: i64, positive: i32, neutral: u32, gold: Option<i32>) -> (r: SplitStyle)
    ensures
        r == spec_split_style(diff as int, positive, neutral, gold),
{
    let n = (neutral as i32) as i64;
    let p = positive as i64;
    match gold {
        Some(g) => {
            if diff >= g as i64 {
                return SplitStyle::Gold;
            }
        },
        None => {},
    }
    if diff <= p + n && diff >= p - n {
        SplitStyle::Neutral
    } else if diff > p {
        SplitStyle::Positive
    } else {
        SplitStyle::Negative
    }
}

/// The split in progress: the first one whose time the run timer has not
/// reached, from `from` on (0 when the timer is past them all).
pub open spec fn first_split_after(splits: Seq<HomingSplit>, timer: u32, from: int) -> int
    decreases splits.len() - from,
{
    if from < 0 || from >= splits.len() {
        0
    } else if lt(timer, splits[from].1) {
        from
    } else {
        first_split_after(splits, timer, from + 1)
    }
}

/// The index of the split in progress.
pub fn current_split_index(splits: &Vec<HomingSplit>, real_timer: u32) -> (r: usize)
    ensures
        r == first_split_after(splits@, real_timer, 0),
        splits@.len() > 0 ==> r < splits@.len(),
        splits@.len() == 0 ==> r == 0,
{
    let mut i: usize = 0;
    while i < splits.len()
        invariant
            i <= splits@.len(),
            first_split_after(splits@, real_timer, i as int) == first_split_after(splits@, real_timer, 0),
            forall|k: int| 0 <= k < i ==> !lt(real_timer, #[trigger] splits@[k].1),
        decreases splits@.len() - i,
    {
        if f32_lt(real_timer, splits[i].1) {
            return i;
        }
        i = i + 1;
    }
    0
}

/// What the float arithmetic of a split gives, worked out by the caller
/// from the split's time and the previous split's time: the frame at each
/// time (`get_frame_for_time`), and the whole seconds since the run's start
/// at each (the cut-offs for the homing used).
#[derive(Clone, Copy, Debug)]
pub struct SplitLookup {
    pub frame_at_time: Option<usize>,
    pub frame_at_prev: Option<usize>,
    pub usage_cutoff: usize,
    pub prev_usage_cutoff: usize,
}

/// The figures of a reached split.
#[derive(Clone, Copy, Debug, PartialEq, Eq, Structural)]
pub struct SplitFigures {
    /// The name shown is the run timer in whole seconds (live split with
    /// live naming on), not the split's name.
    pub timer_as_name: bool,
    /// Homing at the split.
    pub homing: i32,
    /// Difference to the plan: offset less the homing lost since the
    /// previous split.
    pub diff: i64,
    pub style: SplitStyle,
    /// Gems collected since the previous split.
    pub collected: i64,
    /// Homing used since the previous split.
    pub usage: i64,
    /// The split is the one in progress of a live run.
    pub is_live: bool,
}

/// A row of the splits module.
#[derive(Clone, Copy, Debug, PartialEq, Eq, Structural)]
pub enum SplitRow {
    /// A split not reached yet (or not in play), shown as a placeholder.
    Placeholder,
    /// A reached split.
    Shown(SplitFigures),
}

/// Homing used in the frames before a cut-off second.
pub open spec fn usage_at(frames: Seq<StatsFrame>, cutoff: int) -> int {
    let t = homing_tally(frames.take(frames_until(frames.len() as int, cutoff)));
    t.0 + t.1
}

/// Whether the frame indices of a lookup lie in the frames.
pub open spec fn lookup_valid(l: SplitLookup, len: int) -> bool {
    &&& (l.frame_at_time matches Some(k) ==> k < len)
    &&& (l.frame_at_prev matches Some(k) ==> k < len)
    &&& l.usage_cutoff < usize::MAX
    &&& l.prev_usage_cutoff < usize::MAX
}

/// The row of split `i` (`None`: not shown). `real_timer` is the run timer
/// including the starting time, `max_cutoff` the whole seconds of the
/// run's time, `current` the split in progress.
pub open spec fn spec_split_row(
    i: int,
    splits: Seq<HomingSplit>,
    data: StatsBlockWithFrames,
    extra: ExtraSettings,
    real_timer: u32,
    current: int,
    l: SplitLookup,
    max_cutoff: int,
    live_change: bool,
) -> Option<SplitRow> {
    let (name, time, offset, positive, neutral, gold) = splits[i];
    let b = data.block;
    let fs = data.frames@;
    if lt(time, b.starting_time) || (le(real_timer, time) && i != current) || fs.len() == 0 {
        if extra.homing_always_visible { Some(SplitRow::Placeholder) } else { None }
    } else if !(b.is_replay || b.is_in_game || extra.homing_always_visible) {
        None
    } else {
        let at = match l.frame_at_time { Some(k) => fs[k as int], None => fs.last() };
        let hom = at.homing;
        let col = at.gems_collected;
        let prev_homing: Option<int> = if i == 0 { Some(0) } else {
            match l.frame_at_prev { Some(k) => Some(fs[k as int].homing as int), None => None }
        };
        let diff = match prev_homing {
            Some(h) => offset - (h - hom),
            None => offset - (b.starting_homing - hom),
        };
        let collected = if i == 0 {
            match l.frame_at_time { Some(k) => fs[k as int].gems_collected as int, None => b.gems_collected as int }
        } else {
            match l.frame_at_prev { Some(k) => col - fs[k as int].gems_collected, None => col as int }
        };
        let usage = if i == 0 {
            if l.frame_at_time is Some { usage_at(fs, l.usage_cutoff as int) } else { usage_at(fs, max_cutoff) }
        } else if l.frame_at_time is Some {
            usage_at(fs, l.usage_cutoff as int) - usage_at(fs, l.prev_usage_cutoff as int)
        } else {
            usage_at(fs, max_cutoff) - usage_at(fs, l.prev_usage_cutoff as int)
        };
        let is_live = i == current && b.is_in_game && !b.is_replay;
        Some(SplitRow::Shown(SplitFigures {
            timer_as_name: live_change && is_live,
            homing: hom,
            diff: diff as i64,
            style: spec_split_style(diff, positive, neutral, gold),
            collected: collected as i64,
            usage: usage as i64,
            is_live,
        }))
    }
}

/// Homing used in the frames before a cut-off second.
fn usage_until(data: &StatsBlockWithFrames, cutoff: usize) -> (r: i64)
    requires
        cutoff < usize::MAX,
        data.frames@.len() <= 0x100_0000,
        homing_tally_fits(data.frames@),
    ensures
        r == usage_at(data.frames@, cutoff as int),
        0 <= r <= u32::MAX,
{
    proof {
        let n = frames_until(data.frames@.len() as int, cutoff as int);
        lemma_fits_prefix(data.frames@, n);
    }
    data.homing_usage_from_frames(cutoff) as i64
}

/// The row of split `i`.
pub fn split_row(
    i: usize,
    splits: &Vec<HomingSplit>,
    data: &StatsBlockWithFrames,
    extra: ExtraSettings,
    real_timer: u32,
    current: usize,
    l: SplitLookup,
    max_cutoff: usize,
    live_change: bool,
) -> (r: Option<SplitRow>)
    requires
        i < splits@.len(),
        lookup_valid(l, data.frames@.len() as int),
        max_cutoff < usize::MAX,
        data.frames@.len() <= 0x100_0000,
        homing_tally_fits(data.frames@),
    ensures
        r == spec_split_row(i as int, splits@, *data, extra, real_timer, current as int, l, max_cutoff as int, live_change),
{
    let time = splits[i].1;
    let offset = splits[i].2;
    let positive = splits[i].3;
    let neutral = splits[i].4;
    let gold = splits[i].5;
    let b = &data.block;
    let n = data.frames.len();
    if f32_lt(time, b.starting_time) || (f32_le(real_timer, time) && i != current) || n == 0 {
        return if extra.homing_always_visible { Some(SplitRow::Placeholder) } else { None };
    }
    if !(b.is_replay || b.is_in_game || extra.homing_always_visible) {
        return None;
    }
    let at = match l.frame_at_time {
        Some(k) => data.frames[k],
        None => data.frames[n - 1],
    };
    let hom = at.homing;
    let col = at.gems_collected;
    let prev_homing: Option<i32> = if i == 0 {
        Some(0)
    } else {
        match l.frame_at_prev {
            Some(k) => Some(data.frames[k].homing),
            None => None,
        }
    };
    let diff: i64 = match prev_homing {
        Some(h) => offset as i64 - (h as i64 - hom as i64),
        None => offset as i64 - (b.starting_homing as i64 - hom as i64),
    };
    let collected: i64 = if i == 0 {
        match l.frame_at_time {
            Some(k) => data.frames[k].gems_collected as i64,
            None => b.gems_collected as i64,
        }
    } else {
        match l.frame_at_prev {
            Some(k) => col as i64 - data.frames[k].gems_collected as i64,
            None => col as i64,
        }
    };
    let usage: i64 = if i == 0 {
        if l.frame_at_time.is_some() {
            usage_until(data, l.usage_cutoff)
        } else {
            usage_until(data, max_cutoff)
        }
    } else if l.frame_at_time.is_some() {
        usage_until(data, l.usage_cutoff) - usage_until(data, l.prev_usage_cutoff)
    } else {
        usage_until(data, max_cutoff) - usage_until(data, l.prev_usage_cutoff)
    };
    let is_live = i == current && b.is_in_game && !b.is_replay;
    Some(SplitRow::Shown(SplitFigures {
        timer_as_name: live_change && is_live,
        homing: hom,
        diff,
        style: split_style(diff, positive, neutral, gold),
        collected,
        usage,
        is_live,
    }))
}

/// The rows of the splits module, one per split (`None`: not shown).
pub fn homing_splits_rows(
    splits: &Vec<HomingSplit>,
    data: &StatsBlockWithFrames,
    extra: ExtraSettings,
    real_timer: u32,
    lookups: &Vec<SplitLookup>,
    max_cutoff: usize,
    live_change: bool,
) -> (r: Vec<Option<SplitRow>>)
    requires
        lookups@.len() == splits@.len(),
        forall|k: int| 0 <= k < lookups@.len() ==> lookup_valid(#[trigger] lookups@[k], data.frames@.len() as int),
        max_cutoff < usize::MAX,
        data.frames@.len() <= 0x100_0000,
        homing_tally_fits(data.frames@),
    ensures
        r@.len() == splits@.len(),
        forall|k: int| 0 <= k < r@.len() ==> #[trigger] r@[k] == spec_split_row(
            k, splits@, *data, extra, real_timer, first_split_after(splits@, real_timer, 0),
            lookups@[k], max_cutoff as int, live_change,
        ),
{
    let current = current_split_index(splits, real_timer);
    let mut out: Vec<Option<SplitRow>> = Vec::new();
    let mut i: usize = 0;
    while i < splits.len()
        invariant
            i <= splits@.len(),
            lookups@.len() == splits@.len(),
            forall|k: int| 0 <= k < lookups@.len() ==> lookup_valid(#[trigger] lookups@[k], data.frames@.len() as int),
            max_cutoff < usize::MAX,
            data.frames@.len() <= 0x100_0000,
            homing_tally_fits(data.frames@),
            current == first_split_after(splits@, real_timer, 0),
            out@.len() == i,
            forall|k: int| 0 <= k < i ==> #[trigger] out@[k] == spec_split_row(
                k, splits@, *data, extra, real_timer, current as int, lookups@[k], max_cutoff as int, live_change,
            ),
        decreases splits@.len() - i,
    {
        let row = split_row(i, splits, data, extra, real_timer, current, lookups[i], max_cutoff, live_change);
        out.push(row);
        i = i + 1;
    }
    out
}

} // verus!
