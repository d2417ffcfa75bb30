//! Discord rich presence: when the player's leaderboard entry is fetched,
//! which dagger is shown, when the presence connection opens and closes,
//! and what the presence says.
use vstd::prelude::*;
use vstd::string::*;
use crate::client::ConnectionState;
use crate::consts::{death_type_name, death_types};
use crate::float_bits::{f64_le, le64};
use crate::mem::{StatsBlockWithFrames, status_of};
use crate::text::{dec_int, push_dec_i64, push_str};

verus! {

/// The rich presence task (its IPC client lives with the caller).
pub struct RichPresenceClient;

/// The application id the presence is published under.
pub const DISCORD_APP_ID: &'static str = "897951249507450880";

/// How many times the player's leaderboard entry is asked for.
pub const LB_FETCH_TRIES: u32 = 15;

/// `1000.0f64`, `500.0f64`, `250.0f64`, `120.0f64` and `60.0f64` as bit
/// patterns: the dagger thresholds.
pub const LEVI_SECONDS: u64 = 0x408f_4000_0000_0000;
pub const DEVIL_SECONDS: u64 = 0x407f_4000_0000_0000;
pub const GOLD_SECONDS: u64 = 0x406f_4000_0000_0000;
pub const SILVER_SECONDS: u64 = 0x405e_0000_0000_0000;
pub const BRONZE_SECONDS: u64 = 0x404e_0000_0000_0000;

/// Whether the player's leaderboard entry is asked for on this tick: not
/// known yet, the game attached, tries left, and a player id.
pub fn should_fetch_entry(have_entry: bool, conn: ConnectionState, tries: u32, player_id: i32) -> (r: bool)
    ensures
        r == (!have_entry && conn == ConnectionState::Connected && tries < LB_FETCH_TRIES && player_id != 0),
{
    !have_entry && conn == ConnectionState::Connected && tries < LB_FETCH_TRIES && player_id != 0
}

/// What the presence task remembers of its leaderboard fetches: whether an
/// entry has come back, and how many fetches it has made.
#[derive(Clone, Copy, Debug, PartialEq, Eq, Structural)]
pub struct EntryFetcher {
    pub have_entry: bool,
    pub tries: u32,
}

/// The fetcher after a tick and whether it fetches on that tick (it fetches
/// for the player of the newest record, and counts the try); `got` is
/// whether that fetch brings the entry back.
pub open spec fn spec_fetch_tick(f: EntryFetcher, conn: ConnectionState, player_id: i32, got: bool)
    -> (EntryFetcher, bool)
{
    if !f.have_entry && conn == ConnectionState::Connected && f.tries < LB_FETCH_TRIES && player_id != 0 {
        (EntryFetcher { have_entry: got, tries: (f.tries + 1) as u32 }, true)
    } else {
        (f, false)
    }
}

impl EntryFetcher {
    /// No entry yet and no fetch made.
    pub fn new() -> (f: Self)
        ensures
            f == (EntryFetcher { have_entry: false, tries: 0 }),
    {
        EntryFetcher { have_entry: false, tries: 0 }
    }

    /// The player whose entry is fetched on this tick, if any; the try is
    /// counted.
    pub fn begin_tick(&mut self, conn: ConnectionState, player_id: i32) -> (r: Option<i32>)
        requires
            old(self).tries <= LB_FETCH_TRIES,
        ensures
            r == (if spec_fetch_tick(*old(self), conn, player_id, false).1 { Some(player_id) } else { None::<i32> }),
            final(self).have_entry == old(self).have_entry,
            final(self).tries == spec_fetch_tick(*old(self), conn, player_id, false).0.tries,
            final(self).tries <= LB_FETCH_TRIES,
    {
        if should_fetch_entry(self.have_entry, conn, self.tries, player_id) {
            self.tries = self.tries + 1;
            Some(player_id)
        } else {
            None
        }
    }

    /// Notes whether the fetch of this tick brought the entry back.
    pub fn fetched(&mut self, got: bool)
        ensures
            *final(self) == (EntryFetcher { have_entry: old(self).have_entry || got, ..*old(self) }),
    {
        self.have_entry = self.have_entry || got;
    }
}

/// The fetcher after a run of ticks (the state of the game and the
/// player of the newest record on each, and whether a fetch made on it
/// succeeds), with the number of fetches made.
pub open spec fn spec_fetch_ticks(f: EntryFetcher, ticks: Seq<(ConnectionState, i32, bool)>) -> (EntryFetcher, nat)
    decreases ticks.len(),
{
    if ticks.len() == 0 {
        (f, 0)
    } else {
        let prev = spec_fetch_ticks(f, ticks.drop_last());
        let t = ticks.last();
        let r = spec_fetch_tick(prev.0, t.0, t.1, t.2);
        (r.0, if r.1 { prev.1 + 1 } else { prev.1 })
    }
}

/// Over the whole life of the presence task the leaderboard is asked at
/// most fifteen times: every fetch is counted, and none is made once
/// fifteen are counted or once an entry came back.
pub proof fn lemma_fetches_bounded(ticks: Seq<(ConnectionState, i32, bool)>)
    ensures
        spec_fetch_ticks(EntryFetcher { have_entry: false, tries: 0 }, ticks).1 <= LB_FETCH_TRIES,
        spec_fetch_ticks(EntryFetcher { have_entry: false, tries: 0 }, ticks).0.tries
            == spec_fetch_ticks(EntryFetcher { have_entry: false, tries: 0 }, ticks).1,
    decreases ticks.len(),
{
    if ticks.len() > 0 {
        lemma_fetches_bounded(ticks.drop_last());
    }
}

/// The dagger of a leaderboard time (an `f64` bit pattern; `None` before
/// the entry is known).
pub open spec fn spec_dagger(time: Option<u64>) -> Seq<char> {
    match time {
        None => "pleb"@,
        Some(t) => {
            if le64(LEVI_SECONDS, t) { "levi"@ }
            else if le64(DEVIL_SECONDS, t) { "devil"@ }
            else if le64(GOLD_SECONDS, t) { "gold"@ }
            else if le64(SILVER_SECONDS, t) { "silver"@ }
            else if le64(BRONZE_SECONDS, t) { "bronze"@ }
            else { "pleb"@ }
        },
    }
}

/// The dagger shown as the large image.
pub fn dagger_for_time(time: Option<u64>) -> (r: &'static str)
    ensures
        r@ == spec_dagger(time),
{
    match time {
        None => "pleb",
        Some(t) => {
            if f64_le(LEVI_SECONDS, t) { "levi" }
            else if f64_le(DEVIL_SECONDS, t) { "devil" }
            else if f64_le(GOLD_SECONDS, t) { "gold" }
            else if f64_le(SILVER_SECONDS, t) { "silver" }
            else if f64_le(BRONZE_SECONDS, t) { "bronze" }
            else { "pleb" }
        },
    }
}

/// What the presence loop tries on a tick before any update.
#[derive(Clone, Copy, Debug, PartialEq, Eq, Structural)]
pub enum RpcStep {
    /// Open the presence connection (the game just got attached).
    TryConnect,
    /// Close the presence connection (the game is no longer attached).
    TryClose,
    /// Not connected and nothing to open: no update.
    Skip,
    /// Connected with the game attached: update the presence.
    Update,
}

/// The step of a tick.
pub fn rpc_step(rpc_connected: bool, conn: ConnectionState) -> (r: RpcStep)
    ensures
        r == (if !rpc_connected && conn == ConnectionState::Connected { RpcStep::TryConnect }
            else if rpc_connected && conn != ConnectionState::Connected { RpcStep::TryClose }
            else if !rpc_connected { RpcStep::Skip }
            else { RpcStep::Update }),
{
    if !rpc_connected && conn == ConnectionState::Connected {
        RpcStep::TryConnect
    } else if rpc_connected && conn != ConnectionState::Connected {
        RpcStep::TryClose
    } else if !rpc_connected {
        RpcStep::Skip
    } else {
        RpcStep::Update
    }
}

/// After a step: whether the presence connection is open, and whether the
/// presence is updated on this tick. An opened connection waits for the
/// next tick; a close that failed leaves it open and updates.
pub fn rpc_after(step: RpcStep, succeeded: bool, rpc_connected: bool) -> (r: (bool, bool))
    ensures
        r == (match step {
            RpcStep::TryConnect => (succeeded, false),
            RpcStep::TryClose => if succeeded { (false, false) } else { (rpc_connected, rpc_connected) },
            RpcStep::Skip => (rpc_connected, false),
            RpcStep::Update => (rpc_connected, true),
        }),
{
    match step {
        RpcStep::TryConnect => (succeeded, false),
        RpcStep::TryClose => if succeeded { (false, false) } else { (rpc_connected, rpc_connected) },
        RpcStep::Skip => (rpc_connected, false),
        RpcStep::Update => (rpc_connected, true),
    }
}

/// The presence shown.
#[derive(Clone, Debug)]
pub struct Presence {
    pub state: String,
    pub details: String,
    pub large_image: &'static str,
    pub large_text: &'static str,
    /// The small image and its text, shown from level 3 on.
    pub small: Option<(&'static str, String)>,
}

/// The state line: the prefix, then the homing count at level 3 (`LVL3`)
/// or 4, or the level, and the time.
pub open spec fn presence_state(prefix: Seq<char>, level_gems: i32, homing: i32, time: Seq<char>) -> Seq<char> {
    if level_gems == 71 {
        prefix + dec_int(homing as int) + " at "@ + time + "s"@
    } else if level_gems == 70 {
        prefix + dec_int(homing as int) + " LVL3 at "@ + time + "s"@
    } else if level_gems >= 10 {
        prefix + "Level 2 at "@ + time + "s"@
    } else {
        prefix + "Level 1 at "@ + time + "s"@
    }
}

/// The details line: gems collected and lost.
pub open spec fn presence_details(data: StatsBlockWithFrames) -> Seq<char> {
    let b = data.block;
    dec_int(b.gems_collected as int) + " Gems ("@ + dec_int(b.gems_eaten + b.gems_despawned) + " Lost)"@
}

/// The presence of a record, `time` being the run time with four
/// decimals. Once dead, the way of death and the newest frame tell the
/// state; in a replay the block does, after `Replay | `; else the block
/// alone. `None` where the status number, the death type or the frames
/// cannot be read (the task stops there).
pub open spec fn spec_presence_parts(data: StatsBlockWithFrames, time: Seq<char>) -> Option<(Seq<char>, i32, i32)> {
    let b = data.block;
    if status_of(b.status as int) is None {
        None
    } else if b.status == 4 {
        if b.death_type >= 17 || data.frames@.len() == 0 {
            None
        } else {
            let f = data.frames@.last();
            Some((death_types()[b.death_type as int] + " | "@, f.level_gems, f.homing))
        }
    } else if b.is_replay {
        Some(("Replay | "@, b.level_gems, b.homing))
    } else {
        Some((Seq::empty(), b.level_gems, b.homing))
    }
}

fn push_state(s: &mut String, level_gems: i32, homing: i32, time: &str)
    ensures
        final(s)@ == presence_state(old(s)@, level_gems, homing, time@),
{
    if level_gems == 71 {
        push_dec_i64(s, homing as i64);
        push_str(s, " at ");
    } else if level_gems == 70 {
        push_dec_i64(s, homing as i64);
        push_str(s, " LVL3 at ");
    } else if level_gems >= 10 {
        push_str(s, "Level 2 at ");
    } else {
        push_str(s, "Level 1 at ");
    }
    push_str(s, time);
    push_str(s, "s");
}

/// The presence of a record.
pub fn presence(data: &StatsBlockWithFrames, dagger: &'static str, time: &str) -> (r: Option<Presence>)
    ensures
        r is Some <==> spec_presence_parts(*data, time@) is Some,
        r matches Some(p) ==> {
            let (prefix, level_gems, homing) = spec_presence_parts(*data, time@)->0;
            &&& p.state@ == presence_state(prefix, level_gems, homing, time@)
            &&& p.details@ == presence_details(*data)
            &&& p.large_image == dagger
            &&& p.large_text@ == "Playing V3"@
            &&& (level_gems == 70 || level_gems == 71) ==> (p.small matches Some((img, txt))
                && img@ == "homing_colored"@ && txt@ == dec_int(homing as int) + " Homing"@)
            &&& !(level_gems == 70 || level_gems == 71) ==> p.small is None
        },
{
    let b = &data.block;
    if crate::mem::GameStatus::from_i32(b.status).is_none() {
        return None;
    }
    let mut state = String::new();
    let level_gems: i32;
    let homing: i32;
    if b.status == 4 {
        let n = data.frames.len();
        let death = match death_type_name(b.death_type as usize) {
            Some(d) => d,
            None => {
                return None;
            },
        };
        if n == 0 {
            return None;
        }
        let f = data.frames[n - 1];
        push_str(&mut state, death);
        push_str(&mut state, " | ");
        level_gems = f.level_gems;
        homing = f.homing;
    } else if b.is_replay {
        push_str(&mut state, "Replay | ");
        level_gems = b.level_gems;
        homing = b.homing;
    } else {
        level_gems = b.level_gems;
        homing = b.homing;
    }
    let ghost prefix = state@;
    push_state(&mut state, level_gems, homing, time);
    let mut details = String::new();
    push_dec_i64(&mut details, b.gems_collected as i64);
    push_str(&mut details, " Gems (");
    push_dec_i64(&mut details, b.gems_eaten as i64 + b.gems_despawned as i64);
    push_str(&mut details, " Lost)");
    let small = if level_gems == 70 || level_gems == 71 {
        let mut t = String::new();
        push_dec_i64(&mut t, homing as i64);
        push_str(&mut t, " Homing");
        Some(("homing_colored", t))
    } else {
        None
    };
    proof {
        assert(prefix =~= (spec_presence_parts(*data, time@)->0).0);
    }
    Some(Presence { state, details, large_image: dagger, large_text: "Playing V3", small })
}


/// The rank of a dagger, from `pleb` (0) to `levi` (5).
pub open spec fn dagger_rank(time: u64) -> int {
    if le64(LEVI_SECONDS, time) { 5 }
    else if le64(DEVIL_SECONDS, time) { 4 }
    else if le64(GOLD_SECONDS, time) { 3 }
    else if le64(SILVER_SECONDS, time) { 2 }
    else if le64(BRONZE_SECONDS, time) { 1 }
    else { 0 }
}

/// A better leaderboard time never shows a lesser dagger.
pub proof fn lemma_dagger_monotone(a: u64, b: u64)
    requires
        le64(a, b),
    ensures
        dagger_rank(a) <= dagger_rank(b),
{
    assert(crate::float_bits::order_key64(LEVI_SECONDS) > 0) by (bit_vector);
    assert(crate::float_bits::order_key64(DEVIL_SECONDS) > 0) by (bit_vector);
    assert(crate::float_bits::order_key64(GOLD_SECONDS) > 0) by (bit_vector);
    assert(crate::float_bits::order_key64(SILVER_SECONDS) > 0) by (bit_vector);
    assert(crate::float_bits::order_key64(BRONZE_SECONDS) > 0) by (bit_vector);
}

/// Once the player is dead, the presence tells the level and the homing
/// count of the newest frame of the run, after the way of death: with the
/// same block and the same newest frame, the earlier frames change
/// nothing, and a run that ended at level 4 shows its homing count.
pub proof fn lemma_dead_presence_uses_newest_frame(
    a: StatsBlockWithFrames,
    b: StatsBlockWithFrames,
    time: Seq<char>,
)
    requires
        a.block.status == 4,
        a.block.death_type < 17,
        a.frames@.len() > 0,
    ensures
        spec_presence_parts(a, time) == Some((
            death_types()[a.block.death_type as int] + " | "@,
            a.frames@[a.frames@.len() - 1].level_gems,
            a.frames@[a.frames@.len() - 1].homing,
        )),
        a.frames@[a.frames@.len() - 1].level_gems == 71 ==> presence_state(
            death_types()[a.block.death_type as int] + " | "@,
            a.frames@[a.frames@.len() - 1].level_gems,
            a.frames@[a.frames@.len() - 1].homing,
            time,
        ) == death_types()[a.block.death_type as int] + " | "@
            + dec_int(a.frames@[a.frames@.len() - 1].homing as int) + " at "@ + time + "s"@,
        b.block == a.block && b.frames@.len() > 0
            && b.frames@[b.frames@.len() - 1] == a.frames@[a.frames@.len() - 1]
            ==> spec_presence_parts(b, time) == spec_presence_parts(a, time),
{
}

/// The dagger shown for a leaderboard time is the one of its rank (so a
/// better time never shows a lesser dagger), and before the entry is
/// known the plain one.
pub proof fn lemma_dagger_names(t: u64)
    ensures
        spec_dagger(None) == "pleb"@,
        dagger_rank(t) == 5 <==> spec_dagger(Some(t)) == "levi"@ && le64(LEVI_SECONDS, t),
        dagger_rank(t) == 5 ==> spec_dagger(Some(t)) == "levi"@,
        dagger_rank(t) == 4 ==> spec_dagger(Some(t)) == "devil"@,
        dagger_rank(t) == 3 ==> spec_dagger(Some(t)) == "gold"@,
        dagger_rank(t) == 2 ==> spec_dagger(Some(t)) == "silver"@,
        dagger_rank(t) == 1 ==> spec_dagger(Some(t)) == "bronze"@,
        dagger_rank(t) == 0 ==> spec_dagger(Some(t)) == "pleb"@,
{
    reveal_strlit("levi");
    reveal_strlit("devil");
    reveal_strlit("gold");
    reveal_strlit("silver");
    reveal_strlit("bronze");
    reveal_strlit("pleb");
}

} // verus!
