//! The game's statistics block and its per-second frames, as the stats
//! client reads them out of the game process.
//!
//! `f32` fields are held as their IEEE-754 bit patterns (`f32::to_bits`).
use vstd::prelude::*;
use vstd::string::*;
use crate::text::{push_char, take_until_nul, until_nul, utf8_decode};

verus! {

/// One recorded second of a run.
#[derive(Clone, Copy, Debug, Default)]
pub struct StatsFrame {
    pub gems_collected: i32,
    pub kills: i32,
    pub daggers_fired: i32,
    pub daggers_hit: i32,
    pub enemies_alive: i32,
    pub level_gems: i32,
    pub homing: i32,
    pub gems_despawned: i32,
    pub gems_eaten: i32,
    pub gems_total: i32,
    pub daggers_eaten: i32,
    pub per_enemy_alive_count: [i16; 17],
    pub per_enemy_kill_count: [i16; 17],
}

/// The statistics block of the game (times are `f32` bit patterns).
#[derive(Clone, Copy, Debug, Default)]
pub struct StatsDataBlock {
    pub ddstats_version: i32,
    pub player_id: i32,
    pub username: [u8; 32],
    pub time: u32,
    pub gems_collected: i32,
    pub kills: i32,
    pub daggers_fired: i32,
    pub daggers_hit: i32,
    pub enemies_alive: i32,
    pub level_gems: i32,
    pub homing: i32,
    pub gems_despawned: i32,
    pub gems_eaten: i32,
    pub gems_total: i32,
    pub daggers_eaten: i32,
    pub per_enemy_alive_count: [i16; 17],
    pub per_enemy_kill_count: [i16; 17],
    pub is_player_alive: bool,
    pub is_replay: bool,
    pub death_type: u8,
    pub is_in_game: bool,
    pub replay_player_id: i32,
    pub replay_player_name: [u8; 32],
    pub survival_md5: [u8; 16],
    pub time_lvl2: u32,
    pub time_lvl3: u32,
    pub time_lvl4: u32,
    pub levi_down_time: u32,
    pub orb_down_time: u32,
    pub status: i32,
    pub max_homing: i32,
    pub time_max_homing: u32,
    pub enemies_alive_max: i32,
    pub time_enemies_alive_max: u32,
    pub time_max: u32,
    pub stats_base: [u8; 8],
    pub stats_frames_loaded: i32,
    pub stats_finished_loading: bool,
    pub starting_hand: i32,
    pub starting_homing: i32,
    pub starting_time: u32,
    pub prohibited_mods: bool,
    pub replay_base: [u8; 8],
    pub replay_buffer_length: i32,
    pub replay_flag: bool,
    pub game_mode: u8,
    pub is_time_attack_or_race_finished: bool,
}

/// A statistics block together with the frames recorded so far.
#[derive(Clone, Debug, Default)]
pub struct StatsBlockWithFrames {
    pub block: StatsDataBlock,
    pub frames: Vec<StatsFrame>,
}

/// What the game is showing, as its status number says.
#[derive(Clone, Copy, Debug, PartialEq, Eq, Structural)]
pub enum GameStatus {
    Title,
    Menu,
    Lobby,
    Playing,
    Dead,
    OwnReplayFromLastRun,
    OwnReplayFromLeaderboard,
    OtherReplay,
    LocalReplay,
}

/// The status with number `v`, if there is one.
pub open spec fn status_of(v: int) -> Option<GameStatus> {
    if v == 0 { Some(GameStatus::Title) }
    else if v == 1 { Some(GameStatus::Menu) }
    else if v == 2 { Some(GameStatus::Lobby) }
    else if v == 3 { Some(GameStatus::Playing) }
    else if v == 4 { Some(GameStatus::Dead) }
    else if v == 5 { Some(GameStatus::OwnReplayFromLastRun) }
    else if v == 6 { Some(GameStatus::OwnReplayFromLeaderboard) }
    else if v == 7 { Some(GameStatus::OtherReplay) }
    else if v == 8 { Some(GameStatus::LocalReplay) }
    else { None }
}

/// The number of a status.
pub open spec fn status_number(s: GameStatus) -> int {
    match s {
        GameStatus::Title => 0,
        GameStatus::Menu => 1,
        GameStatus::Lobby => 2,
        GameStatus::Playing => 3,
        GameStatus::Dead => 4,
        GameStatus::OwnReplayFromLastRun => 5,
        GameStatus::OwnReplayFromLeaderboard => 6,
        GameStatus::OtherReplay => 7,
        GameStatus::LocalReplay => 8,
    }
}

/// Status numbers and statuses correspond one to one.
pub proof fn lemma_status_numbers(s: GameStatus)
    ensures
        status_of(status_number(s)) == Some(s),
{
}

impl GameStatus {
    /// The status with number `v` (`FromPrimitive::from_i32`).
    pub fn from_i32(v: i32) -> (r: Option<GameStatus>)
        ensures
            r == status_of(v as int),
    {
        match v {
            0 => Some(GameStatus::Title),
            1 => Some(GameStatus::Menu),
            2 => Some(GameStatus::Lobby),
            3 => Some(GameStatus::Playing),
            4 => Some(GameStatus::Dead),
            5 => Some(GameStatus::OwnReplayFromLastRun),
            6 => Some(GameStatus::OwnReplayFromLeaderboard),
            7 => Some(GameStatus::OtherReplay),
            8 => Some(GameStatus::LocalReplay),
            _ => None,
        }
    }

    /// The number of this status.
    pub fn as_i32(self) -> (r: i32)
        ensures
            r == status_number(self),
    {
        match self {
            GameStatus::Title => 0,
            GameStatus::Menu => 1,
            GameStatus::Lobby => 2,
            GameStatus::Playing => 3,
            GameStatus::Dead => 4,
            GameStatus::OwnReplayFromLastRun => 5,
            GameStatus::OwnReplayFromLeaderboard => 6,
            GameStatus::OtherReplay => 7,
            GameStatus::LocalReplay => 8,
        }
    }
}

/// The upper-case hexadecimal digit for `d < 16`.
pub open spec fn hex_digit_upper(d: int) -> char {
    if d < 10 {
        crate::text::digit_char(d)
    } else if d == 10 { 'A' } else if d == 11 { 'B' } else if d == 12 { 'C' }
    else if d == 13 { 'D' } else if d == 14 { 'E' } else { 'F' }
}

/// The lower-case hexadecimal digit for `d < 16`.
pub open spec fn hex_digit_lower(d: int) -> char {
    if d < 10 {
        crate::text::digit_char(d)
    } else if d == 10 { 'a' } else if d == 11 { 'b' } else if d == 12 { 'c' }
    else if d == 13 { 'd' } else if d == 14 { 'e' } else { 'f' }
}

/// Two hexadecimal digits per byte (`{:02X}` or `{:02x}` for each byte).
pub open spec fn hex_bytes(bytes: Seq<u8>, upper: bool) -> Seq<char>
    decreases bytes.len(),
{
    if bytes.len() == 0 {
        Seq::empty()
    } else {
        let b = bytes.last();
        let hi = (b / 16) as int;
        let lo = (b % 16) as int;
        hex_bytes(bytes.drop_last(), upper) + if upper {
            seq![hex_digit_upper(hi), hex_digit_upper(lo)]
        } else {
            seq![hex_digit_lower(hi), hex_digit_lower(lo)]
        }
    }
}

fn hex_digit(d: u8, upper: bool) -> (c: char)
    requires
        d < 16,
    ensures
        c == (if upper { hex_digit_upper(d as int) } else { hex_digit_lower(d as int) }),
{
    match d {
        0 => '0',
        1 => '1',
        2 => '2',
        3 => '3',
        4 => '4',
        5 => '5',
        6 => '6',
        7 => '7',
        8 => '8',
        9 => '9',
        10 => if upper { 'A' } else { 'a' },
        11 => if upper { 'B' } else { 'b' },
        12 => if upper { 'C' } else { 'c' },
        13 => if upper { 'D' } else { 'd' },
        14 => if upper { 'E' } else { 'e' },
        _ => if upper { 'F' } else { 'f' },
    }
}

/// Two hexadecimal digits per byte, upper or lower case.
pub fn hex_string(bytes: &[u8], upper: bool) -> (s: String)
    ensures
        s@ == hex_bytes(bytes@, upper),
{
    let mut s = String::new();
    let mut i: usize = 0;
    while i < bytes.len()
        invariant
            i <= bytes@.len(),
            s@ == hex_bytes(bytes@.take(i as int), upper),
        decreases bytes@.len() - i,
    {
        let b = bytes[i];
        push_char(&mut s, hex_digit(b / 16, upper));
        push_char(&mut s, hex_digit(b % 16, upper));
        proof {
            let t = bytes@.take(i + 1);
            assert(t.drop_last() =~= bytes@.take(i as int));
            assert(t.last() == b);
        }
        i = i + 1;
        proof {
            assert(s@ =~= hex_bytes(bytes@.take(i as int), upper));
        }
    }
    proof {
        assert(bytes@.take(bytes@.len() as int) =~= bytes@);
    }
    s
}

/// Hex rendering is one to one: different byte strings of the same length
/// give different texts.
pub proof fn lemma_hex_injective(a: Seq<u8>, b: Seq<u8>, upper: bool)
    requires
        a.len() == b.len(),
        hex_bytes(a, upper) == hex_bytes(b, upper),
    ensures
        a == b,
    decreases a.len(),
{
    lemma_hex_len(a, upper);
    lemma_hex_len(b, upper);
    if a.len() > 0 {
        let ha = hex_bytes(a, upper);
        let hb = hex_bytes(b, upper);
        let n = ha.len();
        assert(ha[n - 2] == hb[n - 2]);
        assert(ha[n - 1] == hb[n - 1]);
        lemma_hex_len(a.drop_last(), upper);
        lemma_hex_len(b.drop_last(), upper);
        assert(hex_bytes(a.drop_last(), upper) =~= ha.take(n - 2));
        assert(hex_bytes(b.drop_last(), upper) =~= hb.take(n - 2));
        lemma_hex_injective(a.drop_last(), b.drop_last(), upper);
        let (x, y) = (a.last(), b.last());
        assert(x / 16 == y / 16 && x % 16 == y % 16);
        assert(a =~= a.drop_last().push(x));
        assert(b =~= b.drop_last().push(y));
    }
}

/// Two characters per byte.
pub proof fn lemma_hex_len(a: Seq<u8>, upper: bool)
    ensures
        hex_bytes(a, upper).len() == 2 * a.len(),
    decreases a.len(),
{
    if a.len() > 0 {
        lemma_hex_len(a.drop_last(), upper);
    }
}

/// A name stored as a zero-padded byte array: the UTF-8 text before the
/// first zero byte, or `unknown` when those bytes are not UTF-8.
pub open spec fn padded_name(bytes: Seq<u8>) -> Seq<char> {
    let b = until_nul(bytes);
    if vstd::utf8::valid_utf8(b) {
        vstd::utf8::decode_utf8(b)
    } else {
        seq!['u', 'n', 'k', 'n', 'o', 'w', 'n']
    }
}

/// The value of eight bytes read in little-endian order.
pub open spec fn le_value8(b: Seq<u8>) -> int {
    b[0] + b[1] * 0x100 + b[2] * 0x1_0000 + b[3] * 0x100_0000 + b[4] * 0x1_0000_0000
        + b[5] * 0x100_0000_0000 + b[6] * 0x1_0000_0000_0000 + b[7] * 0x100_0000_0000_0000
}

fn name_from_bytes(bytes: &[u8]) -> (s: String)
    ensures
        s@ == padded_name(bytes@),
{
    let b = take_until_nul(bytes);
    match utf8_decode(b.as_slice()) {
        Some(s) => s,
        None => {
            proof {
                reveal_strlit("unknown");
            }
            String::from_str("unknown")
        },
    }
}

impl StatsDataBlock {
    /// The player's name.
    pub fn player_username(&self) -> (s: String)
        ensures
            s@ == padded_name(self.username@),
    {
        name_from_bytes(&self.username)
    }

    /// The name of the player whose replay is shown.
    pub fn replay_player_username(&self) -> (s: String)
        ensures
            s@ == padded_name(self.replay_player_name@),
    {
        name_from_bytes(&self.replay_player_name)
    }

    /// The MD5 of the spawnset as 32 upper-case hexadecimal digits.
    pub fn level_hash(&self) -> (s: String)
        ensures
            s@ == hex_bytes(self.survival_md5@, true),
            s@.len() == 32,
    {
        proof {
            lemma_hex_len(self.survival_md5@, true);
        }
        hex_string(&self.survival_md5, true)
    }

    /// The address of the first frame in the game's memory: the eight
    /// bytes of `stats_base` read as a little-endian `i64`, taken as a
    /// `usize` (the low bits of its two's-complement form).
    pub fn get_stats_pointer(&self) -> (p: usize)
        ensures
            p == (le_value8(self.stats_base@) as u64) as usize,
    {
        let b = self.stats_base;
        let v: u64 = b[0] as u64 + (b[1] as u64) * 0x100 + (b[2] as u64) * 0x1_0000
            + (b[3] as u64) * 0x100_0000 + (b[4] as u64) * 0x1_0000_0000
            + (b[5] as u64) * 0x100_0000_0000 + (b[6] as u64) * 0x1_0000_0000_0000
            + (b[7] as u64) * 0x100_0000_0000_0000;
        #[verifier::truncate]
        (v as usize)
    }

    /// The game status; the game only ever reports numbers 0 to 8.
    pub fn status(&self) -> (s: GameStatus)
        requires
            status_of(self.status as int) is Some,
        ensures
            Some(s) == status_of(self.status as int),
    {
        GameStatus::from_i32(self.status).unwrap()
    }
}

/// Homing daggers spent over a run: for the frames at level 3 and at level 4
/// separately, every drop of the homing count from one frame of that level to
/// the next adds the size of the drop (the first frame of a level compares
/// with 0). The tally is (spent at 3, spent at 4, last count at 3, last count
/// at 4).
pub open spec fn homing_tally(frames: Seq<StatsFrame>) -> (int, int, int, int)
    decreases frames.len(),
{
    if frames.len() == 0 {
        (0, 0, 0, 0)
    } else {
        let (n3, n4, l3, l4) = homing_tally(frames.drop_last());
        let f = frames.last();
        if f.level_gems == 70 {
            (if (f.homing as int) < l3 { n3 + (l3 - f.homing) } else { n3 }, n4, f.homing as int, l4)
        } else if f.level_gems == 71 {
            (n3, if (f.homing as int) < l4 { n4 + (l4 - f.homing) } else { n4 }, l3, f.homing as int)
        } else {
            (n3, n4, l3, l4)
        }
    }
}

/// Whether 32-bit signed arithmetic suffices for the tally over `frames`,
/// as the game's counters always do.
pub open spec fn homing_tally_fits(frames: Seq<StatsFrame>) -> bool
    decreases frames.len(),
{
    if frames.len() == 0 {
        true
    } else {
        let (n3, n4, l3, l4) = homing_tally(frames.drop_last());
        let (m3, m4, k3, k4) = homing_tally(frames);
        &&& homing_tally_fits(frames.drop_last())
        &&& i32::MIN <= m3 <= i32::MAX
        &&& i32::MIN <= m4 <= i32::MAX
        &&& (frames.last().level_gems == 70 && frames.last().homing < l3 ==> i32::MIN < frames.last().homing - l3)
        &&& (frames.last().level_gems == 71 && frames.last().homing < l4 ==> i32::MIN < frames.last().homing - l4)
        &&& i32::MIN <= m3 + m4 <= i32::MAX
    }
}

/// How many frames count up to a cutoff second: the frames before the
/// cutoff, or all but the last one when the cutoff is at or past the end.
pub open spec fn frames_until(len: int, cutoff: int) -> int {
    if cutoff + 1 > len {
        if len == 0 { 0 } else { len - 1 }
    } else {
        cutoff
    }
}

/// Spent homing at level 3 and 4 are never negative.
pub proof fn lemma_homing_tally_nonneg(frames: Seq<StatsFrame>)
    ensures
        homing_tally(frames).0 >= 0,
        homing_tally(frames).1 >= 0,
    decreases frames.len(),
{
    if frames.len() > 0 {
        lemma_homing_tally_nonneg(frames.drop_last());
    }
}

impl StatsBlockWithFrames {
    /// Homing daggers spent in the frames before second `cutoff` (the whole
    /// seconds of the cutoff time, as `time as usize` gives them).
    pub fn homing_usage_from_frames(&self, cutoff: usize) -> (r: u32)
        requires
            cutoff < usize::MAX,
            self.frames@.len() <= 0x100_0000,
            homing_tally_fits(self.frames@.take(frames_until(self.frames@.len() as int, cutoff as int))),
        ensures
            r == ({
                let t = homing_tally(self.frames@.take(frames_until(self.frames@.len() as int, cutoff as int)));
                t.0 + t.1
            }),
    {
        let len = self.frames.len();
        let n: usize = if cutoff + 1 > len {
            if len == 0 { 0 } else { len - 1 }
        } else {
            cutoff
        };
        let ghost fs = self.frames@.take(n as int);
        let mut neg3: i32 = 0;
        let mut neg4: i32 = 0;
        let mut last3: i32 = 0;
        let mut last4: i32 = 0;
        let mut i: usize = 0;
        proof {
            lemma_fits_prefix(fs, 0);
            assert(fs.take(0) =~= Seq::<StatsFrame>::empty());
        }
        while i < n
            invariant
                n <= len == self.frames@.len(),
                i <= n,
                fs == self.frames@.take(n as int),
                homing_tally_fits(fs),
                homing_tally(fs.take(i as int)) == (neg3 as int, neg4 as int, last3 as int, last4 as int),
            decreases n - i,
        {
            let f = self.frames[i];
            proof {
                let p = fs.take(i + 1);
                assert(p.drop_last() =~= fs.take(i as int));
                assert(p.last() == f);
                lemma_fits_prefix(fs, i + 1);
            }
            if f.level_gems == 70 {
                if f.homing < last3 {
                    neg3 = neg3 + (-(f.homing - last3));
                }
                last3 = f.homing;
            } else if f.level_gems == 71 {
                if f.homing < last4 {
                    neg4 = neg4 + (-(f.homing - last4));
                }
                last4 = f.homing;
            }
            i = i + 1;
        }
        proof {
            assert(fs.take(n as int) =~= fs);
            lemma_homing_tally_nonneg(fs);
            if n > 0 {
                assert(fs.take(n as int) =~= fs);
            }
        }
        (neg3 + neg4) as u32
    }
}

/// The tally over a prefix of frames fits whenever the tally over all of
/// them does.
pub proof fn lemma_fits_prefix(frames: Seq<StatsFrame>, k: int)
    requires
        homing_tally_fits(frames),
        0 <= k <= frames.len(),
    ensures
        homing_tally_fits(frames.take(k)),
    decreases frames.len() - k,
{
    if k < frames.len() {
        lemma_fits_prefix(frames, k + 1);
        assert(frames.take(k + 1).drop_last() =~= frames.take(k));
    } else {
        assert(frames.take(k) =~= frames);
    }
}


impl StatsBlockWithFrames {
    /// Whether the frames are few enough and the homing tally over them
    /// stays within 32-bit arithmetic (what `homing_usage_from_frames`
    /// needs for every cut-off).
    pub fn homing_usage_fits(&self) -> (r: bool)
        ensures
            r == (self.frames@.len() <= 0x100_0000 && homing_tally_fits(self.frames@)),
    {
        let n = self.frames.len();
        if n > 0x100_0000 {
            return false;
        }
        let ghost fs = self.frames@;
        let mut n3: i64 = 0;
        let mut n4: i64 = 0;
        let mut l3: i64 = 0;
        let mut l4: i64 = 0;
        let mut i: usize = 0;
        assert(fs.take(0) =~= Seq::<StatsFrame>::empty());
        while i < n
            invariant
                n == fs.len(),
                fs == self.frames@,
                i <= n,
                homing_tally(fs.take(i as int)) == (n3 as int, n4 as int, l3 as int, l4 as int),
                homing_tally_fits(fs.take(i as int)),
                i32::MIN <= n3 <= i32::MAX,
                i32::MIN <= n4 <= i32::MAX,
                i32::MIN <= l3 <= i32::MAX,
                i32::MIN <= l4 <= i32::MAX,
            decreases n - i,
        {
            let f = self.frames[i];
            let h = f.homing as i64;
            let ghost p = fs.take(i + 1);
            proof {
                assert(p.drop_last() =~= fs.take(i as int));
                assert(p.last() == f);
            }
            let mut m3 = n3;
            let mut m4 = n4;
            let mut k3 = l3;
            let mut k4 = l4;
            if f.level_gems == 70 {
                if h < l3 {
                    if h - l3 <= i32::MIN as i64 {
                        proof {
                            if homing_tally_fits(fs) {
                                lemma_fits_prefix(fs, i + 1);
                            }
                        }
                        return false;
                    }
                    m3 = n3 + (l3 - h);
                }
                k3 = h;
            } else if f.level_gems == 71 {
                if h < l4 {
                    if h - l4 <= i32::MIN as i64 {
                        proof {
                            if homing_tally_fits(fs) {
                                lemma_fits_prefix(fs, i + 1);
                            }
                        }
                        return false;
                    }
                    m4 = n4 + (l4 - h);
                }
                k4 = h;
            }
            if m3 > i32::MAX as i64 || m4 > i32::MAX as i64 || m3 + m4 > i32::MAX as i64 || m3 + m4 < i32::MIN as i64 {
                proof {
                    if homing_tally_fits(fs) {
                        lemma_fits_prefix(fs, i + 1);
                    }
                }
                return false;
            }
            n3 = m3;
            n4 = m4;
            l3 = k3;
            l4 = k4;
            i = i + 1;
        }
        proof {
            assert(fs.take(n as int) =~= fs);
        }
        true
    }
}

} // verus!
