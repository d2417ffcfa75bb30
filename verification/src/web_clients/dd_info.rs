//! The devildaggers.info API: request addresses, response records, and the
//! version rule for the custom leaderboard client.
use vstd::prelude::*;
use vstd::string::*;
use crate::text::{parse_decimal, parse_decimal_str, push_char, push_str, is_digit, digit_value, digits_value};

verus! {

/// The client version this program presents itself as to the custom
/// leaderboards.
pub const DDCL_MIMIC: &'static str = "1.3.0.0";

/// The operating system a memory marker is asked for.
#[derive(Clone, Copy, Debug, PartialEq, Eq, Structural)]
pub enum OperatingSystem {
    Windows,
    Linux,
}

/// Where the statistics block lies in the game's memory.
#[derive(Clone, Copy, Debug)]
pub struct MarkerResponse {
    pub value: usize,
}

/// A tool published on devildaggers.info.
#[derive(Clone, Debug)]
pub struct Tool {
    pub name: String,
    pub display_name: String,
    pub version_number: String,
    pub version_number_required: String,
    pub changelog: Vec<ChangelogEntry>,
}

/// One release in a tool's changelog.
#[derive(Clone, Debug)]
pub struct ChangelogEntry {
    pub version_number: String,
    pub date: String,
    pub changes: Vec<Change>,
}

/// One change of a release.
#[derive(Clone, Debug)]
pub struct Change {
    pub description: String,
    pub sub_changes: Option<Vec<String>>,
}

/// A run as the custom leaderboards take it (times in ten-thousandths of a
/// second).
#[derive(Clone, Debug)]
pub struct SubmitRunRequest {
    pub survival_hash_md5: String,
    pub player_id: i32,
    pub player_name: String,
    pub time: i32,
    pub gems_collected: i32,
    pub enemies_killed: i32,
    pub daggers_fired: i32,
    pub daggers_hit: i32,
    pub enemies_alive: i32,
    pub homing_daggers: i32,
    pub homing_daggers_eaten: i32,
    pub gems_despawned: i32,
    pub gems_eaten: i32,
    pub gems_total: i32,
    pub death_type: u8,
    pub level_up_time2: i32,
    pub level_up_time3: i32,
    pub level_up_time4: i32,
    pub client_version: String,
    pub operating_system: OperatingSystem,
    pub build_mode: String,
    pub validation: String,
    pub is_replay: bool,
    pub prohibited_mods: bool,
    pub game_states: Vec<GameState>,
}

/// The state of a run at one second, per enemy kind.
#[derive(Clone, Copy, Debug)]
pub struct GameState {
    pub gems_collected: i32,
    pub enemies_killed: i32,
    pub daggers_fired: i32,
    pub daggers_hit: i32,
    pub enemies_alive: i32,
    pub homing_daggers: i32,
    pub homing_daggers_eaten: i32,
    pub gems_despawned: i32,
    pub gems_eaten: i32,
    pub gems_total: i32,
    pub skull1s_alive: i32,
    pub skull2s_alive: i32,
    pub skull3s_alive: i32,
    pub spiderlings_alive: i32,
    pub skull4s_alive: i32,
    pub squid1s_alive: i32,
    pub squid2s_alive: i32,
    pub squid3s_alive: i32,
    pub centipedes_alive: i32,
    pub gigapedes_alive: i32,
    pub spider1s_alive: i32,
    pub spider2s_alive: i32,
    pub leviathans_alive: i32,
    pub orbs_alive: i32,
    pub thorns_alive: i32,
    pub ghostpedes_alive: i32,
    pub skull1s_killed: i32,
    pub skull2s_killed: i32,
    pub skull3s_killed: i32,
    pub spiderlings_killed: i32,
    pub skull4s_killed: i32,
    pub squid1s_killed: i32,
    pub squid2s_killed: i32,
    pub squid3s_killed: i32,
    pub centipedes_killed: i32,
    pub gigapedes_killed: i32,
    pub spider1s_killed: i32,
    pub spider2s_killed: i32,
    pub leviathans_killed: i32,
    pub orbs_killed: i32,
    pub thorns_killed: i32,
    pub ghostpedes_killed: i32,
}

/// The pieces of `s` between dots, as `str::split('.')` yields them (empty
/// pieces included; the empty string has one empty piece).
pub open spec fn split_dots(s: Seq<char>) -> Seq<Seq<char>>
    decreases s.len(),
{
    if s.len() == 0 {
        seq![Seq::empty()]
    } else {
        let r = split_dots(s.drop_last());
        if s.last() == '.' {
            r.push(Seq::empty())
        } else {
            r.update(r.len() - 1, r.last().push(s.last()))
        }
    }
}

/// The dot-separated components of a version number, each read as a `u16`
/// (`str::parse::<u16>`), when all of them are numbers.
pub open spec fn version_components(s: Seq<char>) -> Option<Seq<u16>> {
    let parts = split_dots(s);
    if forall|i: int| 0 <= i < parts.len() ==> (#[trigger] parse_decimal(parts[i], false, 0, 65535)) is Some {
        Some(Seq::new(parts.len(), |i: int| parse_decimal(parts[i], false, 0, 65535)->0 as u16))
    } else {
        None
    }
}

/// Reads a dotted version number such as `1.3.0.0`; `None` when a
/// component is not a number that fits a `u16`.
pub fn parse_version(s: &str) -> (r: Option<Vec<u16>>)
    ensures
        r matches Some(v) ==> version_components(s@) == Some(v@),
        r is None ==> version_components(s@) is None,
{
    let n = s.unicode_len();
    let mut parts: Vec<String> = Vec::new();
    let mut cur = String::new();
    let mut i: usize = 0;
    proof {
        assert(s@.take(0) =~= Seq::<char>::empty());
    }
    while i < n
        invariant
            n == s@.len(),
            i <= n,
            split_dots(s@.take(i as int)) =~= Seq::new(parts@.len() as nat, |k: int| parts@[k]@).push(cur@),
        decreases n - i,
    {
        let c = s.get_char(i);
        proof {
            let t = s@.take(i + 1);
            assert(t.drop_last() =~= s@.take(i as int));
            assert(t.last() == c);
        }
        if c == '.' {
            let done = cur;
            parts.push(done);
            cur = String::new();
        } else {
            push_char(&mut cur, c);
        }
        i = i + 1;
    }
    proof {
        assert(s@.take(n as int) =~= s@);
    }
    parts.push(cur);
    let ghost all = split_dots(s@);
    let mut out: Vec<u16> = Vec::new();
    let mut j: usize = 0;
    while j < parts.len()
        invariant
            j <= parts@.len(),
            all == split_dots(s@),
            all.len() == parts@.len(),
            forall|k: int| 0 <= k < parts@.len() ==> #[trigger] all[k] == parts@[k]@,
            out@.len() == j,
            forall|k: int| 0 <= k < j ==> (#[trigger] parse_decimal(all[k], false, 0, 65535)) == Some(out@[k] as int),
        decreases parts@.len() - j,
    {
        match parse_decimal_str(parts[j].as_str(), false, 0, 65535) {
            Some(v) => {
                out.push(v as u16);
            },
            None => {
                proof {
                    assert(parse_decimal(all[j as int], false, 0, 65535) is None);
                }
                return None;
            },
        }
        j = j + 1;
    }
    proof {
        assert(Seq::new(all.len(), |i: int| parse_decimal(all[i], false, 0, 65535)->0 as u16) =~= out@);
    }
    Some(out)
}

/// No component of `required` is above the component of `ours` at the same
/// place (components past the shorter version are not compared).
pub open spec fn version_within(required: Seq<u16>, ours: Seq<u16>) -> bool {
    forall|i: int| 0 <= i < required.len() && i < ours.len() ==> required[i] <= ours[i]
}

/// Whether a client that presents version `ours` still satisfies the
/// required version.
pub fn version_is_within(required: &[u16], ours: &[u16]) -> (r: bool)
    ensures
        r == version_within(required@, ours@),
{
    let m = if required.len() > ours.len() { ours.len() } else { required.len() };
    let mut i: usize = 0;
    while i < m
        invariant
            m <= required@.len(),
            m <= ours@.len(),
            m == required@.len() || m == ours@.len(),
            i <= m,
            forall|k: int| 0 <= k < i ==> required@[k] <= ours@[k],
        decreases m - i,
    {
        if required[i] > ours[i] {
            return false;
        }
        i = i + 1;
    }
    true
}

/// The name by which the API knows an operating system (`{:?}`).
pub open spec fn os_name(os: OperatingSystem) -> Seq<char> {
    match os {
        OperatingSystem::Windows => seq!['W', 'i', 'n', 'd', 'o', 'w', 's'],
        OperatingSystem::Linux => seq!['L', 'i', 'n', 'u', 'x'],
    }
}

/// The API's base address.
pub open spec fn api_base() -> Seq<char> {
    "https://devildaggers.info/"@
}

/// The address of the memory marker for `os`.
pub fn marker_uri(os: OperatingSystem) -> (s: String)
    ensures
        s@ == api_base() + "api/process-memory/marker?operatingSystem="@ + os_name(os),
{
    let mut s = String::from_str("https://devildaggers.info/");
    push_str(&mut s, "api/process-memory/marker?operatingSystem=");
    proof {
        reveal_strlit("Windows");
        reveal_strlit("Linux");
    }
    match os {
        OperatingSystem::Windows => push_str(&mut s, "Windows"),
        OperatingSystem::Linux => push_str(&mut s, "Linux"),
    }
    s
}

/// The address of the record of tool `tool_name`.
pub fn tool_uri(tool_name: &str) -> (s: String)
    ensures
        s@ == api_base() + "api/tools/"@ + tool_name@,
{
    let mut s = String::from_str("https://devildaggers.info/");
    push_str(&mut s, "api/tools/");
    push_str(&mut s, tool_name);
    s
}

/// The memory marker to use: the one the API gave, else the built-in one.
pub fn marker_or_backup(fetched: Option<usize>, backup: usize) -> (m: usize)
    ensures
        m == (match fetched {
            Some(v) => v,
            None => backup,
        }),
{
    match fetched {
        Some(v) => v,
        None => backup,
    }
}


/// Every version satisfies itself as the required version.
pub proof fn lemma_version_within_reflexive(v: Seq<u16>)
    ensures
        version_within(v, v),
{
}


/// The components of the mimicked client version.
pub open spec fn mimic_components() -> Seq<u16> {
    seq![1u16, 3u16, 0u16, 0u16]
}

proof fn lemma_single_digit(c: char)
    requires
        is_digit(c),
    ensures
        parse_decimal(seq![c], false, 0, 65535) == Some(digit_value(c)),
{
    let d = seq![c];
    assert(d.drop_last() =~= Seq::<char>::empty());
    assert(digits_value(d.drop_last()) == 0);
    assert(d.last() == c);
    assert(digits_value(d) == digit_value(c));
}

proof fn lemma_mimic_components()
    ensures
        version_components(DDCL_MIMIC@) == Some(mimic_components()),
{
    reveal_strlit("1.3.0.0");
    let e = Seq::<char>::empty();
    let s1 = seq!['1'];
    let s2 = s1.push('.');
    let s3 = s2.push('3');
    let s4 = s3.push('.');
    let s5 = s4.push('0');
    let s6 = s5.push('.');
    let s7 = s6.push('0');
    assert(DDCL_MIMIC@ =~= s7);
    assert(s1.drop_last() =~= e);
    assert(split_dots(e) =~= seq![e]);
    assert(split_dots(s1.drop_last()) =~= seq![e]);
    assert(e.push('1') =~= seq!['1']);
    assert(split_dots(s1) =~= seq![seq!['1']]);
    assert(s2.drop_last() =~= s1);
    assert(s3.drop_last() =~= s2);
    assert(s4.drop_last() =~= s3);
    assert(s5.drop_last() =~= s4);
    assert(s6.drop_last() =~= s5);
    assert(s7.drop_last() =~= s6);
    assert(e.push('3') =~= seq!['3']);
    assert(e.push('0') =~= seq!['0']);
    assert(split_dots(s2) =~= seq![seq!['1'], e]);
    assert(split_dots(s3) =~= seq![seq!['1'], seq!['3']]);
    assert(split_dots(s4) =~= seq![seq!['1'], seq!['3'], e]);
    assert(split_dots(s5) =~= seq![seq!['1'], seq!['3'], seq!['0']]);
    assert(split_dots(s6) =~= seq![seq!['1'], seq!['3'], seq!['0'], e]);
    let parts = seq![seq!['1'], seq!['3'], seq!['0'], seq!['0']];
    assert(split_dots(s7) =~= parts);
    lemma_single_digit('1');
    lemma_single_digit('3');
    lemma_single_digit('0');
    assert(forall|i: int| 0 <= i < parts.len() ==> (#[trigger] parse_decimal(parts[i], false, 0, 65535)) is Some);
    assert(Seq::new(parts.len(), |i: int| parse_decimal(parts[i], false, 0, 65535)->0 as u16) =~= mimic_components());
}

/// Whether the custom leaderboard client this program presents itself as is
/// recent enough: always when neither run submission nor replays go through
/// it; never when its required version could not be had; otherwise when no
/// component of the required version is above the mimicked one.
pub fn ddcl_up_to_date(submit: bool, replays: bool, required: Option<&str>) -> (r: bool)
    requires
        (submit || replays) && required is Some ==> version_components(required->0@) is Some,
    ensures
        r == (!submit && !replays || (required matches Some(v) && version_within(
            version_components(v@)->0,
            mimic_components(),
        ))),
{
    if !submit && !replays {
        return true;
    }
    match required {
        None => false,
        Some(v) => {
            proof {
                lemma_mimic_components();
            }
            let req = parse_version(v);
            let ours = parse_version(DDCL_MIMIC);
            match (req, ours) {
                (Some(a), Some(b)) => version_is_within(a.as_slice(), b.as_slice()),
                _ => false,
            }
        },
    }
}

} // verus!
