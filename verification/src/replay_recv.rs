//! The local replay receiver: the message another instance sends, and how
//! the received bytes are read.
use vstd::prelude::*;
use crate::text::utf8_decode;

verus! {

/// The port replays are handed over on.
pub const LOCAL_REPLAY_PORT: u16 = 18639;

/// The size of the receive buffer.
pub const RECEIVE_BUFFER: usize = 2000;

/// The request to play a replay file: `{"path": ...}`.
#[derive(Clone, Debug)]
pub struct LocalFileReplayMsg {
    pub path: String,
}

/// The receiver task (its socket lives with the caller).
pub struct LocalReplayReceiver;

/// Whether a character is the NUL character.
pub open spec fn is_nul(c: char) -> bool {
    c == '\0'
}

/// The index of the first character that is not NUL (the length when all
/// are).
pub open spec fn first_non_nul(s: Seq<char>, from: int) -> int
    decreases s.len() - from,
{
    if from < 0 || from >= s.len() {
        s.len() as int
    } else if !is_nul(s[from]) {
        from
    } else {
        first_non_nul(s, from + 1)
    }
}

/// The index after the last character that is not NUL, looking below
/// `end` (0 when all are).
pub open spec fn end_non_nul(s: Seq<char>, end: int) -> int
    decreases end,
{
    if end <= 0 || end > s.len() {
        0
    } else if !is_nul(s[end - 1]) {
        end
    } else {
        end_non_nul(s, end - 1)
    }
}

/// `s` without NUL characters at either end (`trim_matches('\0')`).
pub open spec fn trim_nul(s: Seq<char>) -> Seq<char> {
    let a = first_non_nul(s, 0);
    if a >= s.len() {
        Seq::empty()
    } else {
        s.subrange(a, end_non_nul(s, s.len() as int))
    }
}

proof fn lemma_first_non_nul(s: Seq<char>, from: int)
    requires
        0 <= from <= s.len(),
    ensures
        from <= first_non_nul(s, from) <= s.len(),
        first_non_nul(s, from) < s.len() ==> !is_nul(s[first_non_nul(s, from)]),
    decreases s.len() - from,
{
    if from < s.len() && is_nul(s[from]) {
        lemma_first_non_nul(s, from + 1);
    }
}

proof fn lemma_end_non_nul(s: Seq<char>, end: int, a: int)
    requires
        0 <= a < end <= s.len(),
        !is_nul(s[a]),
    ensures
        a < end_non_nul(s, end) <= end,
    decreases end,
{
    if is_nul(s[end - 1]) {
        lemma_end_non_nul(s, end - 1, a);
    }
}

proof fn lemma_end_non_nul_le(s: Seq<char>, end: int)
    requires
        0 <= end <= s.len(),
    ensures
        end_non_nul(s, end) <= end,
    decreases end,
{
    if end > 0 && is_nul(s[end - 1]) {
        lemma_end_non_nul_le(s, end - 1);
    }
}

/// The text of a received buffer: the bytes as UTF-8 without NUL
/// characters at either end; `None` when the bytes are not UTF-8.
pub fn received_text(buf: &[u8]) -> (r: Option<String>)
    ensures
        r is Some <==> vstd::utf8::valid_utf8(buf@),
        r matches Some(t) ==> t@ == trim_nul(vstd::utf8::decode_utf8(buf@)),
{
    let text = match utf8_decode(buf) {
        Some(t) => t,
        None => {
            return None;
        },
    };
    let s = text.as_str();
    let n = s.unicode_len();
    let mut a: usize = 0;
    while a < n
        invariant
            n == s@.len(),
            a <= n,
            first_non_nul(s@, a as int) == first_non_nul(s@, 0),
        ensures
            a <= n,
            first_non_nul(s@, a as int) == first_non_nul(s@, 0),
            a < n ==> !is_nul(s@[a as int]),
        decreases n - a,
    {
        if s.get_char(a) != '\0' {
            break;
        }
        a = a + 1;
    }
    proof {
        lemma_first_non_nul(s@, a as int);
    }
    if a >= n {
        return Some(String::new());
    }
    let mut e: usize = n;
    while e > a
        invariant
            n == s@.len(),
            a < n,
            a <= e <= n,
            !is_nul(s@[a as int]),
            end_non_nul(s@, e as int) == end_non_nul(s@, n as int),
        ensures
            a <= e <= n,
            end_non_nul(s@, e as int) == end_non_nul(s@, n as int),
            e > a ==> !is_nul(s@[e - 1]),
        decreases e,
    {
        if s.get_char(e - 1) != '\0' {
            break;
        }
        e = e - 1;
    }
    proof {
        lemma_end_non_nul(s@, n as int, a as int);
        lemma_end_non_nul_le(s@, e as int);
        assert(e > a);
        assert(end_non_nul(s@, e as int) == e);
        assert(first_non_nul(s@, 0) == a);
    }
    Some(String::from_str(s.substring_char(a, e)))
}


/// The trimmed text neither starts nor ends with a NUL character, and is
/// the part of the text between its first and its last other character.
pub proof fn lemma_trim_nul_ends(s: Seq<char>)
    ensures
        trim_nul(s).len() > 0 ==> !is_nul(trim_nul(s)[0]) && !is_nul(trim_nul(s).last()),
        trim_nul(s).len() <= s.len(),
        (forall|i: int| 0 <= i < s.len() ==> !is_nul(#[trigger] s[i])) ==> trim_nul(s) == s,
{
    lemma_first_non_nul(s, 0);
    let a = first_non_nul(s, 0);
    if a < s.len() {
        lemma_end_non_nul(s, s.len() as int, a);
        let e = end_non_nul(s, s.len() as int);
        lemma_end_non_nul_last(s, s.len() as int, a);
        assert(trim_nul(s)[0] == s[a]);
        assert(trim_nul(s).last() == s[e - 1]);
    }
    if forall|i: int| 0 <= i < s.len() ==> !is_nul(#[trigger] s[i]) {
        if s.len() > 0 {
            assert(!is_nul(s[0]));
            assert(!is_nul(s[s.len() - 1]));
            assert(trim_nul(s) =~= s);
        } else {
            assert(trim_nul(s) =~= s);
        }
    }
}

proof fn lemma_end_non_nul_last(s: Seq<char>, end: int, a: int)
    requires
        0 <= a < end <= s.len(),
        !is_nul(s[a]),
    ensures
        !is_nul(s[end_non_nul(s, end) - 1]),
    decreases end,
{
    if is_nul(s[end - 1]) {
        lemma_end_non_nul_last(s, end - 1, a);
    }
}

} // verus!
