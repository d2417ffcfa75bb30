//! Decimal and hexadecimal rendering and decimal parsing, stated over the
//! character sequences they produce or accept.
use vstd::prelude::*;
use vstd::string::*;

verus! {

/// Appends one character to a string (`String::push`).
#[verifier::external_body]
pub(crate) fn push_char(s: &mut String, c: char)
    ensures
        final(s)@ == old(s)@.push(c),
{
    s.push(c);
}

/// Decodes UTF-8 (`String::from_utf8` on a copy of the bytes): `None`
/// exactly when the bytes are not valid UTF-8, else the decoded characters.
#[verifier::external_body]
pub(crate) fn utf8_decode(bytes: &[u8]) -> (r: Option<String>)
    ensures
        r is Some <==> vstd::utf8::valid_utf8(bytes@),
        r matches Some(t) ==> t@ == vstd::utf8::decode_utf8(bytes@),
{
    String::from_utf8(bytes.to_vec()).ok()
}

/// The bytes before the first zero byte (all of them when there is none).
pub open spec fn until_nul(b: Seq<u8>) -> Seq<u8>
    decreases b.len(),
{
    if b.len() == 0 {
        b
    } else if b[0] == 0 {
        Seq::empty()
    } else {
        seq![b[0]] + until_nul(b.drop_first())
    }
}

/// The bytes before the first zero byte.
pub fn take_until_nul(b: &[u8]) -> (r: Vec<u8>)
    ensures
        r@ == until_nul(b@),
{
    let mut r: Vec<u8> = Vec::new();
    let mut i: usize = 0;
    proof {
        assert(b@.skip(0) =~= b@);
        assert(r@ + until_nul(b@.skip(0)) =~= until_nul(b@));
    }
    while i < b.len()
        invariant
            i <= b@.len(),
            forall|j: int| 0 <= j < i ==> b@[j] != 0,
            r@ == b@.take(i as int),
            until_nul(b@) == r@ + until_nul(b@.skip(i as int)),
        decreases b@.len() - i,
    {
        if b[i] == 0 {
            proof {
                assert(b@.skip(i as int)[0] == 0);
                assert(until_nul(b@.skip(i as int)) =~= Seq::<u8>::empty());
                assert(until_nul(b@) =~= r@);
            }
            return r;
        }
        proof {
            let rest = b@.skip(i as int);
            assert(rest.drop_first() =~= b@.skip(i + 1));
            assert(rest[0] == b[i as int]);
            assert(until_nul(rest) == seq![b[i as int]] + until_nul(b@.skip(i + 1)));
        }
        r.push(b[i]);
        i = i + 1;
        proof {
            assert(r@ =~= b@.take(i as int));
            assert(until_nul(b@) =~= r@ + until_nul(b@.skip(i as int)));
        }
    }
    proof {
        assert(b@.skip(i as int) =~= Seq::<u8>::empty());
    }
    r
}

/// The ASCII upper-case form of a character (other characters unchanged).
pub open spec fn upper_ascii(c: char) -> char {
    if 'a' <= c <= 'z' { ((c as u8 - 32) as u8) as char } else { c }
}

/// The ASCII upper-case form of a string; for ASCII text this is what
/// `str::to_uppercase` gives.
pub fn ascii_uppercase(s: &str) -> (r: String)
    ensures
        r@ == s@.map_values(|c: char| upper_ascii(c)),
{
    let n = s.unicode_len();
    let mut r = String::new();
    let mut i: usize = 0;
    while i < n
        invariant
            n == s@.len(),
            i <= n,
            r@ == s@.take(i as int).map_values(|c: char| upper_ascii(c)),
        decreases n - i,
    {
        let c = s.get_char(i);
        let u = if 'a' <= c && c <= 'z' { ((c as u8) - 32) as char } else { c };
        push_char(&mut r, u);
        i = i + 1;
        proof {
            assert(r@ =~= s@.take(i as int).map_values(|c: char| upper_ascii(c)));
        }
    }
    proof {
        assert(s@.take(n as int) =~= s@);
    }
    r
}

/// The character of a decimal digit `d < 10`.
pub open spec fn digit_char(d: int) -> char {
    if d == 0 { '0' } else if d == 1 { '1' } else if d == 2 { '2' } else if d == 3 { '3' }
    else if d == 4 { '4' } else if d == 5 { '5' } else if d == 6 { '6' } else if d == 7 { '7' }
    else if d == 8 { '8' } else { '9' }
}

fn digit_to_char(d: u8) -> (c: char)
    requires
        d < 10,
    ensures
        c == digit_char(d as int),
{
    match d {
        0 => '0',
        1 => '1',
        2 => '2',
        3 => '3',
        4 => '4',
        5 => '5',
        6 => '6',
        7 => '7',
        8 => '8',
        _ => '9',
    }
}

/// Whether `c` is one of the ASCII digits `0`-`9`.
pub open spec fn is_digit(c: char) -> bool {
    '0' <= c <= '9'
}

/// The digit value of an ASCII digit character.
pub open spec fn digit_value(c: char) -> int {
    if c == '0' { 0 } else if c == '1' { 1 } else if c == '2' { 2 } else if c == '3' { 3 }
    else if c == '4' { 4 } else if c == '5' { 5 } else if c == '6' { 6 } else if c == '7' { 7 }
    else if c == '8' { 8 } else { 9 }
}

fn char_to_digit(c: char) -> (d: u64)
    requires
        is_digit(c),
    ensures
        d == digit_value(c),
        d < 10,
{
    match c {
        '0' => 0,
        '1' => 1,
        '2' => 2,
        '3' => 3,
        '4' => 4,
        '5' => 5,
        '6' => 6,
        '7' => 7,
        '8' => 8,
        _ => 9,
    }
}

/// The shortest decimal rendering of a natural number.
pub open spec fn dec_nat(n: nat) -> Seq<char>
    decreases n,
{
    if n < 10 {
        seq![digit_char(n as int)]
    } else {
        dec_nat(n / 10).push(digit_char((n % 10) as int))
    }
}

/// The decimal rendering of an integer, with a leading `-` when negative.
pub open spec fn dec_int(i: int) -> Seq<char> {
    if i < 0 {
        seq!['-'] + dec_nat((-i) as nat)
    } else {
        dec_nat(i as nat)
    }
}

/// `true` or `false` as text.
pub open spec fn bool_text(b: bool) -> Seq<char> {
    if b {
        seq!['t', 'r', 'u', 'e']
    } else {
        seq!['f', 'a', 'l', 's', 'e']
    }
}

/// Whether every character of `s` is an ASCII digit.
pub open spec fn all_digits(s: Seq<char>) -> bool {
    forall|i: int| 0 <= i < s.len() ==> is_digit(#[trigger] s[i])
}

/// The value of a string of decimal digits (0 for the empty string).
pub open spec fn digits_value(s: Seq<char>) -> nat
    decreases s.len(),
{
    if s.len() == 0 {
        0
    } else {
        (digits_value(s.drop_last()) * 10 + digit_value(s.last())) as nat
    }
}

/// The integer that `from_str_radix(s, 10)` accepts for a type whose values
/// lie in `lo..=hi`: an optional sign (`-` only when `signed`), then at least
/// one ASCII digit and nothing else.
pub open spec fn parse_decimal(s: Seq<char>, signed: bool, lo: int, hi: int) -> Option<int> {
    if s.len() == 0 {
        None
    } else {
        let neg = signed && s[0] == '-';
        let body = if neg || s[0] == '+' { s.drop_first() } else { s };
        if body.len() == 0 || !all_digits(body) {
            None
        } else {
            let v = if neg { -digits_value(body) } else { digits_value(body) as int };
            if lo <= v <= hi { Some(v) } else { None }
        }
    }
}

/// Digits of a decimal rendering are digits.
pub proof fn lemma_dec_nat_digits(n: nat)
    ensures
        all_digits(dec_nat(n)),
        dec_nat(n).len() >= 1,
        digits_value(dec_nat(n)) == n,
    decreases n,
{
    if n >= 10 {
        lemma_dec_nat_digits(n / 10);
        let s = dec_nat(n);
        assert(s.drop_last() =~= dec_nat(n / 10));
        let d = n % 10;
        assert(digit_value(digit_char(d as int)) == d);
        assert(s.last() == digit_char(d as int));
        assert(digits_value(s) == digits_value(s.drop_last()) * 10 + digit_value(s.last()));
        assert(n == (n / 10) * 10 + d);
    } else {
        let s = dec_nat(n);
        assert(s.drop_last() =~= Seq::<char>::empty());
        assert(digits_value(s.drop_last()) == 0);
        assert(s.last() == digit_char(n as int));
        assert(digit_value(digit_char(n as int)) == n);
        assert(is_digit(s[0]));
    }
}

/// Rendering an `i32` in decimal and parsing it back as `from_str_radix`
/// does gives the number again.
pub proof fn lemma_i32_round_trip(v: i32)
    ensures
        parse_decimal(dec_int(v as int), true, i32::MIN as int, i32::MAX as int) == Some(v as int),
{
    let s = dec_int(v as int);
    if v < 0 {
        lemma_dec_nat_digits((-v) as nat);
        assert(s.drop_first() =~= dec_nat((-v) as nat));
    } else {
        lemma_dec_nat_digits(v as nat);
    }
}

/// Appends the decimal rendering of `n`.
pub fn push_dec_u128(s: &mut String, n: u128)
    ensures
        final(s)@ == old(s)@ + dec_nat(n as nat),
    decreases n,
{
    if n >= 10 {
        push_dec_u128(s, n / 10);
    }
    let d = (n % 10) as u8;
    let c = digit_to_char(d);
    push_char(s, c);
    assert(final(s)@ =~= old(s)@ + dec_nat(n as nat));
}

/// Appends the decimal rendering of `n`, with `-` when negative.
pub fn push_dec_i64(s: &mut String, n: i64)
    ensures
        final(s)@ == old(s)@ + dec_int(n as int),
{
    if n < 0 {
        push_char(s, '-');
        let m: i128 = -(n as i128);
        push_dec_u128(s, m as u128);
        assert(final(s)@ =~= old(s)@ + dec_int(n as int));
    } else {
        push_dec_u128(s, n as u128);
    }
}

/// Appends `true` or `false`.
pub fn push_bool(s: &mut String, b: bool)
    ensures
        final(s)@ == old(s)@ + bool_text(b),
{
    proof {
        reveal_strlit("true");
        reveal_strlit("false");
    }
    if b {
        s.append("true");
    } else {
        s.append("false");
    }
}

/// Appends a string slice.
pub fn push_str(s: &mut String, t: &str)
    ensures
        final(s)@ == old(s)@ + t@,
{
    s.append(t);
}

/// `from_str_radix(s, 10)` for a type whose values lie in `lo..=hi`.
pub fn parse_decimal_str(s: &str, signed: bool, lo: i64, hi: i64) -> (r: Option<i64>)
    requires
        -0x1_0000_0000 <= lo <= hi <= 0x1_0000_0000,
    ensures
        r matches Some(v) ==> parse_decimal(s@, signed, lo as int, hi as int) == Some(v as int),
        r is None ==> parse_decimal(s@, signed, lo as int, hi as int) is None,
{
    let n = s.unicode_len();
    if n == 0 {
        return None;
    }
    let first = s.get_char(0);
    let neg = signed && first == '-';
    let start: usize = if neg || first == '+' { 1 } else { 0 };
    let ghost body = if neg || first == '+' { s@.drop_first() } else { s@ };
    if start == n {
        return None;
    }
    let mut acc: u64 = 0;
    let mut over = false;
    let mut i = start;
    while i < n
        invariant
            n == s@.len(),
            n > 0,
            first == s@[0],
            neg == (signed && first == '-'),
            body == (if neg || first == '+' { s@.drop_first() } else { s@ }),
            start == (if neg || first == '+' { 1usize } else { 0usize }),
            start <= i <= n,
            start == 0 || start == 1,
            body =~= s@.subrange(start as int, n as int),
            all_digits(body.take(i - start)),
            !over ==> acc == digits_value(body.take(i - start)),
            over ==> digits_value(body.take(i - start)) > 0x2_0000_0000,
            acc <= 0x2_0000_0000,
        decreases n - i,
    {
        let c = s.get_char(i);
        if !('0' <= c && c <= '9') {
            proof {
                assert(body[i - start] == c);
                assert(!is_digit(body[i - start]));
                assert(!all_digits(body));
                assert(s@.len() > 0);
                assert(s@[0] == first);
                assert(parse_decimal(s@, signed, lo as int, hi as int) is None);
            }
            return None;
        }
        let d = char_to_digit(c);
        let ghost pre = body.take(i - start);
        let ghost post = body.take(i - start + 1);
        proof {
            assert(post.drop_last() =~= pre);
            assert(post.last() == c);
        }
        if !over {
            let next = acc * 10 + d;
            if next > 0x2_0000_0000 {
                over = true;
            } else {
                acc = next;
            }
        }
        i = i + 1;
        proof {
            assert(body.take(i - start) =~= post);
        }
    }
    proof {
        assert(body.take(n - start) =~= body);
    }
    if over {
        proof {
            assert(digits_value(body) > 0x2_0000_0000);
        }
        return None;
    }
    let v: i64 = if neg { -(acc as i64) } else { acc as i64 };
    if lo <= v && v <= hi { Some(v) } else { None }
}


/// Whether two string slices hold the same text.
pub fn text_eq(a: &str, b: &str) -> (r: bool)
    ensures
        r == (a@ == b@),
{
    String::from_str(a) == String::from_str(b)
}

/// Whether `s` begins with `prefix`.
pub open spec fn has_prefix(s: Seq<char>, prefix: Seq<char>) -> bool {
    prefix.len() <= s.len() && s.take(prefix.len() as int) == prefix
}

/// Whether `s` begins with `prefix` (`str::starts_with` with a string
/// pattern).
pub fn starts_with(s: &str, prefix: &str) -> (r: bool)
    ensures
        r == has_prefix(s@, prefix@),
{
    let n = s.unicode_len();
    let m = prefix.unicode_len();
    if m > n {
        return false;
    }
    let mut i: usize = 0;
    while i < m
        invariant
            n == s@.len(),
            m == prefix@.len(),
            m <= n,
            i <= m,
            s@.take(i as int) == prefix@.take(i as int),
        decreases m - i,
    {
        if s.get_char(i) != prefix.get_char(i) {
            proof {
                assert(s@.take(m as int)[i as int] != prefix@[i as int]);
            }
            return false;
        }
        i = i + 1;
        proof {
            assert(s@.take(i as int) =~= prefix@.take(i as int));
        }
    }
    proof {
        assert(prefix@.take(m as int) =~= prefix@);
    }
    true
}

/// The index of the first space at or after `from`, or the length of `s`
/// when there is none.
pub open spec fn space_at_or_after(s: Seq<char>, from: int) -> int
    decreases s.len() - from,
{
    if from >= s.len() {
        s.len() as int
    } else if s[from] == ' ' {
        from
    } else {
        space_at_or_after(s, from + 1)
    }
}

/// The second of the fields that single spaces separate
/// (`s.split(" ").nth(1)`): `None` when `s` holds no space.
pub open spec fn second_field(s: Seq<char>) -> Option<Seq<char>> {
    let first = space_at_or_after(s, 0);
    if first >= s.len() {
        None
    } else {
        Some(s.subrange(first + 1, space_at_or_after(s, first + 1)))
    }
}

proof fn lemma_space_bounds(s: Seq<char>, from: int)
    requires
        0 <= from,
    ensures
        from <= space_at_or_after(s, from) || from > s.len(),
        space_at_or_after(s, from) <= s.len(),
        space_at_or_after(s, from) < s.len() ==> s[space_at_or_after(s, from)] == ' ',
    decreases s.len() - from,
{
    if from < s.len() && s[from] != ' ' {
        lemma_space_bounds(s, from + 1);
    }
}

/// The first space at or after `from` (`s@.len()` when there is none).
fn find_space(s: &str, from: usize) -> (r: usize)
    requires
        from <= s@.len(),
    ensures
        r == space_at_or_after(s@, from as int),
{
    let n = s.unicode_len();
    let mut i = from;
    while i < n
        invariant
            n == s@.len(),
            from <= i <= n,
            space_at_or_after(s@, i as int) == space_at_or_after(s@, from as int),
        decreases n - i,
    {
        if s.get_char(i) == ' ' {
            return i;
        }
        i = i + 1;
    }
    i
}

/// The second space-separated field of `s`, if `s` holds a space.
pub fn second_field_of(s: &str) -> (r: Option<&str>)
    ensures
        match r {
            Some(t) => second_field(s@) == Some(t@),
            None => second_field(s@) is None,
        },
{
    let n = s.unicode_len();
    let first = find_space(s, 0);
    proof {
        lemma_space_bounds(s@, 0);
    }
    if first >= n {
        return None;
    }
    let end = find_space(s, first + 1);
    proof {
        lemma_space_bounds(s@, first + 1);
    }
    Some(s.substring_char(first + 1, end))
}


/// The index of the first line feed at or after `from`, or the length of
/// `s` when there is none.
pub open spec fn newline_at_or_after(s: Seq<char>, from: int) -> int
    decreases s.len() - from,
{
    if from >= s.len() {
        s.len() as int
    } else if s[from] == '\n' {
        from
    } else {
        newline_at_or_after(s, from + 1)
    }
}

/// A line without the carriage return that ended it.
pub open spec fn strip_cr(l: Seq<char>) -> Seq<char> {
    if l.len() > 0 && l.last() == '\r' { l.drop_last() } else { l }
}

/// The lines of `s` from index `start` on, as `str::lines` gives them:
/// split after each line feed, a carriage return before the line feed
/// dropped, and no empty line after a final line feed.
pub open spec fn lines_from(s: Seq<char>, start: int) -> Seq<Seq<char>>
    decreases s.len() - start,
{
    if start < 0 || start >= s.len() {
        Seq::empty()
    } else {
        let k = newline_at_or_after(s, start);
        if k >= s.len() {
            seq![s.subrange(start, s.len() as int)]
        } else {
            proof {
                lemma_newline_bounds(s, start);
            }
            seq![strip_cr(s.subrange(start, k))] + lines_from(s, k + 1)
        }
    }
}

/// The first line feed at or after `from` lies between `from` and the end.
pub proof fn lemma_newline_bounds(s: Seq<char>, from: int)
    requires
        0 <= from <= s.len(),
    ensures
        from <= newline_at_or_after(s, from) <= s.len(),
        newline_at_or_after(s, from) < s.len() ==> s[newline_at_or_after(s, from)] == '\n',
    decreases s.len() - from,
{
    if from < s.len() && s[from] != '\n' {
        lemma_newline_bounds(s, from + 1);
    }
}

/// The lines of `s` (`str::lines`).
pub fn text_lines(s: &str) -> (r: Vec<String>)
    ensures
        r.deep_view() == lines_from(s@, 0),
{
    let n = s.unicode_len();
    let mut out: Vec<String> = Vec::new();
    let mut start: usize = 0;
    let mut i: usize = 0;
    while i < n
        invariant
            n == s@.len(),
            start <= i <= n,
            newline_at_or_after(s@, start as int) == newline_at_or_after(s@, i as int),
            out.deep_view() + lines_from(s@, start as int) == lines_from(s@, 0),
        decreases n - i,
    {
        if s.get_char(i) == '\n' {
            let end: usize = if i > start && s.get_char(i - 1) == '\r' { i - 1 } else { i };
            let line = String::from_str(s.substring_char(start, end));
            proof {
                let l = s@.subrange(start as int, i as int);
                assert(newline_at_or_after(s@, i as int) == i);
                if i > start && s@[i - 1] == '\r' {
                    assert(strip_cr(l) =~= s@.subrange(start as int, end as int));
                } else {
                    assert(strip_cr(l) =~= s@.subrange(start as int, end as int));
                }
                assert(lines_from(s@, start as int) == seq![strip_cr(l)] + lines_from(s@, i + 1));
            }
            let ghost before = out.deep_view();
            out.push(line);
            proof {
                assert(out.deep_view() =~= before.push(line@));
                assert(out.deep_view() + lines_from(s@, i + 1) =~= before + lines_from(s@, start as int));
            }
            start = i + 1;
        }
        i = i + 1;
    }
    proof {
        assert(newline_at_or_after(s@, n as int) == n);
    }
    if start < n {
        let ghost before = out.deep_view();
        out.push(String::from_str(s.substring_char(start, n)));
        proof {
            assert(lines_from(s@, start as int) == seq![s@.subrange(start as int, n as int)]);
            assert(out.deep_view() =~= before + lines_from(s@, start as int));
        }
    } else {
        proof {
            assert(lines_from(s@, start as int) =~= Seq::<Seq<char>>::empty());
            assert(out.deep_view() =~= out.deep_view() + lines_from(s@, start as int));
        }
    }
    out
}

/// The widest line, in characters (0 for no lines).
pub open spec fn max_width(lines: Seq<Seq<char>>) -> nat
    decreases lines.len(),
{
    if lines.len() == 0 {
        0
    } else {
        let w = max_width(lines.drop_last());
        if lines.last().len() > w { lines.last().len() } else { w }
    }
}

/// The widest of `lines`, in characters.
pub fn max_line_width(lines: &Vec<String>) -> (r: usize)
    ensures
        r == max_width(lines.deep_view()),
{
    let mut w: usize = 0;
    let mut i: usize = 0;
    while i < lines.len()
        invariant
            i <= lines@.len(),
            w == max_width(lines.deep_view().take(i as int)),
        decreases lines@.len() - i,
    {
        let c = lines[i].as_str().unicode_len();
        proof {
            let t = lines.deep_view().take(i + 1);
            assert(t.drop_last() =~= lines.deep_view().take(i as int));
            assert(t.last() == lines@[i as int]@);
        }
        if c > w {
            w = c;
        }
        i = i + 1;
    }
    proof {
        assert(lines.deep_view().take(i as int) =~= lines.deep_view());
    }
    w
}

} // verus!
