//! Verified text helpers shared by path derivation, format detection and
//! size formatting: last occurrence of a character, ASCII lowering, and
//! decimal rendering of integers.

use vstd::prelude::*;
use vstd::string::StrSliceExecFns;
use vstd::string::StringExecFns;

verus! {

/// Index of the last occurrence of `c` in `s`, or -1 when `c` does not occur.
pub open spec fn last_index_of(s: Seq<char>, c: char) -> int
    decreases s.len(),
{
    if s.len() == 0 {
        -1
    } else if s.last() == c {
        s.len() - 1
    } else {
        last_index_of(s.drop_last(), c)
    }
}

pub proof fn lemma_last_index_of(s: Seq<char>, c: char)
    ensures
        -1 <= last_index_of(s, c) < s.len(),
        last_index_of(s, c) >= 0 ==> s[last_index_of(s, c)] == c,
        forall|m: int| last_index_of(s, c) < m < s.len() ==> s[m] != c,
    decreases s.len(),
{
    if s.len() > 0 && s.last() != c {
        lemma_last_index_of(s.drop_last(), c);
        assert forall|m: int| last_index_of(s, c) < m < s.len() implies s[m] != c by {
            if m < s.len() - 1 {
                assert(s.drop_last()[m] == s[m]);
            }
        }
    }
}

/// Position of the last occurrence of `c`, scanning characters from the end.
pub fn find_last_char(s: &str, c: char) -> (r: Option<usize>)
    ensures
        (r matches Some(i) ==> i == last_index_of(s@, c)),
        (r is None ==> last_index_of(s@, c) == -1),
{
    let n = s.unicode_len();
    let mut j = n;
    while j > 0
        invariant
            j <= n,
            n == s@.len(),
            forall|m: int| j <= m < n ==> s@[m] != c,
        decreases j,
    {
        j = j - 1;
        if s.get_char(j) == c {
            proof {
                lemma_last_index_of(s@, c);
                let l = last_index_of(s@, c);
                if l > j {
                    assert(s@[l] != c);
                }
                if l < j {
                    assert(s@[j as int] != c);
                }
            }
            return Some(j);
        }
    }
    proof {
        lemma_last_index_of(s@, c);
        let l = last_index_of(s@, c);
        if l >= 0 {
            assert(s@[l] != c);
        }
    }
    None
}

/// The part of `path` after its last slash: the file name, possibly empty.
pub open spec fn file_name_of(path: Seq<char>) -> Seq<char> {
    path.subrange(last_index_of(path, '/') + 1, path.len() as int)
}

/// The file name without its extension. A dot at the very start of the name
/// opens no extension, so a leading-dot name is its own stem.
pub open spec fn stem_of(name: Seq<char>) -> Seq<char> {
    let d = last_index_of(name, '.');
    if d <= 0 {
        name
    } else {
        name.subrange(0, d)
    }
}

/// The extension of a file name: what follows the last dot, provided that
/// dot is neither absent nor the first character; empty otherwise.
pub open spec fn extension_of(name: Seq<char>) -> Seq<char> {
    let d = last_index_of(name, '.');
    if d <= 0 {
        Seq::empty()
    } else {
        name.subrange(d + 1, name.len() as int)
    }
}

/// The file-name part of `path`: its characters after the last slash.
pub fn file_name_part<'a>(path: &'a str) -> (r: &'a str)
    ensures
        r@ == file_name_of(path@),
{
    let n = path.unicode_len();
    proof {
        lemma_last_index_of(path@, '/');
    }
    let start: usize = match find_last_char(path, '/') {
        Some(i) => i + 1,
        None => 0,
    };
    path.substring_char(start, n)
}

/// ASCII upper-case letters lowered; every other character kept.
pub open spec fn lower_char(c: char) -> char {
    if c == 'A' { 'a' }
    else if c == 'B' { 'b' }
    else if c == 'C' { 'c' }
    else if c == 'D' { 'd' }
    else if c == 'E' { 'e' }
    else if c == 'F' { 'f' }
    else if c == 'G' { 'g' }
    else if c == 'H' { 'h' }
    else if c == 'I' { 'i' }
    else if c == 'J' { 'j' }
    else if c == 'K' { 'k' }
    else if c == 'L' { 'l' }
    else if c == 'M' { 'm' }
    else if c == 'N' { 'n' }
    else if c == 'O' { 'o' }
    else if c == 'P' { 'p' }
    else if c == 'Q' { 'q' }
    else if c == 'R' { 'r' }
    else if c == 'S' { 's' }
    else if c == 'T' { 't' }
    else if c == 'U' { 'u' }
    else if c == 'V' { 'v' }
    else if c == 'W' { 'w' }
    else if c == 'X' { 'x' }
    else if c == 'Y' { 'y' }
    else if c == 'Z' { 'z' }
    else { c }
}

/// `s` with every ASCII upper-case letter lowered.
pub open spec fn lower_seq(s: Seq<char>) -> Seq<char> {
    s.map_values(|c: char| lower_char(c))
}

pub fn to_lower_char(c: char) -> (r: char)
    ensures
        r == lower_char(c),
{
    match c {
        'A' => 'a',
        'B' => 'b',
        'C' => 'c',
        'D' => 'd',
        'E' => 'e',
        'F' => 'f',
        'G' => 'g',
        'H' => 'h',
        'I' => 'i',
        'J' => 'j',
        'K' => 'k',
        'L' => 'l',
        'M' => 'm',
        'N' => 'n',
        'O' => 'o',
        'P' => 'p',
        'Q' => 'q',
        'R' => 'r',
        'S' => 's',
        'T' => 't',
        'U' => 'u',
        'V' => 'v',
        'W' => 'w',
        'X' => 'x',
        'Y' => 'y',
        'Z' => 'z',
        _ => c,
    }
}

/// Whether the characters of `s` between `from` and `to`, lowered, spell
/// exactly `lower`.
pub fn region_matches_lower(s: &str, from: usize, to: usize, lower: &str) -> (r: bool)
    requires
        from <= to <= s@.len(),
    ensures
        r == (lower_seq(s@.subrange(from as int, to as int)) == lower@),
{
    let llen = lower.unicode_len();
    let ghost sub = s@.subrange(from as int, to as int);
    if to - from != llen {
        proof {
            assert(lower_seq(sub).len() == sub.len());
        }
        return false;
    }
    let mut i: usize = 0;
    while i < llen
        invariant
            i <= llen,
            llen == lower@.len(),
            to - from == llen,
            from <= to <= s@.len(),
            sub == s@.subrange(from as int, to as int),
            forall|m: int| 0 <= m < i ==> lower_char(sub[m]) == #[trigger] lower@[m],
        decreases llen - i,
    {
        let a = to_lower_char(s.get_char(from + i));
        let b = lower.get_char(i);
        proof {
            assert(sub[i as int] == s@[from + i]);
        }
        if a != b {
            proof {
                assert(lower_seq(sub)[i as int] == lower_char(sub[i as int]));
            }
            return false;
        }
        i = i + 1;
    }
    proof {
        assert forall|m: int| 0 <= m < llen implies lower_seq(sub)[m] == lower@[m] by {
            assert(lower_char(sub[m]) == lower@[m]);
        }
        assert(lower_seq(sub) =~= lower@);
    }
    true
}

/// One decimal digit as text; meaningful for 0 to 9.
pub open spec fn dec_digit(d: int) -> Seq<char> {
    if d == 0 { "0"@ }
    else if d == 1 { "1"@ }
    else if d == 2 { "2"@ }
    else if d == 3 { "3"@ }
    else if d == 4 { "4"@ }
    else if d == 5 { "5"@ }
    else if d == 6 { "6"@ }
    else if d == 7 { "7"@ }
    else if d == 8 { "8"@ }
    else { "9"@ }
}

/// Decimal rendering of a non-negative integer, most significant digit first.
pub open spec fn dec_string(n: int) -> Seq<char>
    decreases n,
{
    if n < 10 {
        dec_digit(n)
    } else {
        dec_string(n / 10) + dec_digit(n % 10)
    }
}

pub fn dec_digit_str(d: u64) -> (r: &'static str)
    requires
        d < 10,
    ensures
        r@ == dec_digit(d as int),
{
    match d {
        0 => "0",
        1 => "1",
        2 => "2",
        3 => "3",
        4 => "4",
        5 => "5",
        6 => "6",
        7 => "7",
        8 => "8",
        _ => "9",
    }
}

/// Appends the decimal rendering of `n` to `out`.
pub fn push_dec(out: &mut String, n: u128)
    ensures
        final(out)@ == old(out)@ + dec_string(n as int),
    decreases n,
{
    if n < 10 {
        out.append(dec_digit_str(n as u64));
    } else {
        let ghost start = out@;
        push_dec(out, n / 10);
        out.append(dec_digit_str((n % 10) as u64));
        proof {
            assert(out@ =~= start + dec_string(n as int));
        }
    }
}

} // verus!
