//! Characters and positions within a line of source text.
use vstd::prelude::*;
use vstd::string::*;

verus! {

/// The Unicode `White_Space` characters.
pub open spec fn is_space(c: char) -> bool {
    let n = c as u32;
    (0x09 <= n <= 0x0D) || n == 0x20 || n == 0x85 || n == 0xA0 || n == 0x1680 || (0x2000 <= n
        <= 0x200A) || n == 0x2028 || n == 0x2029 || n == 0x202F || n == 0x205F || n == 0x3000
}

/// A character that may stand in an operand token: neither white space nor
/// the comment mark.
pub open spec fn is_token_char(c: char) -> bool {
    !is_space(c) && c != ';'
}

/// A character of a label name.
pub open spec fn is_ident_char(c: char) -> bool {
    ('a' <= c && c <= 'z') || ('A' <= c && c <= 'Z') || ('0' <= c && c <= '9') || c == '_'
}

pub open spec fn is_upper(c: char) -> bool {
    'A' <= c && c <= 'Z'
}

/// The value of a hexadecimal digit of either case.
pub open spec fn hex_value(c: char) -> Option<u8> {
    if '0' <= c && c <= '9' {
        Some((c as u32 - '0' as u32) as u8)
    } else if 'a' <= c && c <= 'f' {
        Some((c as u32 - 'a' as u32 + 10) as u8)
    } else if 'A' <= c && c <= 'F' {
        Some((c as u32 - 'A' as u32 + 10) as u8)
    } else {
        None
    }
}

/// The first position at or after `i` that holds no white space.
pub open spec fn skip_spaces(s: Seq<char>, i: int) -> int
    decreases s.len() - i,
{
    if 0 <= i < s.len() && is_space(s[i]) {
        skip_spaces(s, i + 1)
    } else {
        i
    }
}

/// The first position at or after `i` that holds no token character.
pub open spec fn token_end(s: Seq<char>, i: int) -> int
    decreases s.len() - i,
{
    if 0 <= i < s.len() && is_token_char(s[i]) {
        token_end(s, i + 1)
    } else {
        i
    }
}

/// The first position at or after `i` that holds no label character.
pub open spec fn ident_end(s: Seq<char>, i: int) -> int
    decreases s.len() - i,
{
    if 0 <= i < s.len() && is_ident_char(s[i]) {
        ident_end(s, i + 1)
    } else {
        i
    }
}

/// The first position at or after `i` that holds no upper-case letter.
pub open spec fn upper_end(s: Seq<char>, i: int) -> int
    decreases s.len() - i,
{
    if 0 <= i < s.len() && is_upper(s[i]) {
        upper_end(s, i + 1)
    } else {
        i
    }
}

/// The first position at or after `i` that holds `c`, or the length.
pub open spec fn find_char(s: Seq<char>, i: int, c: char) -> int
    decreases s.len() - i,
{
    if 0 <= i < s.len() && s[i] != c {
        find_char(s, i + 1, c)
    } else {
        i
    }
}

/// `j` moved back over the white space before it, but not before `lo`.
pub open spec fn trim_back(s: Seq<char>, lo: int, j: int) -> int
    decreases j - lo,
{
    if lo < j && j <= s.len() && is_space(s[j - 1]) {
        trim_back(s, lo, j - 1)
    } else {
        j
    }
}

/// A comment runs from position `i` to the end of the line: a `;`, then
/// anything but a line break.
pub open spec fn is_comment_at(s: Seq<char>, i: int) -> bool {
    0 <= i < s.len() && s[i] == ';' && forall|k: int| i < k < s.len() ==> s[k] != '\n'
}

/// From position `i` on, the line holds only white space and, optionally,
/// a comment.
pub open spec fn is_tail(s: Seq<char>, i: int) -> bool {
    skip_spaces(s, i) == s.len() || is_comment_at(s, skip_spaces(s, i))
}

/// The pieces of `s` from position `i` on, cut at each `sep`.
pub open spec fn split_from(s: Seq<char>, i: int, sep: char) -> Seq<Seq<char>>
    decreases s.len() - i,
{
    if 0 <= i <= s.len() {
        let e = find_char(s, i, sep);
        if i <= e < s.len() {
            seq![s.subrange(i, e)] + split_from(s, e + 1, sep)
        } else {
            seq![s.subrange(i, s.len() as int)]
        }
    } else {
        seq![]
    }
}

/// The pieces of `s` cut at each space character (one piece for a string
/// with no space, and empty pieces where spaces meet).
pub open spec fn split_spaces(s: Seq<char>) -> Seq<Seq<char>> {
    split_from(s, 0, ' ')
}

/// The lines of a text: the pieces between line breaks.
pub open spec fn lines_of(s: Seq<char>) -> Seq<Seq<char>> {
    split_from(s, 0, '\n')
}

pub fn is_space_char(c: char) -> (r: bool)
    ensures
        r == is_space(c),
{
    let n = c as u32;
    (0x09 <= n && n <= 0x0D) || n == 0x20 || n == 0x85 || n == 0xA0 || n == 0x1680 || (0x2000
        <= n && n <= 0x200A) || n == 0x2028 || n == 0x2029 || n == 0x202F || n == 0x205F || n
        == 0x3000
}

pub fn is_token_char_exec(c: char) -> (r: bool)
    ensures
        r == is_token_char(c),
{
    !is_space_char(c) && c != ';'
}

pub fn hex_value_exec(c: char) -> (r: Option<u8>)
    ensures
        r == hex_value(c),
{
    if '0' <= c && c <= '9' {
        Some((c as u32 - '0' as u32) as u8)
    } else if 'a' <= c && c <= 'f' {
        Some((c as u32 - 'a' as u32 + 10) as u8)
    } else if 'A' <= c && c <= 'F' {
        Some((c as u32 - 'A' as u32 + 10) as u8)
    } else {
        None
    }
}

pub fn skip_spaces_exec(s: &Vec<char>, i: usize) -> (r: usize)
    requires
        i <= s.len(),
    ensures
        r as int == skip_spaces(s@, i as int),
        i <= r <= s.len(),
{
    let mut j = i;
    while j < s.len() && is_space_char(s[j])
        invariant
            i <= j <= s.len(),
            skip_spaces(s@, j as int) == skip_spaces(s@, i as int),
        decreases s.len() - j,
    {
        j += 1;
    }
    j
}

pub fn token_end_exec(s: &Vec<char>, i: usize) -> (r: usize)
    requires
        i <= s.len(),
    ensures
        r as int == token_end(s@, i as int),
        i <= r <= s.len(),
{
    let mut j = i;
    while j < s.len() && is_token_char_exec(s[j])
        invariant
            i <= j <= s.len(),
            token_end(s@, j as int) == token_end(s@, i as int),
        decreases s.len() - j,
    {
        j += 1;
    }
    j
}

pub fn ident_end_exec(s: &Vec<char>, i: usize) -> (r: usize)
    requires
        i <= s.len(),
    ensures
        r as int == ident_end(s@, i as int),
        i <= r <= s.len(),
{
    let mut j = i;
    while j < s.len() && (('a' <= s[j] && s[j] <= 'z') || ('A' <= s[j] && s[j] <= 'Z') || ('0'
        <= s[j] && s[j] <= '9') || s[j] == '_')
        invariant
            i <= j <= s.len(),
            ident_end(s@, j as int) == ident_end(s@, i as int),
        decreases s.len() - j,
    {
        j += 1;
    }
    j
}

pub fn upper_end_exec(s: &Vec<char>, i: usize) -> (r: usize)
    requires
        i <= s.len(),
    ensures
        r as int == upper_end(s@, i as int),
        i <= r <= s.len(),
{
    let mut j = i;
    while j < s.len() && 'A' <= s[j] && s[j] <= 'Z'
        invariant
            i <= j <= s.len(),
            upper_end(s@, j as int) == upper_end(s@, i as int),
        decreases s.len() - j,
    {
        j += 1;
    }
    j
}

pub fn find_char_exec(s: &Vec<char>, i: usize, c: char) -> (r: usize)
    requires
        i <= s.len(),
    ensures
        r as int == find_char(s@, i as int, c),
        i <= r <= s.len(),
{
    let mut j = i;
    while j < s.len() && s[j] != c
        invariant
            i <= j <= s.len(),
            find_char(s@, j as int, c) == find_char(s@, i as int, c),
        decreases s.len() - j,
    {
        j += 1;
    }
    j
}

pub fn trim_back_exec(s: &Vec<char>, lo: usize, j: usize) -> (r: usize)
    requires
        lo <= j <= s.len(),
    ensures
        r as int == trim_back(s@, lo as int, j as int),
        lo <= r <= j,
{
    let mut k = j;
    while lo < k && is_space_char(s[k - 1])
        invariant
            lo <= k <= j <= s.len(),
            trim_back(s@, lo as int, k as int) == trim_back(s@, lo as int, j as int),
        decreases k,
    {
        k -= 1;
    }
    k
}

pub fn is_comment_at_exec(s: &Vec<char>, i: usize) -> (r: bool)
    requires
        i <= s.len(),
    ensures
        r == is_comment_at(s@, i as int),
{
    if i >= s.len() || s[i] != ';' {
        return false;
    }
    let mut k = i + 1;
    while k < s.len()
        invariant
            i < k <= s.len(),
            forall|m: int| i < m < k ==> s@[m] != '\n',
        decreases s.len() - k,
    {
        if s[k] == '\n' {
            return false;
        }
        k += 1;
    }
    true
}

pub fn is_tail_exec(s: &Vec<char>, i: usize) -> (r: bool)
    requires
        i <= s.len(),
    ensures
        r == is_tail(s@, i as int),
{
    let j = skip_spaces_exec(s, i);
    j == s.len() || is_comment_at_exec(s, j)
}

/// A copy of the characters of `s` from `a` up to `b`.
pub fn slice_of(s: &Vec<char>, a: usize, b: usize) -> (r: Vec<char>)
    requires
        a <= b <= s.len(),
    ensures
        r@ == s@.subrange(a as int, b as int),
{
    let mut out: Vec<char> = Vec::new();
    let mut k = a;
    while k < b
        invariant
            a <= k <= b <= s.len(),
            out@ == s@.subrange(a as int, k as int),
        decreases b - k,
    {
        out.push(s[k]);
        k += 1;
        assert(out@ =~= s@.subrange(a as int, k as int));
    }
    out
}

/// Whether `a` and `b` hold the same characters.
pub fn same_chars(a: &Vec<char>, b: &Vec<char>) -> (r: bool)
    ensures
        r == (a@ == b@),
{
    if a.len() != b.len() {
        return false;
    }
    let mut k: usize = 0;
    while k < a.len()
        invariant
            k <= a.len() == b.len(),
            forall|m: int| 0 <= m < k ==> a@[m] == b@[m],
        decreases a.len() - k,
    {
        if a[k] != b[k] {
            return false;
        }
        k += 1;
    }
    assert(a@ =~= b@);
    true
}

/// Whether `a` holds exactly the characters of `lit`.
pub fn same_as_str(a: &Vec<char>, lit: &str) -> (r: bool)
    ensures
        r == (a@ == lit@),
{
    let n = lit.unicode_len();
    if a.len() != n {
        return false;
    }
    let mut k: usize = 0;
    while k < n
        invariant
            k <= n == a.len() == lit@.len(),
            forall|m: int| 0 <= m < k ==> a@[m] == lit@[m],
        decreases n - k,
    {
        if a[k] != lit.get_char(k) {
            return false;
        }
        k += 1;
    }
    assert(a@ =~= lit@);
    true
}

/// The pieces of `s` cut at each `sep`.
pub fn split_exec(s: &Vec<char>, sep: char) -> (r: Vec<Vec<char>>)
    ensures
        r@.map_values(|w: Vec<char>| w@) == split_from(s@, 0, sep),
{
    let mut out: Vec<Vec<char>> = Vec::new();
    let mut i: usize = 0;
    loop
        invariant
            i <= s.len(),
            split_from(s@, 0, sep) == out@.map_values(|w: Vec<char>| w@) + split_from(
                s@,
                i as int,
                sep,
            ),
        decreases s.len() - i,
    {
        let e = find_char_exec(s, i, sep);
        let w = slice_of(s, i, e);
        let ghost prev = out@.map_values(|w: Vec<char>| w@);
        out.push(w);
        assert(out@.map_values(|w: Vec<char>| w@) =~= prev.push(w@));
        if e < s.len() {
            assert(split_from(s@, i as int, sep) == seq![w@] + split_from(s@, e + 1, sep));
            assert(prev + split_from(s@, i as int, sep) =~= prev.push(w@) + split_from(s@, e + 1, sep));
            i = e + 1;
        } else {
            assert(split_from(s@, i as int, sep) == seq![w@]);
            assert(prev + split_from(s@, i as int, sep) =~= prev.push(w@));
            return out;
        }
    }
}

/// Relies on `String`'s `FromIterator<char>`: the string holds the given
/// characters, in order.
#[verifier::external_body]
pub(crate) fn string_from_chars(c: &Vec<char>) -> (r: String)
    ensures
        r@ == c@,
{
    c.iter().collect()
}

/// The characters of `s`, in order.
pub fn chars_of(s: &str) -> (r: Vec<char>)
    ensures
        r@ == s@,
{
    let mut out: Vec<char> = Vec::new();
    for c in it: s.chars()
        invariant
            out@ == it.seq().take(it.index() as int),
    {
        out.push(c);
    }
    out
}

} // verus!
