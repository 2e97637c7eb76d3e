use vstd::prelude::*;

verus! {

/// The Unicode `White_Space` property of a character: the controls from tab to carriage
/// return, the space, the next-line control, the no-break spaces, the spaces of fixed
/// width, and the line and paragraph separators.
pub open spec fn is_whitespace_char(c: char) -> bool {
    let n = c as u32;
    ||| 0x9 <= n <= 0xD
    ||| n == 0x20
    ||| n == 0x85
    ||| n == 0xA0
    ||| n == 0x1680
    ||| 0x2000 <= n <= 0x200A
    ||| n == 0x2028
    ||| n == 0x2029
    ||| n == 0x202F
    ||| n == 0x205F
    ||| n == 0x3000
}

/// The Unicode lowercase mapping of a string.
pub uninterp spec fn lowercase_of(s: Seq<char>) -> Seq<char>;

/// `needle` occurs in `hay` as a contiguous run of characters.
pub open spec fn contains_subseq(hay: Seq<char>, needle: Seq<char>) -> bool {
    exists|i: int|
        0 <= i && i + needle.len() <= hay.len() && #[trigger] hay.subrange(
            i,
            i + needle.len(),
        ) == needle
}

/// Every character of `s` is whitespace (so trimming `s` leaves nothing).
pub open spec fn is_blank(s: Seq<char>) -> bool {
    forall|i: int| 0 <= i < s.len() ==> is_whitespace_char(#[trigger] s[i])
}

/// Index of the first line feed of `s` at or after `from`, or `s.len()` if there is none.
pub open spec fn line_end(s: Seq<char>, from: int) -> int
    decreases s.len() - from,
{
    if from < 0 || from >= s.len() || s[from] == '\n' {
        from
    } else {
        line_end(s, from + 1)
    }
}

/// `line` without one trailing carriage return.
pub open spec fn strip_cr(line: Seq<char>) -> Seq<char> {
    if line.len() > 0 && line.last() == '\r' {
        line.drop_last()
    } else {
        line
    }
}

/// The lines of `s` from position `from` on.
pub open spec fn lines_from(s: Seq<char>, from: int) -> Seq<Seq<char>>
    decreases s.len() - from,
{
    if from < 0 || from >= s.len() {
        Seq::empty()
    } else {
        let end = line_end(s, from);
        if from <= end < s.len() {
            seq![strip_cr(s.subrange(from, end))] + lines_from(s, end + 1)
        } else {
            seq![s.subrange(from, s.len() as int)]
        }
    }
}

/// The lines of `s`: it is cut at every line feed, a carriage return directly before a
/// line feed belongs to the line ending, and a final line ending opens no further line.
pub open spec fn lines_of(s: Seq<char>) -> Seq<Seq<char>> {
    lines_from(s, 0)
}

/// `parts` concatenated, with `sep` between neighbours.
pub open spec fn join_with(parts: Seq<Seq<char>>, sep: Seq<char>) -> Seq<char>
    decreases parts.len(),
{
    if parts.len() == 0 {
        Seq::empty()
    } else if parts.len() == 1 {
        parts[0]
    } else {
        join_with(parts.drop_last(), sep) + sep + parts.last()
    }
}

/// The character of the decimal digit `d`.
pub open spec fn digit_char(d: int) -> char {
    if d == 0 {
        '0'
    } else if d == 1 {
        '1'
    } else if d == 2 {
        '2'
    } else if d == 3 {
        '3'
    } else if d == 4 {
        '4'
    } else if d == 5 {
        '5'
    } else if d == 6 {
        '6'
    } else if d == 7 {
        '7'
    } else if d == 8 {
        '8'
    } else {
        '9'
    }
}

/// Decimal digits of a natural number, most significant first, without leading zeros.
pub open spec fn nat_decimal(n: nat) -> Seq<char>
    decreases n,
{
    if n < 10 {
        seq![digit_char(n as int)]
    } else {
        nat_decimal(n / 10).push(digit_char((n % 10) as int))
    }
}

/// Decimal form of an integer: a minus sign for negative numbers, then the digits.
pub open spec fn int_decimal(i: int) -> Seq<char> {
    if i < 0 {
        seq!['-'] + nat_decimal((-i) as nat)
    } else {
        nat_decimal(i as nat)
    }
}

/// The value of a decimal digit.
pub open spec fn digit_value(c: char) -> Option<int> {
    if c == '0' {
        Some(0)
    } else if c == '1' {
        Some(1)
    } else if c == '2' {
        Some(2)
    } else if c == '3' {
        Some(3)
    } else if c == '4' {
        Some(4)
    } else if c == '5' {
        Some(5)
    } else if c == '6' {
        Some(6)
    } else if c == '7' {
        Some(7)
    } else if c == '8' {
        Some(8)
    } else if c == '9' {
        Some(9)
    } else {
        None
    }
}

/// The number that a non-empty run of decimal digits spells.
pub open spec fn digits_value(s: Seq<char>) -> Option<int>
    decreases s.len(),
{
    if s.len() == 0 {
        None
    } else {
        match digit_value(s.last()) {
            None => None,
            Some(d) => if s.len() == 1 {
                Some(d)
            } else {
                match digits_value(s.drop_last()) {
                    None => None,
                    Some(v) => Some(10 * v + d),
                }
            },
        }
    }
}

/// The 32-bit integer that `s` spells: an optional sign and then digits only, with a
/// value in range.
pub open spec fn parsed_i32(s: Seq<char>) -> Option<i32> {
    let signed = s.len() > 0 && (s[0] == '-' || s[0] == '+');
    let digits = if signed {
        s.drop_first()
    } else {
        s
    };
    match digits_value(digits) {
        None => None,
        Some(v) => {
            let value = if s[0] == '-' {
                -v
            } else {
                v
            };
            if i32::MIN <= value <= i32::MAX {
                Some(value as i32)
            } else {
                None
            }
        },
    }
}

/// `s` without the whitespace at its end.
pub open spec fn trim_end_of(s: Seq<char>) -> Seq<char>
    decreases s.len(),
{
    if s.len() > 0 && is_whitespace_char(s.last()) {
        trim_end_of(s.drop_last())
    } else {
        s
    }
}

/// `s` without the whitespace at its start.
pub open spec fn trim_start_of(s: Seq<char>) -> Seq<char>
    decreases s.len(),
{
    if s.len() > 0 && is_whitespace_char(s.first()) {
        trim_start_of(s.drop_first())
    } else {
        s
    }
}

/// `s` without the whitespace at its start and at its end.
pub open spec fn trim_of(s: Seq<char>) -> Seq<char> {
    trim_end_of(trim_start_of(s))
}

/// `s` with `to` in the place of every character `from`.
pub open spec fn replaced_char(s: Seq<char>, from: char, to: Seq<char>) -> Seq<char>
    decreases s.len(),
{
    if s.len() == 0 {
        s
    } else if s.last() == from {
        replaced_char(s.drop_last(), from, to) + to
    } else {
        replaced_char(s.drop_last(), from, to).push(s.last())
    }
}

/// The final component of a path, if it has one.
pub uninterp spec fn path_file_name(path: Seq<char>) -> Option<Seq<char>>;

/// The extension of the final component of a path, if it has one.
pub uninterp spec fn path_extension(path: Seq<char>) -> Option<Seq<char>>;

/// Calls `str::lines` and copies each line: the lines of `s` in order.
#[verifier::external_body]
pub(crate) fn str_lines(s: &str) -> (res: Vec<String>)
    ensures
        res.deep_view() == lines_of(s@),
{
    s.lines().map(|line| line.to_string()).collect()
}

/// Calls `i32::to_string`: the decimal form of `i`.
#[verifier::external_body]
pub(crate) fn i32_to_string(i: i32) -> (res: String)
    ensures
        res@ == int_decimal(i as int),
{
    i.to_string()
}

/// Calls `str::parse` for a 32-bit integer: the number that `s` spells, if it spells one.
#[verifier::external_body]
pub(crate) fn parse_i32(s: &str) -> (res: Option<i32>)
    ensures
        res == parsed_i32(s@),
{
    s.parse::<i32>().ok()
}

/// Calls `str::replace` with a character as the pattern: `s` with `to` in the place of
/// every `from`.
#[verifier::external_body]
pub(crate) fn replace_char(s: &str, from: char, to: &str) -> (res: String)
    ensures
        res@ == replaced_char(s@, from, to@),
{
    s.replace(from, to)
}

/// Calls `u16::to_string`: the decimal form of `n`.
#[verifier::external_body]
pub(crate) fn u16_to_string(n: u16) -> (res: String)
    ensures
        res@ == int_decimal(n as int),
{
    n.to_string()
}

/// Calls `str::trim` and copies the result: `s` without leading and trailing whitespace.
#[verifier::external_body]
pub(crate) fn str_trim(s: &str) -> (res: String)
    ensures
        res@ == trim_of(s@),
{
    s.trim().to_string()
}

/// Calls `Path::file_name` on `path`: its final component, which is absent where the
/// path ends in `..` or is a root.
#[verifier::external_body]
pub(crate) fn file_name_of_path(path: &str) -> (res: Option<String>)
    ensures
        res.deep_view() == path_file_name(path@),
{
    let name = std::path::Path::new(path).file_name();
    name.and_then(|name| name.to_str()).map(|name| name.to_string())
}

/// Calls `Path::extension` on `path`: what follows the last dot of its final component,
/// absent where there is no such dot or only a leading one.
#[verifier::external_body]
pub(crate) fn extension_of_path(path: &str) -> (res: Option<String>)
    ensures
        res.deep_view() == path_extension(path@),
{
    let extension = std::path::Path::new(path).extension();
    extension.and_then(|ext| ext.to_str()).map(|ext| ext.to_string())
}

/// Calls `char::is_whitespace`: whether `c` has the Unicode `White_Space` property,
/// which holds of the 25 code points that the specification lists.
#[verifier::external_body]
pub(crate) fn char_is_whitespace(c: char) -> (res: bool)
    ensures
        res == is_whitespace_char(c),
{
    c.is_whitespace()
}

/// Calls `str::to_lowercase`: the Unicode lowercase mapping of `s`.
#[verifier::external_body]
pub(crate) fn to_lowercase(s: &str) -> (res: String)
    ensures
        res@ == lowercase_of(s@),
{
    s.to_lowercase()
}

/// Calls `str::contains` with a string pattern: whether `needle` is a substring of `hay`.
#[verifier::external_body]
pub(crate) fn str_contains(hay: &str, needle: &str) -> (res: bool)
    ensures
        res == contains_subseq(hay@, needle@),
{
    hay.contains(needle)
}

/// Calls `==` on two string slices: whether they hold the same characters.
#[verifier::external_body]
pub(crate) fn str_eq(a: &str, b: &str) -> (res: bool)
    ensures
        res == (a@ == b@),
{
    a == b
}

/// Whether `s` holds nothing but whitespace.
pub fn str_is_blank(s: &str) -> (res: bool)
    ensures
        res == is_blank(s@),
{
    let mut blank = true;
    for c in it: s.chars()
        invariant
            it.seq() == s@,
            blank == is_blank(s@.take(it.index())),
    {
        let ghost seen = s@.take(it.index());
        let ghost next = s@.take(it.index() + 1);
        assert(next.drop_last() == seen);
        assert(next.last() == c);
        assert(is_blank(next) == (is_blank(seen) && is_whitespace_char(c))) by {
            if is_blank(seen) && is_whitespace_char(c) {
                assert forall|i: int| 0 <= i < next.len() implies is_whitespace_char(
                    #[trigger] next[i],
                ) by {
                    if i < seen.len() {
                        assert(next[i] == seen[i]);
                    }
                }
            } else if is_blank(next) {
                assert forall|i: int| 0 <= i < seen.len() implies is_whitespace_char(
                    #[trigger] seen[i],
                ) by {
                    assert(seen[i] == next[i]);
                }
                assert(is_whitespace_char(next[next.len() - 1]));
            }
        }
        if !char_is_whitespace(c) {
            blank = false;
        }
    }
    assert(s@.take(s@.len() as int) == s@);
    blank
}

/// Joins `parts` with `sep` between neighbours.
pub fn join_strings(parts: &Vec<String>, sep: &str) -> (res: String)
    ensures
        res@ == join_with(parts.deep_view(), sep@),
{
    let mut out = String::new();
    let n = parts.len();
    let mut i: usize = 0;
    assert(parts.deep_view().take(0).len() == 0);
    while i < n
        invariant
            i <= n,
            n == parts.len(),
            out@ == join_with(parts.deep_view().take(i as int), sep@),
        decreases n - i,
    {
        let ghost seen = parts.deep_view().take(i as int);
        let ghost next = parts.deep_view().take(i + 1);
        assert(next.drop_last() == seen);
        assert(next.last() == parts[i as int]@);
        if i > 0 {
            out.append(sep);
        }
        out.append(parts[i].as_str());
        i += 1;
    }
    assert(parts.deep_view().take(n as int) == parts.deep_view());
    out
}

/// Joins `lines` with a line feed between neighbours.
pub fn join_lines(lines: &Vec<String>) -> (res: String)
    ensures
        res@ == join_with(lines.deep_view(), seq!['\n']),
{
    proof {
        reveal_strlit("\n");
        assert("\n"@ == seq!['\n']);
    }
    join_strings(lines, "\n")
}

} // verus!
