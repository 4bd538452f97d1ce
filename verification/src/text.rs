use vstd::prelude::*;

verus! {

/// Compares two string slices: true exactly when they hold the same
/// characters.
pub(crate) fn str_eq(a: &str, b: &str) -> (same: bool)
    ensures
        same == (a@ == b@),
{
    let left = a.to_owned();
    let right = b.to_owned();
    left == right
}

/// The characters of a text that may be missing.
pub open spec fn text_of(value: Option<String>) -> Option<Seq<char>> {
    match value {
        Some(text) => Some(text@),
        None => None,
    }
}

/// The characters that count as white space when a line or a version banner
/// is split: the code points with the Unicode property `White_Space`.
pub open spec fn is_space(c: char) -> bool {
    let n = c as u32;
    (0x09 <= n <= 0x0D) || n == 0x20 || n == 0x85 || n == 0xA0 || n == 0x1680 || (0x2000 <= n
        <= 0x200A) || n == 0x2028 || n == 0x2029 || n == 0x202F || n == 0x205F || n == 0x3000
}

/// True when every character of `text` is white space.
pub open spec fn is_blank(text: Seq<char>) -> bool {
    forall|i: int| 0 <= i < text.len() ==> is_space(#[trigger] text[i])
}

/// Tells whether a character is white space.
pub fn char_is_space(c: char) -> (space: bool)
    ensures
        space == is_space(c),
{
    let n: u32 = c as u32;
    (0x09 <= n && n <= 0x0D) || n == 0x20 || n == 0x85 || n == 0xA0 || n == 0x1680 || (0x2000 <= n
        && n <= 0x200A) || n == 0x2028 || n == 0x2029 || n == 0x202F || n == 0x205F || n == 0x3000
}

/// Tells whether a line holds nothing but white space.
pub fn blank(text: &str) -> (b: bool)
    ensures
        b == is_blank(text@),
{
    let n = text.unicode_len();
    let mut i: usize = 0;
    while i < n
        invariant
            n == text@.len(),
            i <= n,
            forall|k: int| 0 <= k < i ==> is_space(#[trigger] text@[k]),
        decreases n - i,
    {
        if !char_is_space(text.get_char(i)) {
            return false;
        }
        i += 1;
    }
    true
}

/// The end of the run of characters that starts at `from` and whose members
/// all are white space (`spaces`) or all are not.
pub open spec fn run_end(text: Seq<char>, from: int, spaces: bool) -> int
    decreases text.len() - from,
{
    if 0 <= from < text.len() && is_space(text[from]) == spaces {
        run_end(text, from + 1, spaces)
    } else {
        from
    }
}

/// The first word of `text`: what stands between the leading white space and
/// the next white space. A blank text has none.
pub open spec fn first_token(text: Seq<char>) -> Option<Seq<char>> {
    let start = run_end(text, 0, true);
    let end = run_end(text, start, false);
    if start >= text.len() {
        None
    } else {
        Some(text.subrange(start, end))
    }
}

fn scan_run(text: &str, from: usize, spaces: bool) -> (end: usize)
    requires
        from <= text@.len(),
    ensures
        end == run_end(text@, from as int, spaces),
        from <= end <= text@.len(),
{
    let n = text.unicode_len();
    let mut i: usize = from;
    while i < n && char_is_space(text.get_char(i)) == spaces
        invariant
            n == text@.len(),
            from <= i <= n,
            run_end(text@, from as int, spaces) == run_end(text@, i as int, spaces),
        decreases n - i,
    {
        i += 1;
    }
    i
}

/// Returns the first word of `text`, or `None` if it is blank.
pub fn take_first_token(text: &str) -> (token: Option<&str>)
    ensures
        match first_token(text@) {
            Some(word) => token is Some && token->0@ == word,
            None => token is None,
        },
{
    let start = scan_run(text, 0, true);
    if start >= text.unicode_len() {
        return None;
    }
    let end = scan_run(text, start, false);
    Some(text.substring_char(start, end))
}

/// The pieces of `text` between the occurrences of `sep`; a text without
/// `sep` is one piece, the empty text too.
pub open spec fn split(text: Seq<char>, sep: char) -> Seq<Seq<char>>
    decreases text.len(),
{
    if text.len() == 0 {
        seq![Seq::empty()]
    } else if text.last() == sep {
        split(text.drop_last(), sep).push(Seq::empty())
    } else {
        let before = split(text.drop_last(), sep);
        before.drop_last().push(before.last().push(text.last()))
    }
}

/// Splits `text` at every occurrence of `sep`.
pub fn split_at_char(text: &str, sep: char) -> (pieces: Vec<String>)
    ensures
        pieces.deep_view() == split(text@, sep),
{
    let n = text.unicode_len();
    let mut pieces: Vec<String> = Vec::new();
    let mut start: usize = 0;
    let mut i: usize = 0;
    proof {
        assert(text@.take(0) =~= Seq::<char>::empty());
        assert(pieces.deep_view().push(text@.subrange(0, 0)) =~= seq![Seq::<char>::empty()]);
    }
    while i < n
        invariant
            n == text@.len(),
            start <= i <= n,
            pieces.deep_view().push(text@.subrange(start as int, i as int)) == split(
                text@.take(i as int),
                sep,
            ),
        decreases n - i,
    {
        let c = text.get_char(i);
        proof {
            let prefix = text@.take(i + 1);
            assert(prefix.drop_last() =~= text@.take(i as int));
            assert(prefix.last() == c);
            let before = split(text@.take(i as int), sep);
            assert(before.last() == text@.subrange(start as int, i as int));
            assert(before.drop_last() =~= pieces.deep_view());
        }
        if c == sep {
            let piece = text.substring_char(start, i);
            let ghost old_pieces = pieces.deep_view();
            pieces.push(String::from_str(piece));
            assert(pieces.deep_view() =~= old_pieces.push(text@.subrange(start as int, i as int)));
            start = i + 1;
            assert(text@.subrange(start as int, i + 1) =~= Seq::<char>::empty());
        } else {
            assert(text@.subrange(start as int, i + 1) =~= text@.subrange(
                start as int,
                i as int,
            ).push(c));
        }
        i += 1;
    }
    let piece = text.substring_char(start, n);
    let ghost old_pieces = pieces.deep_view();
    pieces.push(String::from_str(piece));
    proof {
        assert(pieces.deep_view() =~= old_pieces.push(text@.subrange(start as int, n as int)));
        assert(text@.take(n as int) =~= text@);
    }
    pieces
}

/// The place behind the last character of `text` that is no white space.
pub open spec fn trim_end(text: Seq<char>) -> int
    decreases text.len(),
{
    if text.len() > 0 && is_space(text.last()) {
        trim_end(text.drop_last())
    } else {
        text.len() as int
    }
}

/// `text` without the white space at its two ends.
pub open spec fn trimmed(text: Seq<char>) -> Seq<char> {
    let start = run_end(text, 0, true);
    let end = trim_end(text);
    if start >= end {
        Seq::empty()
    } else {
        text.subrange(start, end)
    }
}

/// Takes the white space at the two ends of `text` away.
pub fn trim(text: &str) -> (out: &str)
    ensures
        out@ == trimmed(text@),
{
    let n = text.unicode_len();
    let start = scan_run(text, 0, true);
    let mut end: usize = n;
    assert(text@.take(n as int) =~= text@);
    while end > 0 && char_is_space(text.get_char(end - 1))
        invariant
            n == text@.len(),
            end <= n,
            trim_end(text@) == trim_end(text@.take(end as int)),
        decreases end,
    {
        proof {
            assert(text@.take(end as int).drop_last() =~= text@.take(end - 1));
            assert(text@.take(end as int).last() == text@[end - 1]);
        }
        end = end - 1;
    }
    proof {
        assert(text@.take(n as int) =~= text@);
        if end > 0 {
            assert(text@.take(end as int).last() == text@[end - 1]);
        }
        assert(trim_end(text@.take(end as int)) == end);
    }
    if start >= end {
        proof {
            reveal_strlit("");
            assert(""@ =~= Seq::<char>::empty());
        }
        ""
    } else {
        text.substring_char(start, end)
    }
}

/// `parts` written one after the other with `sep` between neighbours.
pub open spec fn joined(parts: Seq<Seq<char>>, sep: Seq<char>) -> Seq<char>
    decreases parts.len(),
{
    if parts.len() == 0 {
        Seq::empty()
    } else if parts.len() == 1 {
        parts[0]
    } else {
        joined(parts.drop_last(), sep) + sep + parts.last()
    }
}

/// Joins the strings of `parts` with `sep` between neighbours.
pub fn join(parts: &Vec<String>, sep: &str) -> (out: String)
    ensures
        out@ == joined(parts.deep_view(), sep@),
{
    let mut out = String::new();
    let mut i: usize = 0;
    while i < parts.len()
        invariant
            i <= parts.len(),
            out@ == joined(parts.deep_view().take(i as int), sep@),
        decreases parts.len() - i,
    {
        proof {
            let before = parts.deep_view().take(i as int);
            let after = parts.deep_view().take(i + 1);
            assert(after.drop_last() =~= before);
            assert(after.last() == parts[i as int]@);
        }
        if i > 0 {
            out.append(sep);
        }
        out.append(parts[i].as_str());
        i += 1;
    }
    proof {
        assert(parts.deep_view().take(parts.len() as int) =~= parts.deep_view());
    }
    out
}

/// The character that stands for one decimal digit.
pub open spec fn digit_char(d: nat) -> char {
    ((48 + d) as u8) as char
}

/// `n` in decimal notation, without leading zeros.
pub open spec fn decimal(n: nat) -> Seq<char>
    decreases n,
{
    if n < 10 {
        seq![digit_char(n)]
    } else {
        decimal(n / 10).push(digit_char(n % 10))
    }
}

fn digit_str(d: u64) -> (s: &'static str)
    requires
        d < 10,
    ensures
        s@ == seq![digit_char(d as nat)],
{
    proof {
        reveal_strlit("0");
        reveal_strlit("1");
        reveal_strlit("2");
        reveal_strlit("3");
        reveal_strlit("4");
        reveal_strlit("5");
        reveal_strlit("6");
        reveal_strlit("7");
        reveal_strlit("8");
        reveal_strlit("9");
    }
    let s = match d {
        0 => "0",
        1 => "1",
        2 => "2",
        3 => "3",
        4 => "4",
        5 => "5",
        6 => "6",
        7 => "7",
        8 => "8",
        _ => "9",
    };
    assert(s@ =~= seq![digit_char(d as nat)]);
    s
}

/// Writes `n` in decimal notation.
pub fn decimal_string(n: u64) -> (out: String)
    ensures
        out@ == decimal(n as nat),
    decreases n,
{
    if n < 10 {
        String::from_str(digit_str(n))
    } else {
        let mut out = decimal_string(n / 10);
        out.append(digit_str(n % 10));
        assert(out@ =~= decimal(n as nat));
        out
    }
}

/// `n` in decimal notation, with a minus sign where it is negative.
pub open spec fn signed_decimal(n: int) -> Seq<char> {
    if n < 0 {
        seq!['-'] + decimal((-n) as nat)
    } else {
        decimal(n as nat)
    }
}

/// Writes `n` in decimal notation.
pub fn signed_decimal_string(n: i64) -> (out: String)
    ensures
        out@ == signed_decimal(n as int),
{
    if n < 0 {
        proof {
            reveal_strlit("-");
            assert("-"@ =~= seq!['-']);
        }
        let magnitude: u64 = if n == i64::MIN {
            9223372036854775808u64
        } else {
            (-n) as u64
        };
        String::from_str("-").concat(decimal_string(magnitude).as_str())
    } else {
        decimal_string(n as u64)
    }
}

/// What is left of `text` after `prefix`, where the text begins with it.
pub open spec fn stripped(text: Seq<char>, prefix: Seq<char>) -> Option<Seq<char>> {
    if prefix.is_prefix_of(text) {
        Some(text.skip(prefix.len() as int))
    } else {
        None
    }
}

/// Takes `prefix` off the beginning of `text`.
pub fn strip_prefix<'a>(text: &'a str, prefix: &str) -> (rest: Option<&'a str>)
    ensures
        match stripped(text@, prefix@) {
            Some(left) => rest is Some && rest->0@ == left,
            None => rest is None,
        },
{
    let n = text.unicode_len();
    let m = prefix.unicode_len();
    if m > n {
        return None;
    }
    let mut i: usize = 0;
    while i < m
        invariant
            m <= n,
            n == text@.len(),
            m == prefix@.len(),
            i <= m,
            forall|k: int| 0 <= k < i ==> text@[k] == prefix@[k],
        decreases m - i,
    {
        if text.get_char(i) != prefix.get_char(i) {
            assert(prefix@[i as int] != text@.subrange(0, m as int)[i as int]);
            return None;
        }
        i += 1;
    }
    assert(prefix@ =~= text@.subrange(0, m as int));
    assert(text@.subrange(m as int, n as int) =~= text@.skip(m as int));
    Some(text.substring_char(m, n))
}

/// The value of a decimal digit.
pub open spec fn digit_value(c: char) -> Option<nat> {
    if c == '0' {
        Some(0)
    } else if c == '1' {
        Some(1)
    } else if c == '2' {
        Some(2)
    } else if c == '3' {
        Some(3)
    } else if c == '4' {
        Some(4)
    } else if c == '5' {
        Some(5)
    } else if c == '6' {
        Some(6)
    } else if c == '7' {
        Some(7)
    } else if c == '8' {
        Some(8)
    } else if c == '9' {
        Some(9)
    } else {
        None
    }
}

/// The number that a run of decimal digits writes; none where a character
/// is no digit.
pub open spec fn digits_value(digits: Seq<char>) -> Option<nat>
    decreases digits.len(),
{
    if digits.len() == 0 {
        Some(0)
    } else {
        match (digits_value(digits.drop_last()), digit_value(digits.last())) {
            (Some(value), Some(digit)) => Some(10 * value + digit),
            _ => None,
        }
    }
}

/// The number that a text writes in decimal notation: a plus sign or none,
/// then one digit or more, and nothing else.
pub open spec fn unsigned_decimal(text: Seq<char>) -> Option<nat> {
    let digits = if text.len() > 0 && text[0] == '+' {
        text.skip(1)
    } else {
        text
    };
    if digits.len() == 0 {
        None
    } else {
        digits_value(digits)
    }
}

fn digit_of(c: char) -> (digit: Option<u64>)
    ensures
        match digit_value(c) {
            Some(value) => digit == Some(value as u64) && value < 10,
            None => digit is None,
        },
{
    match c {
        '0' => Some(0),
        '1' => Some(1),
        '2' => Some(2),
        '3' => Some(3),
        '4' => Some(4),
        '5' => Some(5),
        '6' => Some(6),
        '7' => Some(7),
        '8' => Some(8),
        '9' => Some(9),
        _ => None,
    }
}

proof fn lemma_digits_prefix(digits: Seq<char>, k: int)
    requires
        0 <= k <= digits.len(),
        digits_value(digits) is Some,
    ensures
        digits_value(digits.take(k)) is Some,
        digits_value(digits.take(k))->0 <= digits_value(digits)->0,
    decreases digits.len(),
{
    if k == digits.len() {
        assert(digits.take(k) =~= digits);
    } else {
        assert(digits.drop_last().take(k) =~= digits.take(k));
        lemma_digits_prefix(digits.drop_last(), k);
    }
}

/// Reads a number in decimal notation that fits in 64 bits.
pub fn parse_u64(text: &str) -> (value: Option<u64>)
    ensures
        value == match unsigned_decimal(text@) {
            Some(number) => if number <= u64::MAX {
                Some(number as u64)
            } else {
                None
            },
            None => None,
        },
{
    let n = text.unicode_len();
    let start: usize = if n > 0 && text.get_char(0) == '+' {
        1
    } else {
        0
    };
    if start >= n {
        return None;
    }
    let ghost digits = text@.skip(start as int);
    let mut value: u64 = 0;
    let mut i: usize = start;
    proof {
        assert(digits.take(0) =~= Seq::<char>::empty());
        assert(text@.skip(0) =~= text@);
    }
    while i < n
        invariant
            n == text@.len(),
            start <= i <= n,
            start < n,
            digits == text@.skip(start as int),
            unsigned_decimal(text@) == digits_value(digits),
            digits_value(digits.take(i - start)) == Some(value as nat),
        decreases n - i,
    {
        let ghost after = digits.take(i - start + 1);
        proof {
            assert(after.drop_last() =~= digits.take(i - start));
            assert(after.last() == text@[i as int]);
        }
        let digit = match digit_of(text.get_char(i)) {
            Some(digit) => digit,
            None => {
                proof {
                    if digits_value(digits) is Some {
                        lemma_digits_prefix(digits, i - start + 1);
                    }
                }
                return None;
            },
        };
        if value > (u64::MAX - digit) / 10 {
            proof {
                if digits_value(digits) is Some {
                    lemma_digits_prefix(digits, i - start + 1);
                }
            }
            return None;
        }
        value = value * 10 + digit;
        i += 1;
    }
    proof {
        assert(digits.take(n - start) =~= digits);
    }
    Some(value)
}

} // verus!
