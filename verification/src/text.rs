//! Text: comparing, joining, trimming, and numbers written in decimal.

use vstd::prelude::*;

verus! {

/// Whether two pieces of text hold the same characters.
pub fn same_text(a: &str, b: &str) -> (same: bool)
    ensures
        same == (a@ == b@),
{
    a.to_owned() == b.to_owned()
}

/// `b` written after `a`.
pub fn joined(a: &str, b: &str) -> (whole: String)
    ensures
        whole@ == a@ + b@,
{
    a.to_owned().concat(b)
}

/// `a`, `b` and `c`, one after the other.
pub fn joined3(a: &str, b: &str, c: &str) -> (whole: String)
    ensures
        whole@ == a@ + b@ + c@,
{
    a.to_owned().concat(b).concat(c)
}

/// The pieces in order, with the separator between each two of them.
pub open spec fn separated(pieces: Seq<String>, separator: Seq<char>) -> Seq<char>
    decreases pieces.len(),
{
    if pieces.len() == 0 {
        seq![]
    } else if pieces.len() == 1 {
        pieces[0]@
    } else {
        separated(pieces.drop_last(), separator) + separator + pieces.last()@
    }
}

/// Writes the pieces one after the other, with the separator between them.
pub fn join_pieces(pieces: &Vec<String>, separator: &str) -> (whole: String)
    ensures
        whole@ == separated(pieces@, separator@),
{
    let mut whole = String::new();
    for i in 0..pieces.len()
        invariant
            whole@ == separated(pieces@.take(i as int), separator@),
    {
        assert(pieces@.take(i + 1).drop_last() == pieces@.take(i as int));
        if i > 0 {
            whole.append(separator);
        }
        whole.append(pieces[i].as_str());
        assert(whole@ == separated(pieces@.take(i + 1), separator@));
    }
    assert(pieces@.take(pieces.len() as int) == pieces@);
    whole
}

/// The characters with the Unicode property `White_Space`.
pub open spec fn is_white_space(c: char) -> bool {
    ||| '\u{9}' <= c <= '\u{d}'
    ||| c == '\u{20}'
    ||| c == '\u{85}'
    ||| c == '\u{a0}'
    ||| c == '\u{1680}'
    ||| '\u{2000}' <= c <= '\u{200a}'
    ||| c == '\u{2028}'
    ||| c == '\u{2029}'
    ||| c == '\u{202f}'
    ||| c == '\u{205f}'
    ||| c == '\u{3000}'
}

/// Tells white space from every other character.
pub fn white_space(c: char) -> (white: bool)
    ensures
        white == is_white_space(c),
{
    ('\u{9}' <= c && c <= '\u{d}') || c == '\u{20}' || c == '\u{85}' || c == '\u{a0}' || c
        == '\u{1680}' || ('\u{2000}' <= c && c <= '\u{200a}') || c == '\u{2028}' || c == '\u{2029}'
        || c == '\u{202f}' || c == '\u{205f}' || c == '\u{3000}'
}

/// The text without the white space at its start.
pub open spec fn without_leading_space(s: Seq<char>) -> Seq<char>
    decreases s.len(),
{
    if s.len() > 0 && is_white_space(s[0]) {
        without_leading_space(s.drop_first())
    } else {
        s
    }
}

/// The text without the white space at its end.
pub open spec fn without_trailing_space(s: Seq<char>) -> Seq<char>
    decreases s.len(),
{
    if s.len() > 0 && is_white_space(s.last()) {
        without_trailing_space(s.drop_last())
    } else {
        s
    }
}

/// The text without the white space at either end.
pub open spec fn trimmed(s: Seq<char>) -> Seq<char> {
    without_trailing_space(without_leading_space(s))
}

/// Takes the white space off both ends of a text.
pub fn trim(s: &str) -> (r: String)
    ensures
        r@ == trimmed(s@),
{
    let n: usize = s.unicode_len();
    let mut start: usize = 0;
    assert(s@.skip(0) == s@);
    while start < n && white_space(s.get_char(start))
        invariant
            start <= n == s@.len(),
            without_leading_space(s@) == without_leading_space(s@.skip(start as int)),
        decreases n - start,
    {
        assert(s@.skip(start as int).drop_first() == s@.skip(start + 1));
        start = start + 1;
    }
    assert(without_leading_space(s@) == s@.skip(start as int));
    let mut end: usize = n;
    assert(s@.subrange(start as int, n as int) == s@.skip(start as int));
    while start < end && white_space(s.get_char(end - 1))
        invariant
            start <= end <= n == s@.len(),
            trimmed(s@) == without_trailing_space(s@.subrange(start as int, end as int)),
        decreases end,
    {
        assert(s@.subrange(start as int, end as int).drop_last() == s@.subrange(
            start as int,
            end - 1,
        ));
        end = end - 1;
    }
    s.substring_char(start, end).to_owned()
}

/// The digit of a number below ten.
pub open spec fn digit(n: nat) -> char
    recommends
        n < 10,
{
    (n + 48) as char
}

/// A number written in decimal, without leading zeros.
pub open spec fn decimal(n: nat) -> Seq<char>
    decreases n,
{
    if n < 10 {
        seq![digit(n)]
    } else {
        decimal(n / 10).push(digit(n % 10))
    }
}

/// The one-character text of a digit.
fn digit_text(n: u64) -> (r: String)
    requires
        n < 10,
    ensures
        r@ == seq![digit(n as nat)],
{
    proof {
        reveal_strlit("0123456789");
    }
    let i: usize = n as usize;
    let r = "0123456789".substring_char(i, i + 1).to_owned();
    assert(r@ == seq![digit(n as nat)]);
    r
}

/// Writes a number in decimal.
pub fn to_decimal(n: u64) -> (r: String)
    ensures
        r@ == decimal(n as nat),
    decreases n,
{
    let last = digit_text(n % 10);
    if n < 10 {
        last
    } else {
        let r = to_decimal(n / 10).concat(last.as_str());
        assert(r@ == decimal(n as nat));
        r
    }
}

/// Whether a text consists of decimal digits only.
pub open spec fn all_digits(s: Seq<char>) -> bool {
    forall|i: int| 0 <= i < s.len() ==> '0' <= #[trigger] s[i] <= '9'
}

/// The number that a text of decimal digits stands for.
pub open spec fn value_of(s: Seq<char>) -> nat
    decreases s.len(),
{
    if s.len() == 0 {
        0
    } else {
        10 * value_of(s.drop_last()) + (s.last() as nat - 48) as nat
    }
}

/// The digits of a number as a user writes it: a plus sign may stand before them.
pub open spec fn unsigned_part(s: Seq<char>) -> Seq<char> {
    if s.len() > 0 && s[0] == '+' {
        s.drop_first()
    } else {
        s
    }
}

/// The unsigned 64-bit number that a text stands for, if it stands for one.
pub open spec fn parsed(s: Seq<char>) -> Option<nat> {
    let digits = unsigned_part(s);
    if digits.len() > 0 && all_digits(digits) && value_of(digits) <= u64::MAX {
        Some(value_of(digits))
    } else {
        None
    }
}

/// More digits never make a smaller number.
proof fn lemma_value_grows(s: Seq<char>, n: int)
    requires
        0 <= n <= s.len(),
        all_digits(s),
    ensures
        value_of(s.take(n)) <= value_of(s),
    decreases s.len(),
{
    if n == s.len() {
        assert(s.take(n) == s);
    } else {
        lemma_value_grows(s.drop_last(), n);
        assert(s.drop_last().take(n) == s.take(n));
        assert('0' <= s[s.len() - 1] <= '9');
    }
}

/// Reads an unsigned number: an optional plus sign, then decimal digits only.
pub fn parse_number(s: &str) -> (r: Option<u64>)
    ensures
        match r {
            Some(n) => parsed(s@) == Some(n as nat),
            None => parsed(s@) is None,
        },
{
    let n: usize = s.unicode_len();
    let first: usize = if n > 0 && s.get_char(0) == '+' {
        1
    } else {
        0
    };
    let ghost digits = unsigned_part(s@);
    assert(digits == s@.skip(first as int));
    if first == n {
        return None;
    }
    let mut value: u64 = 0;
    let mut i: usize = first;
    while i < n
        invariant
            first <= i <= n == s@.len(),
            first < n,
            digits == unsigned_part(s@),
            digits == s@.skip(first as int),
            all_digits(digits.take(i - first)),
            value == value_of(digits.take(i - first)),
        decreases n - i,
    {
        let c: char = s.get_char(i);
        assert(digits[i - first] == c);
        if c < '0' || '9' < c {
            return None;
        }
        let ghost more = digits.take(i - first + 1);
        assert(more.drop_last() == digits.take(i - first));
        let d: u64 = (c as u32 - 48) as u64;
        assert(all_digits(more));
        assert(value_of(more) == 10 * value + d);
        if value > (u64::MAX - d) / 10 {
            proof {
                if all_digits(digits) {
                    lemma_value_grows(digits, i - first + 1);
                }
            }
            return None;
        }
        value = 10 * value + d;
        i = i + 1;
    }
    assert(digits.take(n - first) == digits);
    Some(value)
}

/// A number written in decimal and read again is the same number.
pub proof fn law_decimal_reads_back(n: u64)
    ensures
        parsed(decimal(n as nat)) == Some(n as nat),
{
    lemma_decimal(n as nat);
    let s = decimal(n as nat);
    assert(s[0] != '+');
}

/// What the digits of a number are.
proof fn lemma_decimal(n: nat)
    ensures
        decimal(n).len() > 0,
        all_digits(decimal(n)),
        value_of(decimal(n)) == n,
    decreases n,
{
    if n < 10 {
        assert(decimal(n).drop_last().len() == 0);
        assert(value_of(decimal(n).drop_last()) == 0);
    } else {
        lemma_decimal(n / 10);
        assert(decimal(n).drop_last() == decimal(n / 10));
    }
}

} // verus!
