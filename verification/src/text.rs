//! Character-level helpers on `String` and `&str`.

use vstd::prelude::*;
use vstd::utf8::{decode_utf8, valid_utf8};

verus! {

/// Appends one character to a string.
///
/// Trusted: calls `String::push`, which std documents as appending the
/// given `char` to the end of the string.
#[verifier::external_body]
pub(crate) fn push_char(s: &mut String, c: char)
    ensures
        final(s)@ == old(s)@.push(c),
{
    s.push(c);
}

/// The characters of `s`, in order.
pub fn chars_of(s: &str) -> (v: Vec<char>)
    ensures
        v@ == s@,
{
    let mut v: Vec<char> = Vec::new();
    for c in it: s.chars()
        invariant
            it.seq() == s@,
            v@ == it.seq().take(it.index() as int),
    {
        v.push(c);
    }
    v
}

/// Whether two string slices hold the same characters.
pub fn str_eq(a: &str, b: &str) -> (same: bool)
    ensures
        same == (a@ == b@),
{
    let x = chars_of(a);
    let y = chars_of(b);
    if x.len() != y.len() {
        return false;
    }
    let mut i: usize = 0;
    while i < x.len()
        invariant
            x@ == a@,
            y@ == b@,
            x.len() == y.len(),
            i <= x.len(),
            forall|k: int| 0 <= k < i ==> x@[k] == y@[k],
        decreases x.len() - i,
    {
        if x[i] != y[i] {
            assert(a@[i as int] != b@[i as int]);
            return false;
        }
        i = i + 1;
    }
    assert(x@ =~= y@);
    true
}

/// The decimal digit character for a value below ten.
pub open spec fn decimal_digit(d: nat) -> char
    recommends
        d < 10,
{
    (d + 48) as char
}

/// The decimal text of `n`: its digits, most significant first, with no
/// sign and no leading zeros (zero is written `0`).
pub open spec fn spec_decimal(n: nat) -> Seq<char>
    decreases n,
{
    if n < 10 {
        seq![decimal_digit(n)]
    } else {
        spec_decimal(n / 10) + seq![decimal_digit(n % 10)]
    }
}

fn push_decimal(out: &mut String, n: u64)
    ensures
        final(out)@ == old(out)@ + spec_decimal(n as nat),
    decreases n,
{
    if n >= 10 {
        push_decimal(out, n / 10);
    }
    let d = (n % 10) as u8;
    push_char(out, (d + 48) as char);
    assert(out@ =~= old(out)@ + spec_decimal(n as nat));
}

/// Writes `n` in decimal, as `to_string` does for unsigned integers.
pub fn decimal_string(n: u64) -> (text: String)
    ensures
        text@ == spec_decimal(n as nat),
{
    let mut text = String::new();
    push_decimal(&mut text, n);
    assert(text@ =~= spec_decimal(n as nat));
    text
}

/// Why a text is not the decimal form of a `u64`.
#[derive(Debug, Clone, Copy, PartialEq, Eq, Structural)]
pub enum IntParseError {
    /// The text is empty.
    Empty,
    /// The text holds a character that is not a decimal digit where a digit
    /// is expected.
    InvalidDigit,
    /// The number does not fit in a `u64`.
    PosOverflow,
}

/// The value of a decimal digit character.
pub open spec fn decimal_value(c: char) -> Option<nat> {
    if '0' <= c <= '9' {
        Some((c as u32 - 48) as nat)
    } else {
        None
    }
}

/// Reads the digits of `s` from the left onto the value `acc` read so far.
/// The first non-digit, or the first digit that takes the value past
/// `u64::MAX`, decides the error.
pub open spec fn spec_read_digits(s: Seq<char>, acc: nat) -> Result<nat, IntParseError>
    decreases s.len(),
{
    if s.len() == 0 {
        Ok(acc)
    } else {
        match decimal_value(s[0]) {
            None => Err(IntParseError::InvalidDigit),
            Some(d) => if acc * 10 + d > u64::MAX {
                Err(IntParseError::PosOverflow)
            } else {
                spec_read_digits(s.drop_first(), acc * 10 + d)
            },
        }
    }
}

/// How `str::parse::<u64>` reads `s`: an optional leading `+` followed by at
/// least one decimal digit.
pub open spec fn spec_parse_u64(s: Seq<char>) -> Result<nat, IntParseError> {
    if s.len() == 0 {
        Err(IntParseError::Empty)
    } else if s.len() == 1 && (s[0] == '+' || s[0] == '-') {
        Err(IntParseError::InvalidDigit)
    } else if s[0] == '+' {
        spec_read_digits(s.drop_first(), 0)
    } else {
        spec_read_digits(s, 0)
    }
}

proof fn lemma_read_digits_bounded(s: Seq<char>, acc: nat)
    requires
        acc <= u64::MAX,
    ensures
        spec_read_digits(s, acc) matches Ok(v) ==> v <= u64::MAX,
    decreases s.len(),
{
    if s.len() > 0 {
        if let Some(d) = decimal_value(s[0]) {
            if acc * 10 + d <= u64::MAX {
                lemma_read_digits_bounded(s.drop_first(), acc * 10 + d);
            }
        }
    }
}

/// What `spec_parse_u64` reads always fits in a `u64`.
pub proof fn lemma_parse_u64_bounded(s: Seq<char>)
    ensures
        spec_parse_u64(s) matches Ok(v) ==> v <= u64::MAX,
{
    lemma_read_digits_bounded(s, 0);
    if s.len() > 0 {
        lemma_read_digits_bounded(s.drop_first(), 0);
    }
}

proof fn lemma_read_digits_push(s: Seq<char>, c: char, acc: nat)
    ensures
        spec_read_digits(s.push(c), acc) == match spec_read_digits(s, acc) {
            Ok(v) => match decimal_value(c) {
                None => Err(IntParseError::InvalidDigit),
                Some(d) => if v * 10 + d > u64::MAX {
                    Err(IntParseError::PosOverflow)
                } else {
                    Ok(v * 10 + d)
                },
            },
            Err(e) => Err(e),
        },
    decreases s.len(),
{
    if s.len() == 0 {
        assert(s.push(c) == seq![c]);
        assert(seq![c].drop_first() == Seq::<char>::empty());
        reveal_with_fuel(spec_read_digits, 2);
    } else {
        assert(s.push(c)[0] == s[0]);
        assert(s.push(c).drop_first() == s.drop_first().push(c));
        if let Some(d) = decimal_value(s[0]) {
            if acc * 10 + d <= u64::MAX {
                lemma_read_digits_push(s.drop_first(), c, acc * 10 + d);
            }
        }
    }
}

proof fn lemma_decimal_reads_back(n: nat)
    requires
        n <= u64::MAX,
    ensures
        spec_read_digits(spec_decimal(n), 0) == Ok::<nat, IntParseError>(n),
        '0' <= spec_decimal(n)[0] <= '9',
    decreases n,
{
    if n < 10 {
        let c = decimal_digit(n);
        assert(c as u32 == n + 48);
        assert(decimal_value(c) == Some(n));
        assert(spec_decimal(n) == seq![c]);
        assert(seq![c].drop_first() == Seq::<char>::empty());
        reveal_with_fuel(spec_read_digits, 2);
    } else {
        lemma_decimal_reads_back(n / 10);
        let c = decimal_digit(n % 10);
        assert(c as u32 == n % 10 + 48);
        assert(decimal_value(c) == Some(n % 10));
        let s = spec_decimal(n / 10);
        assert(spec_decimal(n) == s.push(decimal_digit(n % 10)));
        lemma_read_digits_push(s, decimal_digit(n % 10), 0);
        assert((n / 10) * 10 + n % 10 == n) by (nonlinear_arith);
        assert(spec_decimal(n)[0] == s[0]);
    }
}

/// Decimal text reads back as the number it was written from: parsing
/// the decimal text of any `u64` gives that number. So two numbers have the
/// same decimal text only when they are equal.
pub proof fn lemma_decimal_round_trip(n: u64, m: u64)
    ensures
        spec_parse_u64(spec_decimal(n as nat)) == Ok::<nat, IntParseError>(n as nat),
        spec_decimal(n as nat) == spec_decimal(m as nat) ==> n == m,
{
    lemma_decimal_reads_back(n as nat);
    lemma_decimal_reads_back(m as nat);
}

proof fn lemma_read_digits_ok(s: Seq<char>, acc: nat)
    ensures
        spec_read_digits(s, acc) is Ok ==> forall|i: int| 0 <= i < s.len() ==> '0' <= #[trigger] s[i] <= '9',
    decreases s.len(),
{
    if s.len() > 0 {
        if let Some(d) = decimal_value(s[0]) {
            lemma_read_digits_ok(s.drop_first(), acc * 10 + d);
            if spec_read_digits(s, acc) is Ok {
                assert forall|i: int| 0 <= i < s.len() implies '0' <= #[trigger] s[i] <= '9' by {
                    if i > 0 {
                        assert(s[i] == s.drop_first()[i - 1]);
                    }
                }
            }
        }
    }
}

/// A text parses as a `u64` only when it holds at least one character and
/// every character after an optional leading `+` is a decimal digit.
pub proof fn lemma_parse_u64_digits(s: Seq<char>)
    ensures
        spec_parse_u64(s) is Ok ==> {
            &&& s.len() > 0
            &&& forall|i: int|
                0 <= i < s.len() ==> ('0' <= #[trigger] s[i] <= '9' || (i == 0 && s[i] == '+'))
            &&& !(s.len() == 1 && s[0] == '+')
        },
{
    lemma_read_digits_ok(s, 0);
    if s.len() > 0 {
        lemma_read_digits_ok(s.drop_first(), 0);
        if spec_parse_u64(s) is Ok && s[0] == '+' {
            assert forall|i: int| 0 <= i < s.len() implies ('0' <= #[trigger] s[i] <= '9' || (i == 0
                && s[i] == '+')) by {
                if i > 0 {
                    assert(s[i] == s.drop_first()[i - 1]);
                }
            }
        }
    }
}

/// Parses `s` as a decimal `u64`, as `str::parse::<u64>` does.
pub fn parse_u64(s: &str) -> (r: Result<u64, IntParseError>)
    ensures
        match spec_parse_u64(s@) {
            Ok(v) => v <= u64::MAX && r == Ok::<u64, IntParseError>(v as u64),
            Err(e) => r == Err::<u64, IntParseError>(e),
        },
{
    proof {
        lemma_read_digits_bounded(s@, 0);
        if s@.len() > 0 {
            lemma_read_digits_bounded(s@.drop_first(), 0);
        }
    }
    let chars = chars_of(s);
    let n = chars.len();
    if n == 0 {
        return Err(IntParseError::Empty);
    }
    if n == 1 && (chars[0] == '+' || chars[0] == '-') {
        return Err(IntParseError::InvalidDigit);
    }
    let mut i: usize = if chars[0] == '+' { 1 } else { 0 };
    assert(chars@.skip(i as int) == if s@[0] == '+' { s@.drop_first() } else { s@ });
    let mut acc: u64 = 0;
    while i < n
        invariant
            chars@ == s@,
            n == chars.len(),
            i <= n,
            spec_parse_u64(s@) == spec_read_digits(chars@.skip(i as int), acc as nat),
        decreases n - i,
    {
        let c = chars[i];
        assert(chars@.skip(i as int)[0] == c);
        assert(chars@.skip(i as int).drop_first() == chars@.skip(i + 1));
        if !('0' <= c && c <= '9') {
            return Err(IntParseError::InvalidDigit);
        }
        let d = (c as u32 - 48) as u64;
        match acc.checked_mul(10) {
            None => {
                return Err(IntParseError::PosOverflow);
            },
            Some(m) => match m.checked_add(d) {
                None => {
                    return Err(IntParseError::PosOverflow);
                },
                Some(next) => {
                    acc = next;
                },
            },
        }
        i = i + 1;
    }
    assert(chars@.skip(i as int).len() == 0);
    Ok(acc)
}

/// A string holding `chars`.
pub fn string_of(chars: &Vec<char>) -> (s: String)
    ensures
        s@ == chars@,
{
    let mut s = String::new();
    let mut i: usize = 0;
    while i < chars.len()
        invariant
            i <= chars.len(),
            s@ == chars@.take(i as int),
        decreases chars.len() - i,
    {
        push_char(&mut s, chars[i]);
        assert(chars@.take(i + 1) == chars@.take(i as int).push(chars@[i as int]));
        i = i + 1;
    }
    assert(chars@.take(i as int) == chars@);
    s
}

/// Whether `c` has the Unicode `White_Space` property, as
/// `char::is_whitespace` tests.
pub open spec fn is_whitespace(c: char) -> bool {
    ||| '\u{9}' <= c <= '\u{d}'
    ||| c == ' '
    ||| c == '\u{85}'
    ||| c == '\u{a0}'
    ||| c == '\u{1680}'
    ||| '\u{2000}' <= c <= '\u{200a}'
    ||| c == '\u{2028}'
    ||| c == '\u{2029}'
    ||| c == '\u{202f}'
    ||| c == '\u{205f}'
    ||| c == '\u{3000}'
}

/// Tests `c` for the Unicode `White_Space` property.
pub fn char_is_whitespace(c: char) -> (ws: bool)
    ensures
        ws == is_whitespace(c),
{
    ('\u{9}' <= c && c <= '\u{d}') || c == ' ' || c == '\u{85}' || c == '\u{a0}' || c == '\u{1680}'
        || ('\u{2000}' <= c && c <= '\u{200a}') || c == '\u{2028}' || c == '\u{2029}' || c
        == '\u{202f}' || c == '\u{205f}' || c == '\u{3000}'
}

/// A line without the carriage return that ends it, if any.
pub open spec fn strip_cr(line: Seq<char>) -> Seq<char> {
    if line.len() > 0 && line.last() == '\r' {
        line.drop_last()
    } else {
        line
    }
}

/// The lines of `s`, where `cur` is the part of the current line read
/// before `s`: a line ends at `\n` (a `\r` just before it is dropped), and
/// the text after the last `\n` is a line of its own when it is not empty.
pub open spec fn spec_lines_from(s: Seq<char>, cur: Seq<char>) -> Seq<Seq<char>>
    decreases s.len(),
{
    if s.len() == 0 {
        if cur.len() == 0 {
            Seq::empty()
        } else {
            seq![cur]
        }
    } else if s[0] == '\n' {
        seq![strip_cr(cur)] + spec_lines_from(s.drop_first(), Seq::empty())
    } else {
        spec_lines_from(s.drop_first(), cur.push(s[0]))
    }
}

/// The lines of `s`, as `str::lines` gives them.
pub open spec fn spec_lines(s: Seq<char>) -> Seq<Seq<char>> {
    spec_lines_from(s, Seq::empty())
}

/// The words of `s`, where `cur` is the part of the current word read
/// before `s`: maximal runs of characters that are not whitespace.
pub open spec fn spec_words_from(s: Seq<char>, cur: Seq<char>) -> Seq<Seq<char>>
    decreases s.len(),
{
    if s.len() == 0 {
        if cur.len() == 0 {
            Seq::empty()
        } else {
            seq![cur]
        }
    } else if is_whitespace(s[0]) {
        (if cur.len() == 0 {
            Seq::empty()
        } else {
            seq![cur]
        }) + spec_words_from(s.drop_first(), Seq::empty())
    } else {
        spec_words_from(s.drop_first(), cur.push(s[0]))
    }
}

/// The words of `s`, as `str::split_whitespace` gives them.
pub open spec fn spec_words(s: Seq<char>) -> Seq<Seq<char>> {
    spec_words_from(s, Seq::empty())
}

/// The words of `line`, in order.
pub fn words_of(line: &Vec<char>) -> (words: Vec<Vec<char>>)
    ensures
        words@.map_values(|w: Vec<char>| w@) == spec_words(line@),
{
    let mut words: Vec<Vec<char>> = Vec::new();
    let mut cur: Vec<char> = Vec::new();
    let mut i: usize = 0;
    assert(line@.skip(0) == line@);
    assert(words@.map_values(|w: Vec<char>| w@) =~= Seq::<Seq<char>>::empty());
    assert(cur@ =~= Seq::<char>::empty());
    assert(spec_words(line@) =~= words@.map_values(|w: Vec<char>| w@) + spec_words_from(line@.skip(0), cur@));
    while i < line.len()
        invariant
            i <= line.len(),
            spec_words(line@) == words@.map_values(|w: Vec<char>| w@) + spec_words_from(
                line@.skip(i as int),
                cur@,
            ),
        decreases line.len() - i,
    {
        let c = line[i];
        let ghost rest = line@.skip(i as int);
        let ghost old_cur = cur@;
        assert(rest[0] == c);
        assert(rest.drop_first() == line@.skip(i + 1));
        let ghost before = words@.map_values(|w: Vec<char>| w@);
        if char_is_whitespace(c) {
            if cur.len() > 0 {
                words.push(cur);
                cur = Vec::new();
                assert(words@.map_values(|w: Vec<char>| w@) =~= before + seq![old_cur]);
                assert(spec_words_from(rest, old_cur) == seq![old_cur] + spec_words_from(
                    line@.skip(i + 1),
                    Seq::empty(),
                ));
                assert(cur@ =~= Seq::<char>::empty());
                assert(before + spec_words_from(rest, old_cur) =~= words@.map_values(
                    |w: Vec<char>| w@,
                ) + spec_words_from(line@.skip(i + 1), cur@));
            } else {
                assert(spec_words_from(rest, old_cur) =~= spec_words_from(
                    line@.skip(i + 1),
                    Seq::empty(),
                ));
                assert(cur@ =~= Seq::<char>::empty());
            }
        } else {
            cur.push(c);
        }
        i = i + 1;
    }
    assert(line@.skip(i as int).len() == 0);
    if cur.len() > 0 {
        let ghost before = words@.map_values(|w: Vec<char>| w@);
        let ghost word = cur@;
        words.push(cur);
        assert(words@.map_values(|w: Vec<char>| w@) =~= before + seq![word]);
    } else {
        assert(words@.map_values(|w: Vec<char>| w@) + spec_words_from(line@.skip(i as int), cur@) =~= words@.map_values(|w: Vec<char>| w@));
    }
    words
}

/// The text that `String::from_utf8_lossy` makes of `bytes`.
pub uninterp spec fn spec_utf8_lossy(bytes: Seq<u8>) -> Seq<char>;

/// Decodes `bytes` as UTF-8, putting U+FFFD in place of each invalid
/// sequence.
///
/// Trusted: calls `String::from_utf8_lossy` and takes the text it gives.
/// The contract names the result, and states what std documents: bytes that
/// are valid UTF-8 decode to their characters unchanged.
#[verifier::external_body]
pub fn utf8_lossy(bytes: &[u8]) -> (text: String)
    ensures
        text@ == spec_utf8_lossy(bytes@),
        valid_utf8(bytes@) ==> text@ == decode_utf8(bytes@),
{
    String::from_utf8_lossy(bytes).into_owned()
}

} // verus!
