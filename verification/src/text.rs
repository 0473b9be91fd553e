//! Text that the browser reads and writes: decimal numbers, endpoint
//! prefixes and the alphabetical order of names.

use vstd::prelude::*;
use vstd::std_specs::iter::IteratorSpec;
use vstd::string::*;

verus! {

/// `String::push` appends one character at the end.
pub assume_specification[ String::push ](s: &mut String, c: char)
    ensures
        final(s)@ == old(s)@.push(c),
;

/// `String::pop` removes the last character and returns it; an empty string
/// stays empty and gives `None`.
pub assume_specification[ String::pop ](s: &mut String) -> (last: Option<char>)
    ensures
        old(s)@.len() == 0 ==> last is None && final(s)@ == old(s)@,
        old(s)@.len() > 0 ==> last == Some(old(s)@.last()) && final(s)@ == old(s)@.drop_last(),
;

/// `c` is one of the ten decimal digits.
pub open spec fn is_digit(c: char) -> bool {
    '0' <= c <= '9'
}

/// Every character of `s` is a decimal digit.
pub open spec fn all_digits(s: Seq<char>) -> bool {
    forall|i: int| 0 <= i < s.len() ==> is_digit(#[trigger] s[i])
}

/// The number a decimal digit stands for.
pub open spec fn digit_value(c: char) -> nat {
    (c as u32 - '0' as u32) as nat
}

/// The decimal digit that stands for `d`, for `d` below ten.
pub open spec fn digit_char(d: nat) -> char {
    (d + '0' as u32) as char
}

/// The number that a string of decimal digits denotes; the empty string
/// denotes zero.
pub open spec fn decimal_value(s: Seq<char>) -> nat
    decreases s.len(),
{
    if s.len() == 0 {
        0
    } else {
        decimal_value(s.drop_last()) * 10 + digit_value(s.last())
    }
}

/// What parsing `s` as a count gives: the number it denotes when `s` is a
/// non-empty string of decimal digits whose value fits in `usize`, and
/// nothing otherwise.
pub open spec fn parsed_count(s: Seq<char>) -> Option<usize> {
    if s.len() > 0 && all_digits(s) && decimal_value(s) <= usize::MAX {
        Some(decimal_value(s) as usize)
    } else {
        None
    }
}

/// The shortest decimal notation of `n`.
pub open spec fn decimal_digits(n: nat) -> Seq<char>
    decreases n,
{
    if n < 10 {
        seq![digit_char(n)]
    } else {
        decimal_digits(n / 10).push(digit_char(n % 10))
    }
}

/// `s` without the slashes at its end.
pub open spec fn without_trailing_slashes(s: Seq<char>) -> Seq<char>
    decreases s.len(),
{
    if s.len() > 0 && s.last() == '/' {
        without_trailing_slashes(s.drop_last())
    } else {
        s
    }
}

/// `a` comes no later than `b` in alphabetical order: characters are
/// compared from the left by code point, and a proper prefix comes first.
pub open spec fn name_le(a: Seq<char>, b: Seq<char>) -> bool
    decreases a.len(),
{
    if a.len() == 0 {
        true
    } else if b.len() == 0 {
        false
    } else if a[0] != b[0] {
        a[0] < b[0]
    } else {
        name_le(a.drop_first(), b.drop_first())
    }
}

/// A longer string of digits denotes at least as much as each of its
/// prefixes.
pub proof fn lemma_decimal_value_prefix(s: Seq<char>, k: int)
    requires
        0 <= k <= s.len(),
    ensures
        decimal_value(s.take(k)) <= decimal_value(s),
    decreases s.len() - k,
{
    if k == s.len() {
        assert(s.take(k) =~= s);
    } else {
        lemma_decimal_value_prefix(s, k + 1);
        assert(s.take(k + 1).drop_last() =~= s.take(k));
    }
}

/// The decimal notation of a number is a string of digits that denotes
/// the number.
pub proof fn lemma_decimal_round_trip(n: nat)
    ensures
        decimal_digits(n).len() > 0,
        all_digits(decimal_digits(n)),
        decimal_value(decimal_digits(n)) == n,
        n <= usize::MAX ==> parsed_count(decimal_digits(n)) == Some(n as usize),
    decreases n,
{
    let digits = decimal_digits(n);
    if n < 10 {
        assert(digits.drop_last() =~= Seq::<char>::empty());
        assert(decimal_value(digits.drop_last()) == 0);
    } else {
        lemma_decimal_round_trip(n / 10);
        assert(digits.drop_last() =~= decimal_digits(n / 10));
    }
}

/// Alphabetical order relates any two names one way or the other.
pub proof fn lemma_name_le_total(a: Seq<char>, b: Seq<char>)
    ensures
        name_le(a, b) || name_le(b, a),
    decreases a.len(),
{
    if a.len() > 0 && b.len() > 0 && a[0] == b[0] {
        lemma_name_le_total(a.drop_first(), b.drop_first());
    }
}

/// Alphabetical order is transitive.
pub proof fn lemma_name_le_transitive(a: Seq<char>, b: Seq<char>, c: Seq<char>)
    requires
        name_le(a, b),
        name_le(b, c),
    ensures
        name_le(a, c),
    decreases a.len(),
{
    if a.len() > 0 && b.len() > 0 && c.len() > 0 && a[0] == b[0] && b[0] == c[0] {
        lemma_name_le_transitive(a.drop_first(), b.drop_first(), c.drop_first());
    }
}

/// Two names that each come no later than the other are the same name.
pub proof fn lemma_name_le_antisymmetric(a: Seq<char>, b: Seq<char>)
    requires
        name_le(a, b),
        name_le(b, a),
    ensures
        a == b,
    decreases a.len(),
{
    if a.len() == 0 || b.len() == 0 {
        assert(a =~= b);
    } else {
        lemma_name_le_antisymmetric(a.drop_first(), b.drop_first());
        assert(a =~= seq![a[0]] + a.drop_first());
        assert(b =~= seq![b[0]] + b.drop_first());
    }
}

/// Whether `c` is a decimal digit.
pub fn is_decimal_digit(c: char) -> (yes: bool)
    ensures
        yes == is_digit(c),
{
    c >= '0' && c <= '9'
}

/// Parses a count written in decimal digits.
pub fn parse_count(s: &str) -> (count: Option<usize>)
    ensures
        count == parsed_count(s@),
{
    broadcast use vstd::string::group_string_axioms;

    let mut rest = s.chars();
    let mut value: usize = 0;
    let ghost mut i: int = 0;
    proof {
        assert(s@.skip(0) =~= s@);
        assert(s@.take(0) =~= Seq::<char>::empty());
    }
    loop
        invariant
            0 <= i <= s@.len(),
            rest.remaining() == s@.skip(i),
            all_digits(s@.take(i)),
            value == decimal_value(s@.take(i)),
        decreases s@.len() - i,
    {
        match rest.next() {
            None => {
                proof {
                    assert(s@.take(i) =~= s@);
                }
                return if s.is_empty() {
                    None
                } else {
                    Some(value)
                };
            },
            Some(c) => {
                proof {
                    assert(s@.skip(i).drop_first() =~= s@.skip(i + 1));
                    assert(s@.take(i + 1).drop_last() =~= s@.take(i));
                    assert(s@.take(i + 1).last() == c);
                }
                if !is_decimal_digit(c) {
                    assert(!is_digit(s@[i]));
                    return None;
                }
                let digit: usize = (c as u32 - '0' as u32) as usize;
                let next = match value.checked_mul(10) {
                    Some(tens) => tens.checked_add(digit),
                    None => None,
                };
                match next {
                    Some(n) => {
                        value = n;
                    },
                    None => {
                        proof {
                            lemma_decimal_value_prefix(s@, i + 1);
                        }
                        return None;
                    },
                }
                proof {
                    assert forall|j: int| 0 <= j < i + 1 implies is_digit(
                        #[trigger] s@.take(i + 1)[j],
                    ) by {
                        if j < i {
                            assert(s@.take(i)[j] == s@[j]);
                        }
                    }
                    i = i + 1;
                }
            },
        }
    }
}

/// Appends the decimal notation of `n` to `out`.
pub fn push_decimal(out: &mut String, n: u64)
    ensures
        final(out)@ == old(out)@ + decimal_digits(n as nat),
    decreases n,
{
    if n >= 10 {
        push_decimal(out, n / 10);
    }
    let digit: u8 = (n % 10) as u8;
    let c: char = (digit + 48u8) as char;
    assert(c == digit_char((n % 10) as nat));
    out.push(c);
    assert(final(out)@ =~= old(out)@ + decimal_digits(n as nat));
}

/// The part of `s` before the slashes at its end.
pub fn trim_trailing_slashes(s: &str) -> (trimmed: &str)
    ensures
        trimmed@ == without_trailing_slashes(s@),
{
    broadcast use vstd::string::group_string_axioms;

    let len = s.unicode_len();
    let mut rest = s.chars();
    let mut seen: usize = 0;
    let mut end: usize = 0;
    proof {
        assert(s@.skip(0) =~= s@);
        assert(s@.take(0) =~= Seq::<char>::empty());
    }
    loop
        invariant
            len == s@.len(),
            0 <= end <= seen <= s@.len(),
            rest.remaining() == s@.skip(seen as int),
            without_trailing_slashes(s@.take(seen as int)) == s@.take(end as int),
        decreases s@.len() - seen,
    {
        match rest.next() {
            None => {
                proof {
                    assert(s@.take(seen as int) =~= s@);
                }
                return s.substring_char(0, end);
            },
            Some(c) => {
                proof {
                    assert(s@.skip(seen as int).drop_first() =~= s@.skip(seen + 1));
                    assert(s@.take(seen + 1).drop_last() =~= s@.take(seen as int));
                    assert(s@.take(seen + 1).last() == c);
                }
                seen = seen + 1;
                if c != '/' {
                    end = seen;
                }
            },
        }
    }
}

/// Whether `a` comes no later than `b` in alphabetical order.
pub fn name_precedes(a: &str, b: &str) -> (yes: bool)
    ensures
        yes == name_le(a@, b@),
{
    broadcast use vstd::string::group_string_axioms;

    let mut a_rest = a.chars();
    let mut b_rest = b.chars();
    let ghost mut i: int = 0;
    proof {
        assert(a@.skip(0) =~= a@ && b@.skip(0) =~= b@);
    }
    loop
        invariant
            0 <= i <= a@.len(),
            i <= b@.len(),
            a_rest.remaining() == a@.skip(i),
            b_rest.remaining() == b@.skip(i),
            name_le(a@, b@) == name_le(a@.skip(i), b@.skip(i)),
        decreases a@.len() - i,
    {
        let x = match a_rest.next() {
            Some(x) => x,
            None => {
                return true;
            },
        };
        let y = match b_rest.next() {
            Some(y) => y,
            None => {
                return false;
            },
        };
        proof {
            assert(a@.skip(i).drop_first() =~= a@.skip(i + 1));
            assert(b@.skip(i).drop_first() =~= b@.skip(i + 1));
        }
        if x != y {
            return x < y;
        }
        proof {
            i = i + 1;
        }
    }
}

/// Where the first line of `text` ends: the place of its first line feed,
/// or its length where it has none.
pub open spec fn first_line_end(text: Seq<char>) -> int
    decreases text.len(),
{
    if text.len() == 0 || text[0] == '\n' {
        0
    } else {
        1 + first_line_end(text.drop_first())
    }
}

/// `line` without the carriage return at its end, if it has one.
pub open spec fn without_carriage_return(line: Seq<char>) -> Seq<char> {
    if line.len() > 0 && line.last() == '\r' {
        line.drop_last()
    } else {
        line
    }
}

/// The lines of `text`. A line ends at a line feed, which is no part of
/// it, and neither is a carriage return before the line feed. What stands
/// after the last line feed is a line as it is, unless it is empty.
pub open spec fn text_lines(text: Seq<char>) -> Seq<Seq<char>>
    decreases text.len(),
{
    if text.len() == 0 {
        Seq::empty()
    } else {
        let end = first_line_end(text);
        if 0 <= end < text.len() {
            seq![without_carriage_return(text.take(end))] + text_lines(text.skip(end + 1))
        } else {
            seq![text]
        }
    }
}

proof fn lemma_first_line_end(text: Seq<char>)
    ensures
        0 <= first_line_end(text) <= text.len(),
        first_line_end(text) < text.len() ==> text[first_line_end(text)] == '\n',
        forall|k: int| 0 <= k < first_line_end(text) ==> text[k] != '\n',
    decreases text.len(),
{
    if text.len() > 0 && text[0] != '\n' {
        let rest = text.drop_first();
        lemma_first_line_end(rest);
        assert forall|k: int| 0 <= k < first_line_end(text) implies text[k] != '\n' by {
            if k > 0 {
                assert(rest[k - 1] == text[k]);
            }
        }
    }
}

proof fn lemma_first_line_end_at(text: Seq<char>, end: int)
    requires
        0 <= end <= text.len(),
        forall|k: int| 0 <= k < end ==> text[k] != '\n',
        end < text.len() ==> text[end] == '\n',
    ensures
        first_line_end(text) == end,
{
    lemma_first_line_end(text);
    let found = first_line_end(text);
    if found < end {
        assert(text[found] != '\n');
    }
}

/// The lines of `text`, as [`text_lines`] says.
pub fn split_lines(text: &str) -> (lines: Vec<String>)
    ensures
        lines.deep_view() == text_lines(text@),
{
    broadcast use vstd::string::group_string_axioms;

    let mut rest = text.chars();
    let mut lines: Vec<String> = Vec::new();
    let mut line = String::new();
    let mut after_carriage_return = false;
    let ghost mut start: int = 0;
    let ghost mut i: int = 0;
    proof {
        assert(text@.skip(0) =~= text@);
        assert(lines.deep_view() + text_lines(text@.skip(0)) =~= text_lines(text@));
        assert(line@ =~= text@.subrange(0, 0));
    }
    loop
        invariant
            0 <= start <= i <= text@.len(),
            rest.remaining() == text@.skip(i),
            line@ == text@.subrange(start, i),
            forall|k: int| start <= k < i ==> text@[k] != '\n',
            after_carriage_return == (start < i && text@[i - 1] == '\r'),
            lines.deep_view() + text_lines(text@.skip(start)) == text_lines(text@),
        decreases text@.len() - i,
    {
        let ghost tail = text@.skip(start);
        match rest.next() {
            None => {
                proof {
                    lemma_first_line_end_at(tail, tail.len() as int);
                    assert(line@ =~= tail);
                }
                let ghost done = lines.deep_view();
                if !line.as_str().is_empty() {
                    lines.push(line);
                    proof {
                        assert(lines.deep_view() =~= done + seq![tail]);
                    }
                }
                return lines;
            },
            Some(c) => {
                proof {
                    assert(text@.skip(i).drop_first() =~= text@.skip(i + 1));
                    assert(text@[i] == c);
                }
                if c == '\n' {
                    proof {
                        lemma_first_line_end_at(tail, i - start);
                        assert(tail.take(i - start) =~= line@);
                        assert(tail.skip(i - start + 1) =~= text@.skip(i + 1));
                    }
                    if after_carriage_return {
                        line.pop();
                    }
                    let ghost done = lines.deep_view();
                    let ghost finished = line@;
                    lines.push(line);
                    line = String::new();
                    after_carriage_return = false;
                    proof {
                        assert(lines.deep_view() =~= done + seq![finished]);
                        start = i + 1;
                        i = i + 1;
                        assert(line@ =~= text@.subrange(start, i));
                    }
                } else {
                    let ghost before = line@;
                    line.push(c);
                    after_carriage_return = c == '\r';
                    proof {
                        assert(before.push(c) =~= text@.subrange(start, i + 1));
                        i = i + 1;
                    }
                }
            },
        }
    }
}

} // verus!
