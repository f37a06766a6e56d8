//! Text that the patterns emit: decimal numbers, amounts with two decimals,
//! and the few string operations that the decorators are built from.
//!
//! Amounts and measurements are fixed-point: an integer counts hundredths, so
//! `10550` stands for `105.50`. Every function here states the exact text it
//! returns, as a sequence of characters.
use vstd::prelude::*;
use vstd::string::{StrSliceExecFns, StringExecFns};

verus! {

/// The character that writes the digit `d`; `'0'` for anything above nine.
pub open spec fn digit_char(d: nat) -> char {
    if d == 1 {
        '1'
    } else if d == 2 {
        '2'
    } else if d == 3 {
        '3'
    } else if d == 4 {
        '4'
    } else if d == 5 {
        '5'
    } else if d == 6 {
        '6'
    } else if d == 7 {
        '7'
    } else if d == 8 {
        '8'
    } else if d == 9 {
        '9'
    } else {
        '0'
    }
}

/// The decimal numeral of `n`, most significant digit first, without leading
/// zeros (`0` is written `"0"`).
pub open spec fn decimal_digits(n: nat) -> Seq<char>
    decreases n,
{
    if n < 10 {
        seq![digit_char(n)]
    } else {
        decimal_digits(n / 10).push(digit_char(n % 10))
    }
}

/// An amount of hundredths written with exactly two decimals: `10550` is
/// `"105.50"`, `7` is `"0.07"`.
pub open spec fn fixed2(n: nat) -> Seq<char> {
    decimal_digits(n / 100) + seq!['.', digit_char(n / 10 % 10), digit_char(n % 10)]
}

/// A signed amount of hundredths written with two decimals and a leading
/// minus sign below zero: `-455` is `"-4.55"`.
pub open spec fn signed_fixed2(v: int) -> Seq<char> {
    if v < 0 {
        seq!['-'] + fixed2((-v) as nat)
    } else {
        fixed2(v as nat)
    }
}

/// An amount of hundredths written as briefly as its value allows: no
/// decimals for a whole number, one where the second would be zero, else two.
/// `15000` is `"150"`, `110` is `"1.1"`, `199` is `"1.99"`.
pub open spec fn compact2(n: nat) -> Seq<char> {
    if n % 100 == 0 {
        decimal_digits(n / 100)
    } else if n % 10 == 0 {
        decimal_digits(n / 100) + seq!['.', digit_char(n / 10 % 10)]
    } else {
        fixed2(n)
    }
}

/// `to`, then each character of `text` followed by `to`: what replacing the
/// empty pattern gives.
pub open spec fn spread(text: Seq<char>, to: Seq<char>) -> Seq<char>
    decreases text.len(),
{
    if text.len() == 0 {
        to
    } else {
        to + seq![text[0]] + spread(text.subrange(1, text.len() as int), to)
    }
}

/// `text` with every occurrence of `from` replaced by `to`. Occurrences are
/// found from the left and do not overlap: after one is replaced the search
/// goes on behind it.
pub open spec fn replaced(text: Seq<char>, from: Seq<char>, to: Seq<char>) -> Seq<char>
    decreases text.len(),
{
    if from.len() == 0 {
        spread(text, to)
    } else if text.len() < from.len() {
        text
    } else if text.subrange(0, from.len() as int) == from {
        to + replaced(text.subrange(from.len() as int, text.len() as int), from, to)
    } else {
        seq![text[0]] + replaced(text.subrange(1, text.len() as int), from, to)
    }
}

/// The lines of a run of texts, each as characters.
pub open spec fn texts(lines: Seq<String>) -> Seq<Seq<char>> {
    lines.map_values(|line: String| line@)
}

/// The pairs of a run of pairs of texts, each text as characters.
pub open spec fn pairs(entries: Seq<(String, String)>) -> Seq<(Seq<char>, Seq<char>)> {
    entries.map_values(|entry: (String, String)| (entry.0@, entry.1@))
}

/// Whether `c` is white space: one of the characters with the Unicode
/// property `White_Space`.
pub open spec fn is_white_space(c: char) -> bool {
    let code = c as u32;
    ||| 0x09 <= code <= 0x0D
    ||| code == 0x20
    ||| code == 0x85
    ||| code == 0xA0
    ||| code == 0x1680
    ||| 0x2000 <= code <= 0x200A
    ||| code == 0x2028
    ||| code == 0x2029
    ||| code == 0x202F
    ||| code == 0x205F
    ||| code == 0x3000
}

/// `text` without the white space it starts with.
pub open spec fn without_leading_space(text: Seq<char>) -> Seq<char>
    decreases text.len(),
{
    if text.len() > 0 && is_white_space(text[0]) {
        without_leading_space(text.subrange(1, text.len() as int))
    } else {
        text
    }
}

/// `text` without the white space it ends with.
pub open spec fn without_trailing_space(text: Seq<char>) -> Seq<char>
    decreases text.len(),
{
    if text.len() > 0 && is_white_space(text.last()) {
        without_trailing_space(text.drop_last())
    } else {
        text
    }
}

/// `text` without the white space at its two ends.
pub open spec fn trimmed(text: Seq<char>) -> Seq<char> {
    without_trailing_space(without_leading_space(text))
}

/// The upper-case form of a text, as `str::to_uppercase` of the standard
/// library gives it.
pub uninterp spec fn uppercased(text: Seq<char>) -> Seq<char>;

/// The one-character text of a digit.
pub fn digit_text(d: u8) -> (s: &'static str)
    requires
        d < 10,
    ensures
        s@ == seq![digit_char(d as nat)],
{
    proof {
        reveal_strlit("0");
        reveal_strlit("1");
        reveal_strlit("2");
        reveal_strlit("3");
        reveal_strlit("4");
        reveal_strlit("5");
        reveal_strlit("6");
        reveal_strlit("7");
        reveal_strlit("8");
        reveal_strlit("9");
    }
    let s = if d == 0 {
        "0"
    } else if d == 1 {
        "1"
    } else if d == 2 {
        "2"
    } else if d == 3 {
        "3"
    } else if d == 4 {
        "4"
    } else if d == 5 {
        "5"
    } else if d == 6 {
        "6"
    } else if d == 7 {
        "7"
    } else if d == 8 {
        "8"
    } else {
        "9"
    };
    assert(s@ =~= seq![digit_char(d as nat)]);
    s
}

/// Writes `n` in decimal.
pub fn decimal(n: u128) -> (s: String)
    ensures
        s@ == decimal_digits(n as nat),
    decreases n,
{
    if n < 10 {
        String::from_str(digit_text(n as u8))
    } else {
        let mut s = decimal(n / 10);
        s.append(digit_text((n % 10) as u8));
        assert(s@ =~= decimal_digits((n / 10) as nat).push(digit_char((n % 10) as nat)));
        s
    }
}

/// Writes an amount of hundredths with two decimals.
pub fn fixed2_text(n: u128) -> (s: String)
    ensures
        s@ == fixed2(n as nat),
{
    let mut s = decimal(n / 100);
    s.append(".");
    s.append(digit_text((n / 10 % 10) as u8));
    s.append(digit_text((n % 10) as u8));
    proof {
        reveal_strlit(".");
        assert(s@ =~= fixed2(n as nat));
    }
    s
}

/// Writes a signed amount of hundredths with two decimals.
pub fn signed_fixed2_text(v: i128) -> (s: String)
    ensures
        s@ == signed_fixed2(v as int),
{
    if v < 0 {
        let below: u128 = (-(v + 1)) as u128;
        let magnitude: u128 = below + 1;
        let digits = fixed2_text(magnitude);
        let mut s = String::from_str("-");
        s.append(digits.as_str());
        proof {
            reveal_strlit("-");
            assert(s@ =~= signed_fixed2(v as int));
        }
        s
    } else {
        fixed2_text(v as u128)
    }
}

/// Writes an amount of hundredths as briefly as its value allows.
pub fn compact2_text(n: u128) -> (s: String)
    ensures
        s@ == compact2(n as nat),
{
    if n % 100 == 0 {
        decimal(n / 100)
    } else if n % 10 == 0 {
        let mut s = decimal(n / 100);
        s.append(".");
        s.append(digit_text((n / 10 % 10) as u8));
        proof {
            reveal_strlit(".");
            assert(s@ =~= compact2(n as nat));
        }
        s
    } else {
        fixed2_text(n)
    }
}

/// Replaces every occurrence of `from` in `text` by `to`, searching from the
/// left without overlap. With an empty `from`, `to` is put before every
/// character and at the end.
pub fn replace_all(text: &str, from: &str, to: &str) -> (out: String)
    ensures
        out@ == replaced(text@, from@, to@),
{
    let n = text.unicode_len();
    let m = from.unicode_len();
    let pattern = String::from_str(from);
    let mut out = String::new();
    let mut i: usize = 0;
    if m == 0 {
        proof {
            assert(text@.subrange(0, n as int) =~= text@);
            assert(out@ + spread(text@, to@) =~= spread(text@, to@));
        }
        while i < n
            invariant
                i <= n,
                n == text@.len(),
                out@ + spread(text@.subrange(i as int, n as int), to@) == spread(text@, to@),
            decreases n - i,
        {
            let ghost rest = text@.subrange(i as int, n as int);
            let ghost before = out@;
            out.append(to);
            out.append(text.substring_char(i, i + 1));
            proof {
                assert(rest.subrange(1, rest.len() as int) =~= text@.subrange(i + 1, n as int));
                assert(seq![rest[0]] =~= text@.subrange(i as int, i + 1));
                assert(out@ + spread(text@.subrange(i + 1, n as int), to@) =~= before + spread(rest, to@));
            }
            i = i + 1;
        }
        proof {
            assert(text@.subrange(0, n as int) =~= text@);
        }
        out.append(to);
        return out;
    }
    proof {
        assert(text@.subrange(0, n as int) =~= text@);
        assert(out@ + replaced(text@, from@, to@) =~= replaced(text@, from@, to@));
    }
    while i < n
        invariant
            i <= n,
            n == text@.len(),
            m == from@.len(),
            m > 0,
            pattern@ == from@,
            out@ + replaced(text@.subrange(i as int, n as int), from@, to@) == replaced(text@, from@, to@),
        decreases n - i,
    {
        let ghost rest = text@.subrange(i as int, n as int);
        let ghost before = out@;
        if m > n - i {
            out.append(text.substring_char(i, n));
            proof {
                assert(text@.subrange(n as int, n as int) =~= Seq::<char>::empty());
                assert(out@ + replaced(text@.subrange(n as int, n as int), from@, to@) =~= before + rest);
            }
            i = n;
        } else {
            let piece = String::from_str(text.substring_char(i, i + m));
            proof {
                assert(rest.subrange(0, m as int) =~= text@.subrange(i as int, i + m));
            }
            if piece == pattern {
                out.append(to);
                proof {
                    assert(rest.subrange(m as int, rest.len() as int) =~= text@.subrange(i + m, n as int));
                    assert(out@ + replaced(text@.subrange(i + m, n as int), from@, to@) =~= before + replaced(
                        rest,
                        from@,
                        to@,
                    ));
                }
                i = i + m;
            } else {
                out.append(text.substring_char(i, i + 1));
                proof {
                    assert(rest.subrange(1, rest.len() as int) =~= text@.subrange(i + 1, n as int));
                    assert(seq![rest[0]] =~= text@.subrange(i as int, i + 1));
                    assert(out@ + replaced(text@.subrange(i + 1, n as int), from@, to@) =~= before + replaced(
                        rest,
                        from@,
                        to@,
                    ));
                }
                i = i + 1;
            }
        }
    }
    proof {
        assert(text@.subrange(n as int, n as int) =~= Seq::<char>::empty());
        assert(out@ + Seq::<char>::empty() =~= out@);
    }
    out
}

/// Tests whether `c` is white space.
pub fn white_space(c: char) -> (space: bool)
    ensures
        space == is_white_space(c),
{
    let code = c as u32;
    (0x09 <= code && code <= 0x0D) || code == 0x20 || code == 0x85 || code == 0xA0 || code == 0x1680 || (0x2000
        <= code && code <= 0x200A) || code == 0x2028 || code == 0x2029 || code == 0x202F || code == 0x205F
        || code == 0x3000
}

/// Removes the white space at the two ends of `text`.
pub fn trim(text: &str) -> (out: String)
    ensures
        out@ == trimmed(text@),
{
    let n = text.unicode_len();
    let mut start: usize = 0;
    proof {
        assert(text@.subrange(0, n as int) =~= text@);
    }
    while start < n && white_space(text.get_char(start))
        invariant
            start <= n,
            n == text@.len(),
            without_leading_space(text@) == without_leading_space(text@.subrange(start as int, n as int)),
        decreases n - start,
    {
        proof {
            let rest = text@.subrange(start as int, n as int);
            assert(rest[0] == text@[start as int]);
            assert(rest.subrange(1, rest.len() as int) =~= text@.subrange(start + 1, n as int));
        }
        start = start + 1;
    }
    proof {
        let rest = text@.subrange(start as int, n as int);
        if start < n {
            assert(rest[0] == text@[start as int]);
        }
        assert(without_leading_space(text@) == rest);
    }
    let mut end: usize = n;
    while end > start && white_space(text.get_char(end - 1))
        invariant
            start <= end <= n,
            n == text@.len(),
            without_trailing_space(text@.subrange(start as int, n as int)) == without_trailing_space(
                text@.subrange(start as int, end as int),
            ),
        decreases end - start,
    {
        proof {
            let rest = text@.subrange(start as int, end as int);
            assert(rest.last() == text@[end - 1]);
            assert(rest.drop_last() =~= text@.subrange(start as int, end - 1));
        }
        end = end - 1;
    }
    proof {
        let rest = text@.subrange(start as int, end as int);
        if end > start {
            assert(rest.last() == text@[end - 1]);
        }
        assert(without_trailing_space(rest) == rest);
    }
    String::from_str(text.substring_char(start, end))
}

/// The upper-case form of `text`.
///
/// Calls `str::to_uppercase` of the standard library, which maps every
/// character by the Unicode case tables; one character may become several.
/// The result depends on the text alone, and the contract gives it a name
/// without saying more about it.
#[verifier::external_body]
pub(crate) fn to_uppercase(text: &str) -> (upper: String)
    ensures
        upper@ == uppercased(text@),
{
    text.to_uppercase()
}

/// Puts `line` at the end of `lines`.
pub fn push_line(lines: &mut Vec<String>, line: String)
    ensures
        texts(final(lines)@) == texts(old(lines)@).push(line@),
{
    lines.push(line);
    proof {
        assert(texts(lines@) =~= texts(old(lines)@).push(line@));
    }
}

/// The list that holds `line` alone.
pub fn one_line(line: String) -> (lines: Vec<String>)
    ensures
        texts(lines@) == seq![line@],
{
    let mut lines: Vec<String> = Vec::new();
    lines.push(line);
    proof {
        assert(texts(lines@) =~= seq![line@]);
    }
    lines
}

/// The list that holds `line` and then `rest`.
pub fn line_before(line: String, rest: Vec<String>) -> (lines: Vec<String>)
    ensures
        texts(lines@) == seq![line@] + texts(rest@),
{
    let mut lines: Vec<String> = Vec::new();
    let ghost tail = rest@;
    let mut rest = rest;
    lines.push(line);
    lines.append(&mut rest);
    proof {
        assert(texts(lines@) =~= seq![line@] + texts(tail));
    }
    lines
}

/// A copy of an optional text.
pub fn clone_optional(text: &Option<String>) -> (copy: Option<String>)
    ensures
        copy == *text,
{
    match text {
        Some(text) => Some(text.clone()),
        None => None,
    }
}

/// A copy of a list of texts, in the same order.
pub fn clone_texts(texts: &Vec<String>) -> (copy: Vec<String>)
    ensures
        copy@ == texts@,
{
    let mut copy: Vec<String> = Vec::new();
    let mut i: usize = 0;
    while i < texts.len()
        invariant
            i <= texts.len(),
            copy@ == texts@.take(i as int),
        decreases texts.len() - i,
    {
        copy.push(texts[i].clone());
        proof {
            assert(copy@ =~= texts@.take(i + 1));
        }
        i = i + 1;
    }
    proof {
        assert(texts@.take(i as int) =~= texts@);
    }
    copy
}

/// A copy of a list of pairs of texts, in the same order.
pub fn clone_pairs(pairs: &Vec<(String, String)>) -> (copy: Vec<(String, String)>)
    ensures
        copy@ == pairs@,
{
    let mut copy: Vec<(String, String)> = Vec::new();
    let mut i: usize = 0;
    while i < pairs.len()
        invariant
            i <= pairs.len(),
            copy@ == pairs@.take(i as int),
        decreases pairs.len() - i,
    {
        copy.push((pairs[i].0.clone(), pairs[i].1.clone()));
        proof {
            assert(copy@ =~= pairs@.take(i + 1));
        }
        i = i + 1;
    }
    proof {
        assert(pairs@.take(i as int) =~= pairs@);
    }
    copy
}

} // verus!
