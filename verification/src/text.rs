//! Small text utilities: joining optional name parts, decimal rendering of
//! integers, and whitespace trimming.

use vstd::prelude::*;

verus! {

/// The separator placed between two name parts that are both present.
pub open spec fn separator() -> Seq<char> {
    seq![',', ' ']
}

/// The parts that are present, joined by `", "`; `None` when neither is.
pub open spec fn join_present(first: Option<Seq<char>>, second: Option<Seq<char>>) -> Option<
    Seq<char>,
> {
    match (first, second) {
        (Some(a), Some(b)) => Some(a + separator() + b),
        (Some(a), None) => Some(a),
        (None, Some(b)) => Some(b),
        (None, None) => None,
    }
}

/// Joins the parts that are present with `", "`.
pub fn join_names(first: Option<String>, second: Option<String>) -> (joined: Option<String>)
    ensures
        joined.deep_view() == join_present(first.deep_view(), second.deep_view()),
{
    match (first, second) {
        (Some(a), Some(b)) => {
            proof {
                reveal_strlit(", ");
                assert(", "@ =~= separator());
            }
            let with_separator = a.concat(", ");
            Some(with_separator.concat(b.as_str()))
        },
        (Some(a), None) => Some(a),
        (None, Some(b)) => Some(b),
        (None, None) => None,
    }
}

/// The character of a decimal digit.
pub open spec fn digit_char(d: int) -> char {
    if d == 0 {
        '0'
    } else if d == 1 {
        '1'
    } else if d == 2 {
        '2'
    } else if d == 3 {
        '3'
    } else if d == 4 {
        '4'
    } else if d == 5 {
        '5'
    } else if d == 6 {
        '6'
    } else if d == 7 {
        '7'
    } else if d == 8 {
        '8'
    } else {
        '9'
    }
}

/// The decimal digits of a natural number, most significant first, without
/// leading zeros.
pub open spec fn decimal_digits(n: nat) -> Seq<char>
    decreases n,
{
    if n < 10 {
        seq![digit_char(n as int)]
    } else {
        decimal_digits(n / 10).push(digit_char((n % 10) as int))
    }
}

/// The decimal rendering of an integer, with a leading `-` when negative.
pub open spec fn decimal(n: int) -> Seq<char> {
    if n < 0 {
        seq!['-'] + decimal_digits((-n) as nat)
    } else {
        decimal_digits(n as nat)
    }
}

fn digit_text(d: u64) -> (text: &'static str)
    requires
        d < 10,
    ensures
        text@ == seq![digit_char(d as int)],
{
    proof {
        reveal_strlit("0");
        reveal_strlit("1");
        reveal_strlit("2");
        reveal_strlit("3");
        reveal_strlit("4");
        reveal_strlit("5");
        reveal_strlit("6");
        reveal_strlit("7");
        reveal_strlit("8");
        reveal_strlit("9");
    }
    let text = if d == 0 {
        "0"
    } else if d == 1 {
        "1"
    } else if d == 2 {
        "2"
    } else if d == 3 {
        "3"
    } else if d == 4 {
        "4"
    } else if d == 5 {
        "5"
    } else if d == 6 {
        "6"
    } else if d == 7 {
        "7"
    } else if d == 8 {
        "8"
    } else {
        "9"
    };
    assert(text@ =~= seq![digit_char(d as int)]);
    text
}

/// Appends the decimal digits of `n` to `out`.
pub fn push_decimal_digits(out: &mut String, n: u64)
    ensures
        final(out)@ == old(out)@ + decimal_digits(n as nat),
    decreases n,
{
    if n >= 10 {
        push_decimal_digits(out, n / 10);
    }
    out.append(digit_text(n % 10));
    assert(out@ =~= old(out)@ + decimal_digits(n as nat));
}

/// Appends the decimal rendering of `n` to `out`.
pub fn push_decimal(out: &mut String, n: i64)
    ensures
        final(out)@ == old(out)@ + decimal(n as int),
{
    if n < 0 {
        proof {
            reveal_strlit("-");
        }
        out.append("-");
        let magnitude: u64 = ((-(n + 1)) as u64) + 1;
        push_decimal_digits(out, magnitude);
        assert(out@ =~= old(out)@ + decimal(n as int));
    } else {
        push_decimal_digits(out, n as u64);
    }
}

/// Whether `c` is Unicode white space.
pub open spec fn is_white_space(c: char) -> bool {
    let code = c as u32;
    ||| 0x0009 <= code <= 0x000D
    ||| code == 0x0020
    ||| code == 0x0085
    ||| code == 0x00A0
    ||| code == 0x1680
    ||| 0x2000 <= code <= 0x200A
    ||| code == 0x2028
    ||| code == 0x2029
    ||| code == 0x202F
    ||| code == 0x205F
    ||| code == 0x3000
}

/// `s` without its leading white space.
pub open spec fn trim_start(s: Seq<char>) -> Seq<char>
    decreases s.len(),
{
    if s.len() > 0 && is_white_space(s.first()) {
        trim_start(s.drop_first())
    } else {
        s
    }
}

/// `s` without its trailing white space.
pub open spec fn trim_end(s: Seq<char>) -> Seq<char>
    decreases s.len(),
{
    if s.len() > 0 && is_white_space(s.last()) {
        trim_end(s.drop_last())
    } else {
        s
    }
}

/// `s` without its leading and trailing white space.
pub open spec fn trimmed(s: Seq<char>) -> Seq<char> {
    trim_end(trim_start(s))
}

/// Decides whether `c` is Unicode white space.
pub fn char_is_white_space(c: char) -> (white: bool)
    ensures
        white == is_white_space(c),
{
    let code = c as u32;
    (0x0009 <= code && code <= 0x000D) || code == 0x0020 || code == 0x0085 || code == 0x00A0
        || code == 0x1680 || (0x2000 <= code && code <= 0x200A) || code == 0x2028 || code
        == 0x2029 || code == 0x202F || code == 0x205F || code == 0x3000
}

proof fn lemma_trim_start_at(s: Seq<char>, from: int)
    requires
        0 <= from <= s.len(),
        forall|k: int| 0 <= k < from ==> is_white_space(#[trigger] s[k]),
        from < s.len() ==> !is_white_space(s[from]),
    ensures
        trim_start(s) == s.subrange(from, s.len() as int),
    decreases from,
{
    if from == 0 {
        assert(s.subrange(0, s.len() as int) =~= s);
    } else {
        let rest = s.drop_first();
        assert forall|k: int| 0 <= k < from - 1 implies is_white_space(#[trigger] rest[k]) by {
            assert(rest[k] == s[k + 1]);
        }
        lemma_trim_start_at(rest, from - 1);
        assert(rest.subrange(from - 1, rest.len() as int) =~= s.subrange(from, s.len() as int));
    }
}

proof fn lemma_trim_end_at(s: Seq<char>, to: int)
    requires
        0 <= to <= s.len(),
        forall|k: int| to <= k < s.len() ==> is_white_space(#[trigger] s[k]),
        0 < to ==> !is_white_space(s[to - 1]),
    ensures
        trim_end(s) == s.subrange(0, to),
    decreases s.len() - to,
{
    if to == s.len() {
        assert(s.subrange(0, to) =~= s);
    } else {
        let rest = s.drop_last();
        lemma_trim_end_at(rest, to);
        assert(rest.subrange(0, to) =~= s.subrange(0, to));
    }
}

/// A copy of `s` without its leading and trailing white space.
pub fn trim(s: &str) -> (out: String)
    ensures
        out@ == trimmed(s@),
{
    let mut start: usize = 0;
    let mut end: usize = 0;
    let mut seen: bool = false;
    let mut index: usize = 0;
    let length = s.unicode_len();
    for c in it: s.chars()
        invariant
            it.seq() == s@,
            index == it.index(),
            length == s@.len(),
            !seen ==> forall|k: int| 0 <= k < index ==> is_white_space(#[trigger] s@[k]),
            seen ==> start < end <= index,
            seen ==> !is_white_space(s@[start as int]) && !is_white_space(s@[end - 1]),
            seen ==> forall|k: int| 0 <= k < start ==> is_white_space(#[trigger] s@[k]),
            seen ==> forall|k: int| end <= k < index ==> is_white_space(#[trigger] s@[k]),
    {
        if !char_is_white_space(c) {
            if !seen {
                start = index;
                seen = true;
            }
            end = index + 1;
        }
        index = index + 1;
    }
    if seen {
        proof {
            let head = s@.subrange(start as int, s@.len() as int);
            lemma_trim_start_at(s@, start as int);
            lemma_trim_end_at(head, end - start);
            assert(head.subrange(0, end - start) =~= s@.subrange(start as int, end as int));
        }
        String::from_str(s.substring_char(start, end))
    } else {
        proof {
            lemma_trim_start_at(s@, s@.len() as int);
            assert(s@.subrange(s@.len() as int, s@.len() as int) =~= Seq::<char>::empty());
        }
        String::new()
    }
}

} // verus!
