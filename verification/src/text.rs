use vstd::prelude::*;

use crate::names::ascii_lower;

verus! {

/// Characters with the Unicode property White_Space (what `char::is_whitespace` and
/// `str::trim` go by).
pub open spec fn is_white_space(c: char) -> bool {
    let u = c as u32;
    (0x09 <= u && u <= 0x0d) || u == 0x20 || u == 0x85 || u == 0xa0 || u == 0x1680 || (0x2000 <= u
        && u <= 0x200a) || u == 0x2028 || u == 0x2029 || u == 0x202f || u == 0x205f || u == 0x3000
}

/// `s` without its leading white space.
pub open spec fn trim_start(s: Seq<char>) -> Seq<char>
    decreases s.len(),
{
    if s.len() > 0 && is_white_space(s[0]) {
        trim_start(s.drop_first())
    } else {
        s
    }
}

/// `s` without its trailing white space.
pub open spec fn trim_end(s: Seq<char>) -> Seq<char>
    decreases s.len(),
{
    if s.len() > 0 && is_white_space(s.last()) {
        trim_end(s.drop_last())
    } else {
        s
    }
}

/// `s` without leading and trailing white space (`str::trim`).
pub open spec fn trimmed(s: Seq<char>) -> Seq<char> {
    trim_end(trim_start(s))
}

/// The pieces of `s` between the occurrences of `sep`, in order, empty pieces included:
/// one more piece than there are separators (`str::split` with a character).
pub open spec fn split_on(s: Seq<char>, sep: char) -> Seq<Seq<char>>
    decreases s.len(),
{
    if s.len() == 0 {
        seq![Seq::empty()]
    } else {
        let rest = split_on(s.drop_last(), sep);
        if s.last() == sep {
            rest.push(Seq::empty())
        } else {
            rest.update(rest.len() - 1, rest.last().push(s.last()))
        }
    }
}

/// Every character of `s` is an ASCII decimal digit.
pub open spec fn all_digits(s: Seq<char>) -> bool {
    forall|i: int| 0 <= i < s.len() ==> '0' <= #[trigger] s[i] && s[i] <= '9'
}

/// The number that the decimal digits `s` spell.
pub open spec fn digits_value(s: Seq<char>) -> nat
    decreases s.len(),
{
    if s.len() == 0 {
        0
    } else {
        digits_value(s.drop_last()) * 10 + ((s.last() as u32) - ('0' as u32)) as nat
    }
}

/// The integer that `s` spells in the form `FromStr` accepts for integers: an optional
/// '+' (or '-' when `signed`) followed by at least one decimal digit.
pub open spec fn integer_text(s: Seq<char>, signed: bool) -> Option<int> {
    let (body, negative) = if s.len() > 0 && s[0] == '+' {
        (s.drop_first(), false)
    } else if signed && s.len() > 0 && s[0] == '-' {
        (s.drop_first(), true)
    } else {
        (s, false)
    };
    if body.len() == 0 || !all_digits(body) {
        None
    } else if negative {
        Some(-(digits_value(body) as int))
    } else {
        Some(digits_value(body) as int)
    }
}

/// What `s.parse::<i64>()` gives: the integer when the text spells one in range.
pub open spec fn i64_text(s: Seq<char>) -> Option<i64> {
    match integer_text(s, true) {
        Some(v) => if i64::MIN <= v && v <= i64::MAX {
            Some(v as i64)
        } else {
            None
        },
        None => None,
    }
}

/// What `s.parse::<u64>()` (with `max` = `u64::MAX`) or `s.parse::<u32>()` (with
/// `max` = `u32::MAX`) gives: the integer when the text spells one up to `max`.
pub open spec fn unsigned_text(s: Seq<char>, max: nat) -> Option<nat> {
    match integer_text(s, false) {
        Some(v) => if 0 <= v && v <= max {
            Some(v as nat)
        } else {
            None
        },
        None => None,
    }
}

/// `a` and `b` are equal when ASCII letters are compared without case.
pub open spec fn ascii_eq_ignore_case(a: Seq<char>, b: Seq<char>) -> bool {
    a.len() == b.len() && forall|i: int| 0 <= i < a.len() ==> ascii_lower(#[trigger] a[i])
        == ascii_lower(b[i])
}

/// A text made of the given characters (`Iterator::collect` into a `String`).
#[verifier::external_body]
pub(crate) fn string_from_chars(cs: &[char]) -> (r: String)
    ensures
        r@ == cs@,
{
    cs.iter().collect()
}

/// Whether `c` is white space.
pub fn white_space(c: char) -> (r: bool)
    ensures
        r == is_white_space(c),
{
    let u = c as u32;
    (0x09 <= u && u <= 0x0d) || u == 0x20 || u == 0x85 || u == 0xa0 || u == 0x1680 || (0x2000 <= u
        && u <= 0x200a) || u == 0x2028 || u == 0x2029 || u == 0x202f || u == 0x205f || u == 0x3000
}

proof fn lemma_trim_start_suffix(s: Seq<char>, i: int)
    requires
        0 <= i <= s.len(),
        forall|j: int| 0 <= j < i ==> is_white_space(#[trigger] s[j]),
    ensures
        trim_start(s) == trim_start(s.skip(i)),
    decreases i,
{
    if i > 0 {
        assert(s.drop_first().skip(i - 1) =~= s.skip(i));
        assert forall|j: int| 0 <= j < i - 1 implies is_white_space(#[trigger] s.drop_first()[j]) by {
            assert(s.drop_first()[j] == s[j + 1]);
        }
        lemma_trim_start_suffix(s.drop_first(), i - 1);
    } else {
        assert(s.skip(0) =~= s);
    }
}

proof fn lemma_trim_end_prefix(s: Seq<char>, i: int)
    requires
        0 <= i <= s.len(),
        forall|j: int| i <= j < s.len() ==> is_white_space(#[trigger] s[j]),
    ensures
        trim_end(s) == trim_end(s.take(i)),
    decreases s.len() - i,
{
    if i < s.len() {
        assert(s.drop_last().take(i) =~= s.take(i));
        lemma_trim_end_prefix(s.drop_last(), i);
    } else {
        assert(s.take(i) =~= s);
    }
}

/// `s` without leading and trailing white space.
pub fn trim_chars(s: &Vec<char>) -> (r: Vec<char>)
    ensures
        r@ == trimmed(s@),
{
    let n = s.len();
    let mut lo: usize = 0;
    while lo < n && white_space(s[lo])
        invariant
            lo <= n,
            n == s@.len(),
            forall|j: int| 0 <= j < lo ==> is_white_space(#[trigger] s@[j]),
        decreases n - lo,
    {
        lo += 1;
    }
    proof {
        lemma_trim_start_suffix(s@, lo as int);
    }
    let mut hi: usize = n;
    while hi > lo && white_space(s[hi - 1])
        invariant
            lo <= hi <= n,
            n == s@.len(),
            forall|j: int| hi <= j < n ==> is_white_space(#[trigger] s@[j]),
        decreases hi - lo,
    {
        hi -= 1;
    }
    let ghost rest = s@.skip(lo as int);
    proof {
        if lo < n {
            assert(!is_white_space(rest[0]));
        }
        assert(trim_start(rest) == rest);
        assert forall|j: int| hi - lo <= j < rest.len() implies is_white_space(#[trigger] rest[j]) by {
            assert(rest[j] == s@[lo + j]);
        }
        lemma_trim_end_prefix(rest, hi - lo);
        let t = rest.take(hi - lo);
        if hi > lo {
            assert(t.last() == s@[hi - 1]);
        }
        assert(trim_end(t) == t);
    }
    let mut out: Vec<char> = Vec::new();
    let mut i: usize = lo;
    while i < hi
        invariant
            lo <= i <= hi <= n,
            n == s@.len(),
            out@ == s@.subrange(lo as int, i as int),
        decreases hi - i,
    {
        out.push(s[i]);
        i += 1;
        proof {
            assert(out@ =~= s@.subrange(lo as int, i as int));
        }
    }
    proof {
        assert(out@ =~= rest.take(hi - lo));
    }
    out
}

/// The pieces of `s` between commas.
pub fn split_commas(s: &Vec<char>) -> (r: Vec<Vec<char>>)
    ensures
        r@.len() == split_on(s@, ',').len(),
        forall|i: int| 0 <= i < r@.len() ==> #[trigger] r@[i]@ == split_on(s@, ',')[i],
{
    let mut pieces: Vec<Vec<char>> = Vec::new();
    let mut current: Vec<char> = Vec::new();
    let mut i: usize = 0;
    while i < s.len()
        invariant
            i <= s@.len(),
            pieces@.len() + 1 == split_on(s@.take(i as int), ',').len(),
            forall|j: int|
                0 <= j < pieces@.len() ==> #[trigger] pieces@[j]@ == split_on(s@.take(i as int), ',')[j],
            current@ == split_on(s@.take(i as int), ',').last(),
        decreases s@.len() - i,
    {
        proof {
            assert(s@.take(i + 1).drop_last() =~= s@.take(i as int));
        }
        if s[i] == ',' {
            pieces.push(current);
            current = Vec::new();
            proof {
                assert(current@ =~= Seq::<char>::empty());
            }
        } else {
            current.push(s[i]);
        }
        i += 1;
    }
    proof {
        assert(s@.take(s@.len() as int) =~= s@);
    }
    pieces.push(current);
    pieces
}

/// Whether `a` and `b` are equal with ASCII letters compared without case.
pub fn chars_eq_ignore_ascii_case(a: &Vec<char>, b: &Vec<char>) -> (r: bool)
    ensures
        r == ascii_eq_ignore_case(a@, b@),
{
    if a.len() != b.len() {
        return false;
    }
    let mut i: usize = 0;
    while i < a.len()
        invariant
            i <= a@.len(),
            a@.len() == b@.len(),
            forall|j: int| 0 <= j < i ==> ascii_lower(#[trigger] a@[j]) == ascii_lower(b@[j]),
        decreases a@.len() - i,
    {
        if lower_char(a[i]) != lower_char(b[i]) {
            return false;
        }
        i += 1;
    }
    true
}

/// ASCII case mapping of one character.
pub fn lower_char(c: char) -> (r: char)
    ensures
        r == ascii_lower(c),
{
    if 'A' <= c && c <= 'Z' {
        ((c as u8) + 32) as char
    } else {
        c
    }
}

/// The value of the decimal digits `s[start..]`, when there is at least one, all are
/// digits, and the value is at most `limit`.
pub fn digits_up_to(s: &Vec<char>, start: usize, limit: u64) -> (r: Option<u64>)
    requires
        start <= s@.len(),
    ensures
        r == (if s@.skip(start as int).len() > 0 && all_digits(s@.skip(start as int))
            && digits_value(s@.skip(start as int)) <= limit {
            Some(digits_value(s@.skip(start as int)) as u64)
        } else {
            None::<u64>
        }),
{
    let n = s.len();
    let mut acc: u64 = 0;
    let mut too_big = false;
    let mut i: usize = start;
    while i < n
        invariant
            start <= i <= n,
            n == s@.len(),
            all_digits(s@.subrange(start as int, i as int)),
            !too_big ==> acc as nat == digits_value(s@.subrange(start as int, i as int)) && acc
                <= limit,
            too_big ==> digits_value(s@.subrange(start as int, i as int)) > limit,
        decreases n - i,
    {
        let c = s[i];
        if c < '0' || c > '9' {
            proof {
                let body = s@.skip(start as int);
                assert(body[i - start] == c);
            }
            return None;
        }
        let d: u64 = ((c as u32) - ('0' as u32)) as u64;
        proof {
            let sub = s@.subrange(start as int, i + 1);
            assert(sub.drop_last() =~= s@.subrange(start as int, i as int));
            assert(sub.last() == c);
        }
        if !too_big {
            if d > limit || acc > (limit - d) / 10 {
                too_big = true;
            } else {
                acc = acc * 10 + d;
            }
        }
        i += 1;
    }
    proof {
        assert(s@.subrange(start as int, n as int) =~= s@.skip(start as int));
    }
    if i == start || too_big {
        None
    } else {
        Some(acc)
    }
}

/// `s.parse::<i64>()`.
pub fn parse_i64(s: &Vec<char>) -> (r: Option<i64>)
    ensures
        r == i64_text(s@),
{
    let mut start: usize = 0;
    let mut negative = false;
    if s.len() > 0 && s[0] == '+' {
        start = 1;
    } else if s.len() > 0 && s[0] == '-' {
        start = 1;
        negative = true;
    }
    proof {
        assert(s@.skip(0) =~= s@);
        if start == 1 {
            assert(s@.skip(1) =~= s@.drop_first());
        }
    }
    let limit: u64 = if negative {
        0x8000_0000_0000_0000
    } else {
        0x7fff_ffff_ffff_ffff
    };
    match digits_up_to(s, start, limit) {
        Some(v) => {
            if negative {
                if v == 0x8000_0000_0000_0000 {
                    Some(i64::MIN)
                } else {
                    Some(-(v as i64))
                }
            } else {
                Some(v as i64)
            }
        },
        None => None,
    }
}

/// `s.parse::<u64>()` (`max` = `u64::MAX`) or `s.parse::<u32>()` (`max` = `u32::MAX`).
pub fn parse_unsigned(s: &Vec<char>, max: u64) -> (r: Option<u64>)
    ensures
        r is Some <==> unsigned_text(s@, max as nat) is Some,
        r matches Some(v) ==> unsigned_text(s@, max as nat) == Some(v as nat),
{
    let mut start: usize = 0;
    if s.len() > 0 && s[0] == '+' {
        start = 1;
    }
    proof {
        assert(s@.skip(0) =~= s@);
        if start == 1 {
            assert(s@.skip(1) =~= s@.drop_first());
        }
    }
    digits_up_to(s, start, max)
}

} // verus!
