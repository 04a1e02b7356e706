//! Decimal digits and small helpers over the characters of a token.
use vstd::prelude::*;
use vstd::string::StrSliceExecFns;
use vstd::string::StringExecFns;

verus! {

/// True of the ASCII digits `'0'` to `'9'`.
pub open spec fn is_digit(c: char) -> bool {
    '0' <= c && c <= '9'
}

/// The numeric value of an ASCII digit.
pub open spec fn digit_value(c: char) -> nat {
    (c as u32 - '0' as u32) as nat
}

/// The ASCII digit of a value below ten.
pub open spec fn digit_char(d: nat) -> char {
    if d == 0 {
        '0'
    } else if d == 1 {
        '1'
    } else if d == 2 {
        '2'
    } else if d == 3 {
        '3'
    } else if d == 4 {
        '4'
    } else if d == 5 {
        '5'
    } else if d == 6 {
        '6'
    } else if d == 7 {
        '7'
    } else if d == 8 {
        '8'
    } else {
        '9'
    }
}

/// Every character of `s` is an ASCII digit.
pub open spec fn all_digits(s: Seq<char>) -> bool {
    forall|i: int| 0 <= i < s.len() ==> is_digit(#[trigger] s[i])
}

/// No character of `s` is an ASCII digit.
pub open spec fn no_digits(s: Seq<char>) -> bool {
    forall|i: int| 0 <= i < s.len() ==> !is_digit(#[trigger] s[i])
}

/// The number that a string of digits writes in base ten (the empty string reads as 0).
pub open spec fn digits_value(s: Seq<char>) -> nat
    decreases s.len(),
{
    if s.len() == 0 {
        0
    } else {
        digits_value(s.drop_last()) * 10 + digit_value(s.last())
    }
}

/// The shortest base-ten writing of `n`, without sign or leading zeros.
pub open spec fn decimal(n: nat) -> Seq<char>
    decreases n,
{
    if n < 10 {
        seq![digit_char(n)]
    } else {
        decimal(n / 10).push(digit_char(n % 10))
    }
}

/// The index of the first ASCII digit of `s`, if it holds one.
pub open spec fn first_digit(s: Seq<char>) -> Option<int>
    decreases s.len(),
{
    if s.len() == 0 {
        None
    } else if is_digit(s.last()) {
        match first_digit(s.drop_last()) {
            Some(i) => Some(i),
            None => Some(s.len() - 1),
        }
    } else {
        first_digit(s.drop_last())
    }
}

/// `s` ends with `suffix`.
pub open spec fn ends_with(s: Seq<char>, suffix: Seq<char>) -> bool {
    suffix.len() <= s.len() && s.subrange(s.len() - suffix.len(), s.len() as int) == suffix
}

pub proof fn lemma_digit_char(d: nat)
    requires
        d < 10,
    ensures
        is_digit(digit_char(d)),
        digit_value(digit_char(d)) == d,
{
}

/// The decimal writing of a number is a non-empty string of digits that reads back as it.
pub proof fn lemma_decimal(n: nat)
    ensures
        decimal(n).len() > 0,
        all_digits(decimal(n)),
        digits_value(decimal(n)) == n,
    decreases n,
{
    lemma_digit_char(n % 10);
    let s = decimal(n);
    if n < 10 {
        assert(s.drop_last() =~= Seq::<char>::empty());
        assert(digits_value(s.drop_last()) == 0);
    } else {
        lemma_decimal(n / 10);
        assert(s.drop_last() =~= decimal(n / 10));
        assert(digits_value(s) == digits_value(decimal(n / 10)) * 10 + n % 10);
        assert((n / 10) * 10 + n % 10 == n);
    }
    assert(all_digits(s)) by {
        assert forall|i: int| 0 <= i < s.len() implies is_digit(#[trigger] s[i]) by {
            if i < s.len() - 1 {
                assert(s[i] == s.drop_last()[i]);
            }
        }
    }
}

/// A first digit is found exactly where the digits begin.
pub proof fn lemma_first_digit(s: Seq<char>)
    ensures
        match first_digit(s) {
            Some(i) => 0 <= i < s.len() && is_digit(s[i]) && no_digits(s.take(i)),
            None => no_digits(s),
        },
    decreases s.len(),
{
    if s.len() > 0 {
        lemma_first_digit(s.drop_last());
        assert forall|i: int| 0 <= i < s.len() - 1 implies s[i] == #[trigger] s.drop_last()[i] by {}
        let d = s.drop_last();
        match first_digit(d) {
            Some(i) => {
                assert(s.take(i) =~= d.take(i));
                assert(s[i] == d[i]);
            },
            None => {
                assert(s.take(s.len() - 1) =~= d);
                if !is_digit(s.last()) {
                    assert forall|i: int| 0 <= i < s.len() implies !is_digit(#[trigger] s[i]) by {
                        if i < s.len() - 1 {
                            assert(s[i] == d[i]);
                        }
                    }
                }
            },
        }
    }
}

/// Where a prefix holds no digit and the rest starts with one, the first digit stands right
/// after the prefix.
pub proof fn lemma_first_digit_after(p: Seq<char>, r: Seq<char>)
    requires
        no_digits(p),
        r.len() > 0,
        is_digit(r[0]),
    ensures
        first_digit(p + r) == Some(p.len() as int),
{
    let s = p + r;
    lemma_first_digit(s);
    match first_digit(s) {
        Some(i) => {
            if i < p.len() {
                assert(s[i] == p[i]);
            } else if i > p.len() {
                assert(s.take(i)[p.len() as int] == r[0]);
            }
        },
        None => {
            assert(s[p.len() as int] == r[0]);
        },
    }
}

/// A longer string of digits reads as at least as much as any of its prefixes.
pub proof fn lemma_digits_value_prefix(s: Seq<char>, k: int)
    requires
        0 <= k <= s.len(),
        all_digits(s),
    ensures
        digits_value(s.take(k)) <= digits_value(s),
    decreases s.len(),
{
    if k < s.len() {
        assert(s.drop_last().take(k) =~= s.take(k));
        lemma_digits_value_prefix(s.drop_last(), k);
    } else {
        assert(s.take(k) =~= s);
    }
}

/// The one-digit string for a value below ten.
fn digit_str(d: usize) -> (r: &'static str)
    requires
        d < 10,
    ensures
        r@ == seq![digit_char(d as nat)],
{
    proof {
        reveal_strlit("0");
        reveal_strlit("1");
        reveal_strlit("2");
        reveal_strlit("3");
        reveal_strlit("4");
        reveal_strlit("5");
        reveal_strlit("6");
        reveal_strlit("7");
        reveal_strlit("8");
        reveal_strlit("9");
    }
    if d == 0 {
        "0"
    } else if d == 1 {
        "1"
    } else if d == 2 {
        "2"
    } else if d == 3 {
        "3"
    } else if d == 4 {
        "4"
    } else if d == 5 {
        "5"
    } else if d == 6 {
        "6"
    } else if d == 7 {
        "7"
    } else if d == 8 {
        "8"
    } else {
        assert(seq!['9'] =~= "9"@);
        "9"
    }
}

/// Appends the decimal writing of `n` to `s`.
pub fn push_decimal(s: &mut String, n: usize)
    ensures
        final(s)@ == old(s)@ + decimal(n as nat),
    decreases n,
{
    if n >= 10 {
        push_decimal(s, n / 10);
    }
    s.append(digit_str(n % 10));
    proof {
        if n >= 10 {
            assert(decimal(n as nat) == decimal((n / 10) as nat).push(digit_char((n % 10) as nat)));
        }
    }
    assert(final(s)@ =~= old(s)@ + decimal(n as nat));
}

/// Whether `t` ends with `suffix`.
pub fn str_ends_with(t: &str, suffix: &str) -> (r: bool)
    ensures
        r == ends_with(t@, suffix@),
{
    let n = t.unicode_len();
    let m = suffix.unicode_len();
    if m > n {
        return false;
    }
    let tail = t.substring_char(n - m, n).to_owned();
    tail == suffix.to_owned()
}

/// Where the first ASCII digit of `t[..end]` stands, if there is one.
pub fn find_digit(t: &str, end: usize) -> (r: Option<usize>)
    requires
        end <= t@.len(),
    ensures
        r == match first_digit(t@.take(end as int)) {
            Some(i) => Some(i as usize),
            None => None,
        },
{
    let mut i: usize = 0;
    while i < end
        invariant
            i <= end <= t@.len(),
            no_digits(t@.take(i as int)),
        decreases end - i,
    {
        let c = t.get_char(i);
        if '0' <= c && c <= '9' {
            proof {
                let s = t@.take(end as int);
                assert(s =~= t@.take(i as int) + s.skip(i as int));
                lemma_first_digit_after(t@.take(i as int), s.skip(i as int));
            }
            return Some(i);
        }
        assert(t@.take(i + 1) =~= t@.take(i as int).push(c));
        i = i + 1;
    }
    proof {
        lemma_first_digit(t@.take(end as int));
        let s = t@.take(end as int);
        match first_digit(s) {
            Some(j) => {
                assert(s =~= t@.take(i as int));
            },
            None => {},
        }
    }
    None
}

/// Reads `t[start..end]` as an unsigned base-ten number; `None` where a character is no
/// digit or the number does not fit in `usize`.
pub fn parse_digits(t: &str, start: usize, end: usize) -> (r: Option<usize>)
    requires
        start <= end <= t@.len(),
    ensures
        ({
            let s = t@.subrange(start as int, end as int);
            r == if all_digits(s) && digits_value(s) <= usize::MAX {
                Some(digits_value(s) as usize)
            } else {
                None
            }
        }),
{
    let ghost s = t@.subrange(start as int, end as int);
    let mut value: usize = 0;
    let mut i: usize = start;
    while i < end
        invariant
            start <= i <= end <= t@.len(),
            s == t@.subrange(start as int, end as int),
            all_digits(s.take(i - start)),
            value == digits_value(s.take(i - start)),
        decreases end - i,
    {
        let c = t.get_char(i);
        let ghost k = i - start;
        assert(s.take(k + 1).drop_last() =~= s.take(k));
        assert(s[k] == c);
        if !('0' <= c && c <= '9') {
            assert(!is_digit(s[k]));
            return None;
        }
        let d = (c as u32 - '0' as u32) as usize;
        let next = match value.checked_mul(10) {
            Some(m) => m.checked_add(d),
            None => None,
        };
        match next {
            Some(v) => {
                value = v;
            },
            None => {
                proof {
                    if all_digits(s) {
                        lemma_digits_value_prefix(s, k + 1);
                    }
                }
                return None;
            },
        }
        i = i + 1;
    }
    assert(s.take(end - start) =~= s);
    Some(value)
}

} // verus!
