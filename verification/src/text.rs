//! Character-level string utilities shared by the decimal normalizer and the
//! query-string serializer: stripping trailing characters and rendering an
//! unsigned integer in decimal.

use vstd::prelude::*;

verus! {

/// `s` with every trailing occurrence of `c` removed.
pub open spec fn strip_trailing(s: Seq<char>, c: char) -> Seq<char>
    decreases s.len(),
{
    if s.len() > 0 && s.last() == c {
        strip_trailing(s.drop_last(), c)
    } else {
        s
    }
}

proof fn lemma_strip_trailing_take(s: Seq<char>, c: char, end: int)
    requires
        0 <= end <= s.len(),
        forall|j: int| end <= j < s.len() ==> s[j] == c,
        end > 0 ==> s[end - 1] != c,
    ensures
        strip_trailing(s, c) == s.take(end),
    decreases s.len(),
{
    if s.len() == end {
        assert(s.take(end) =~= s);
    } else {
        assert(s.last() == c);
        assert(s.drop_last() =~= s.take(s.len() - 1));
        lemma_strip_trailing_take(s.drop_last(), c, end);
        assert(s.drop_last().take(end) =~= s.take(end));
    }
}

/// Returns `s` with all trailing occurrences of `c` removed.
pub fn trim_end_char(s: &str, c: char) -> (r: String)
    ensures
        r@ == strip_trailing(s@, c),
{
    let n = s.unicode_len();
    let mut end: usize = n;
    while end > 0 && s.get_char(end - 1) == c
        invariant
            end <= n,
            n == s@.len(),
            forall|j: int| end <= j < s@.len() ==> s@[j] == c,
        decreases end,
    {
        end = end - 1;
    }
    proof {
        lemma_strip_trailing_take(s@, c, end as int);
    }
    let r = s.substring_char(0, end);
    assert(r@ =~= s@.take(end as int));
    r.to_owned()
}

/// The character for a single decimal digit.
pub open spec fn digit_char(d: nat) -> char {
    if d == 0 {
        '0'
    } else if d == 1 {
        '1'
    } else if d == 2 {
        '2'
    } else if d == 3 {
        '3'
    } else if d == 4 {
        '4'
    } else if d == 5 {
        '5'
    } else if d == 6 {
        '6'
    } else if d == 7 {
        '7'
    } else if d == 8 {
        '8'
    } else {
        '9'
    }
}

/// The decimal numeral for `n`, most significant digit first, no leading
/// zeros (except for `n == 0`, which is rendered as "0").
pub open spec fn dec_str_of(n: nat) -> Seq<char>
    decreases n,
{
    if n < 10 {
        seq![digit_char(n)]
    } else {
        dec_str_of(n / 10) + seq![digit_char(n % 10)]
    }
}

/// `c` is a decimal digit character.
pub open spec fn is_digit_char(c: char) -> bool {
    c == '0' || c == '1' || c == '2' || c == '3' || c == '4' || c == '5' || c == '6' || c == '7'
        || c == '8' || c == '9'
}

/// Every character of a decimal numeral is a digit.
pub proof fn lemma_dec_str_digits(n: nat)
    ensures
        forall|i: int| 0 <= i < dec_str_of(n).len() ==> is_digit_char(#[trigger] dec_str_of(n)[i]),
    decreases n,
{
    if n < 10 {
        assert(dec_str_of(n) == seq![digit_char(n)]);
        assert(is_digit_char(digit_char(n)));
    } else {
        lemma_dec_str_digits(n / 10);
        assert(dec_str_of(n) == dec_str_of(n / 10) + seq![digit_char(n % 10)]);
        assert forall|i: int| 0 <= i < dec_str_of(n).len() implies is_digit_char(
            dec_str_of(n)[i],
        ) by {
            if i < dec_str_of(n / 10).len() {
                assert(dec_str_of(n)[i] == dec_str_of(n / 10)[i]);
            } else {
                assert(dec_str_of(n)[i] == digit_char(n % 10));
            }
        }
    }
}

proof fn lemma_dec_str_len(n: nat)
    ensures
        dec_str_of(n).len() >= 1,
        n >= 10 ==> dec_str_of(n).len() >= 2,
    decreases n,
{
    if n >= 10 {
        lemma_dec_str_len(n / 10);
    }
}

/// Distinct numbers have distinct decimal numerals.
pub proof fn lemma_dec_str_injective(a: nat, b: nat)
    requires
        dec_str_of(a) == dec_str_of(b),
    ensures
        a == b,
    decreases a,
{
    lemma_dec_str_len(a);
    lemma_dec_str_len(b);
    if a < 10 && b < 10 {
        assert(dec_str_of(a)[0] == digit_char(a));
        assert(dec_str_of(b)[0] == digit_char(b));
    } else if a >= 10 && b >= 10 {
        assert(dec_str_of(a).last() == digit_char(a % 10));
        assert(dec_str_of(b).last() == digit_char(b % 10));
        assert(a % 10 == b % 10);
        assert(dec_str_of(a).drop_last() =~= dec_str_of(a / 10));
        assert(dec_str_of(b).drop_last() =~= dec_str_of(b / 10));
        lemma_dec_str_injective(a / 10, b / 10);
    }
}

fn digit_str(d: u128) -> (r: &'static str)
    requires
        d < 10,
    ensures
        r@ == seq![digit_char(d as nat)],
{
    let r = if d == 0 {
        "0"
    } else if d == 1 {
        "1"
    } else if d == 2 {
        "2"
    } else if d == 3 {
        "3"
    } else if d == 4 {
        "4"
    } else if d == 5 {
        "5"
    } else if d == 6 {
        "6"
    } else if d == 7 {
        "7"
    } else if d == 8 {
        "8"
    } else {
        "9"
    };
    proof {
        reveal_strlit("0");
        reveal_strlit("1");
        reveal_strlit("2");
        reveal_strlit("3");
        reveal_strlit("4");
        reveal_strlit("5");
        reveal_strlit("6");
        reveal_strlit("7");
        reveal_strlit("8");
        reveal_strlit("9");
        assert(r@ =~= seq![digit_char(d as nat)]);
    }
    r
}

/// Renders `n` in decimal, exactly as the exchange expects a millisecond
/// timestamp to be spelled in a query string.
pub fn u128_to_decimal(n: u128) -> (r: String)
    ensures
        r@ == dec_str_of(n as nat),
    decreases n,
{
    if n < 10 {
        digit_str(n).to_owned()
    } else {
        let high = u128_to_decimal(n / 10);
        let r = high.concat(digit_str(n % 10));
        assert(r@ =~= dec_str_of(n as nat));
        r
    }
}

} // verus!
