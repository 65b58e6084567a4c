//! Decimal text: reading a non-negative integer and writing one.
use vstd::prelude::*;
use vstd::string::*;

verus! {

pub open spec fn is_digit(c: char) -> bool {
    '0' <= c && c <= '9'
}

pub open spec fn digit_value(c: char) -> nat {
    (c as nat - '0' as nat) as nat
}

pub open spec fn digit_char(d: nat) -> char {
    ((d + '0' as nat) as u32) as char
}

/// Every character of `s` is an ASCII digit.
pub open spec fn all_digits(s: Seq<char>) -> bool {
    forall|i: int| 0 <= i < s.len() ==> is_digit(#[trigger] s[i])
}

/// The number that the digits of `s` spell, most significant first.
pub open spec fn digits_value(s: Seq<char>) -> nat
    decreases s.len(),
{
    if s.len() == 0 {
        0
    } else {
        digits_value(s.drop_last()) * 10 + digit_value(s.last())
    }
}

/// The digits that follow an optional leading `+`.
pub open spec fn unsigned_digits(s: Seq<char>) -> Seq<char> {
    if s.len() > 0 && s[0] == '+' {
        s.subrange(1, s.len() as int)
    } else {
        s
    }
}

/// `s` is the text of a `u64`: an optional `+`, then at least one digit,
/// and a value that fits in 64 bits.
pub open spec fn is_u64_text(s: Seq<char>) -> bool {
    let d = unsigned_digits(s);
    d.len() > 0 && all_digits(d) && digits_value(d) <= u64::MAX
}

/// The value of a text for which `is_u64_text` holds.
pub open spec fn u64_text_value(s: Seq<char>) -> nat {
    digits_value(unsigned_digits(s))
}

/// The shortest decimal text of `n`.
pub open spec fn decimal_text(n: nat) -> Seq<char>
    decreases n,
{
    if n < 10 {
        seq![digit_char(n)]
    } else {
        decimal_text(n / 10) + seq![digit_char(n % 10)]
    }
}

proof fn lemma_digits_prefix_le(s: Seq<char>, k: int)
    requires
        0 <= k <= s.len(),
    ensures
        digits_value(s.subrange(0, k)) <= digits_value(s),
    decreases s.len() - k,
{
    if k < s.len() {
        lemma_digits_prefix_le(s, k + 1);
        let p = s.subrange(0, k + 1);
        assert(p.drop_last() =~= s.subrange(0, k));
    } else {
        assert(s.subrange(0, k) =~= s);
    }
}

/// Reads `s` as a `u64` in the way `str::parse::<u64>` does: an optional
/// `+`, then decimal digits, with no other character and no overflow.
pub fn parse_u64(s: &str) -> (r: Option<u64>)
    ensures
        r.is_some() == is_u64_text(s@),
        r.is_some() ==> r.unwrap() as nat == u64_text_value(s@),
{
    let n = s.unicode_len();
    let mut i: usize = 0;
    if n > 0 && s.get_char(0) == '+' {
        i = 1;
    }
    let ghost d = unsigned_digits(s@);
    let ghost start = i as int;
    assert(d =~= s@.subrange(start, n as int));
    if i == n {
        return None;
    }
    let mut value: u64 = 0;
    while i < n
        invariant
            0 <= start <= 1,
            d == unsigned_digits(s@),
            start <= i <= n,
            n == s@.len(),
            start + d.len() == n,
            d =~= s@.subrange(start, n as int),
            all_digits(d.subrange(0, i - start)),
            value as nat == digits_value(d.subrange(0, i - start)),
        decreases n - i,
    {
        let c = s.get_char(i);
        let ghost k: int = i as int - start;
        assert(d[k] == s@[i as int]);
        if !('0' <= c && c <= '9') {
            assert(!is_digit(d[k]));
            assert(!all_digits(d));
            assert(!is_u64_text(s@));
            return None;
        }
        let dv: u64 = (c as u32 - '0' as u32) as u64;
        assert(d.subrange(0, k + 1).drop_last() =~= d.subrange(0, k));
        assert(d.subrange(0, k + 1).last() == c);
        assert(digits_value(d.subrange(0, k + 1)) == value as nat * 10 + dv as nat);
        match value.checked_mul(10) {
            None => {
                proof {
                    lemma_digits_prefix_le(d, k + 1);
                }
                return None;
            },
            Some(m) => match m.checked_add(dv) {
                None => {
                    proof {
                        lemma_digits_prefix_le(d, k + 1);
                        assert(digits_value(d) > u64::MAX);
                    }
                    return None;
                },
                Some(v) => {
                    value = v;
                },
            },
        }
        i = i + 1;
        assert(all_digits(d.subrange(0, i - start)));
    }
    assert(d.subrange(0, n - start) =~= d);
    Some(value)
}

fn digit_str(d: u64) -> (r: &'static str)
    requires
        d < 10,
    ensures
        r@ == seq![digit_char(d as nat)],
{
    if d == 0 {
        proof { reveal_strlit("0"); }
        "0"
    } else if d == 1 {
        proof { reveal_strlit("1"); }
        "1"
    } else if d == 2 {
        proof { reveal_strlit("2"); }
        "2"
    } else if d == 3 {
        proof { reveal_strlit("3"); }
        "3"
    } else if d == 4 {
        proof { reveal_strlit("4"); }
        "4"
    } else if d == 5 {
        proof { reveal_strlit("5"); }
        "5"
    } else if d == 6 {
        proof { reveal_strlit("6"); }
        "6"
    } else if d == 7 {
        proof { reveal_strlit("7"); }
        "7"
    } else if d == 8 {
        proof { reveal_strlit("8"); }
        "8"
    } else {
        proof { reveal_strlit("9"); }
        "9"
    }
}

/// The shortest decimal text of `n`.
pub fn to_decimal(n: u64) -> (r: String)
    ensures
        r@ == decimal_text(n as nat),
    decreases n,
{
    if n < 10 {
        digit_str(n).to_owned()
    } else {
        let mut s = to_decimal(n / 10);
        s.append(digit_str(n % 10));
        s
    }
}

} // verus!
