//! Decimal text for integers, as Rust's `Display` writes it and `FromStr`
//! reads it: the wire protocol carries packet kinds and ids in this form.
use vstd::prelude::*;

verus! {

/// Whether `c` is one of the ASCII digits `0` to `9`.
pub open spec fn is_digit(c: char) -> bool {
    '0' <= c && c <= '9'
}

/// The value of an ASCII digit.
pub open spec fn digit_value(c: char) -> int {
    c as int - '0' as int
}

/// The ASCII digit that stands for `d`, for `0 <= d < 10`.
pub open spec fn digit_char(d: int) -> char {
    (d + '0' as int) as char
}

/// Every character of `s` is an ASCII digit.
pub open spec fn all_digits(s: Seq<char>) -> bool {
    forall|i: int| 0 <= i < s.len() ==> #[trigger] is_digit(s[i])
}

/// The number that a string of digits denotes in base ten (leading zeros allowed).
pub open spec fn digits_value(s: Seq<char>) -> int
    decreases s.len(),
{
    if s.len() == 0 {
        0
    } else {
        digits_value(s.drop_last()) * 10 + digit_value(s.last())
    }
}

/// The shortest decimal digits of `n`: `"0"` for zero, no leading zeros otherwise.
pub open spec fn nat_digits(n: nat) -> Seq<char>
    decreases n,
{
    if n < 10 {
        seq![digit_char(n as int)]
    } else {
        nat_digits(n / 10).push(digit_char((n % 10) as int))
    }
}

/// How `Display` writes an integer: a `-` before the digits of a negative number.
pub open spec fn int_text(n: int) -> Seq<char> {
    if n < 0 {
        seq!['-'] + nat_digits((-n) as nat)
    } else {
        nat_digits(n as nat)
    }
}

/// The integer that `s` denotes in the syntax that `FromStr` accepts for signed
/// integers: an optional `+` or `-`, then at least one ASCII digit.
pub open spec fn signed_text_value(s: Seq<char>) -> Option<int> {
    if s.len() > 1 && s[0] == '-' && all_digits(s.drop_first()) {
        Some(-digits_value(s.drop_first()))
    } else if s.len() > 1 && s[0] == '+' && all_digits(s.drop_first()) {
        Some(digits_value(s.drop_first()))
    } else if s.len() > 0 && all_digits(s) {
        Some(digits_value(s))
    } else {
        None
    }
}

/// The integer that `s` denotes in the syntax that `FromStr` accepts for unsigned
/// integers: an optional `+`, then at least one ASCII digit.
pub open spec fn unsigned_text_value(s: Seq<char>) -> Option<int> {
    if s.len() > 1 && s[0] == '+' && all_digits(s.drop_first()) {
        Some(digits_value(s.drop_first()))
    } else if s.len() > 0 && all_digits(s) {
        Some(digits_value(s))
    } else {
        None
    }
}

/// What `s.parse::<i16>().ok()` gives.
pub open spec fn i16_from_text(s: Seq<char>) -> Option<i16> {
    match signed_text_value(s) {
        Some(v) => if i16::MIN <= v <= i16::MAX {
            Some(v as i16)
        } else {
            None
        },
        None => None,
    }
}

/// What `s.parse::<u32>().ok()` gives.
pub open spec fn u32_from_text(s: Seq<char>) -> Option<u32> {
    match unsigned_text_value(s) {
        Some(v) => if v <= u32::MAX {
            Some(v as u32)
        } else {
            None
        },
        None => None,
    }
}

proof fn lemma_digits_value_nonneg(s: Seq<char>)
    requires
        all_digits(s),
    ensures
        digits_value(s) >= 0,
    decreases s.len(),
{
    if s.len() > 0 {
        assert(is_digit(s[s.len() - 1]));
        lemma_digits_value_nonneg(s.drop_last());
    }
}

/// Reading more digits never gives a smaller number.
proof fn lemma_digits_value_prefix(s: Seq<char>, i: int)
    requires
        all_digits(s),
        0 <= i <= s.len(),
    ensures
        digits_value(s.take(i)) <= digits_value(s),
    decreases s.len(),
{
    if i < s.len() {
        assert(s.drop_last().take(i) =~= s.take(i));
        lemma_digits_value_prefix(s.drop_last(), i);
        assert(is_digit(s[s.len() - 1]));
        lemma_digits_value_nonneg(s.drop_last());
    } else {
        assert(s.take(i) =~= s);
    }
}

proof fn lemma_nat_digits(n: nat)
    ensures
        nat_digits(n).len() >= 1,
        all_digits(nat_digits(n)),
        digits_value(nat_digits(n)) == n,
        is_digit(nat_digits(n)[0]),
    decreases n,
{
    if n < 10 {
        assert(digits_value(nat_digits(n).drop_last()) == 0) by {
            assert(nat_digits(n).drop_last() =~= Seq::<char>::empty());
        }
    } else {
        lemma_nat_digits(n / 10);
        let d = nat_digits(n);
        assert(d.drop_last() =~= nat_digits(n / 10));
        assert forall|i: int| 0 <= i < d.len() implies #[trigger] is_digit(d[i]) by {
            if i < d.len() - 1 {
                assert(d[i] == nat_digits(n / 10)[i]);
            }
        }
    }
}

/// The text of an integer holds only digits and a leading `-`.
pub proof fn lemma_int_text_chars(n: int, k: int)
    requires
        0 <= k < int_text(n).len(),
    ensures
        is_digit(int_text(n)[k]) || int_text(n)[k] == '-',
{
    if n < 0 {
        lemma_nat_digits((-n) as nat);
        if k > 0 {
            assert(int_text(n)[k] == nat_digits((-n) as nat)[k - 1]);
        }
    } else {
        lemma_nat_digits(n as nat);
    }
}

/// Reading back what `Display` wrote for an `i16` gives the same `i16`.
pub proof fn lemma_i16_text_round_trip(n: i16)
    ensures
        i16_from_text(int_text(n as int)) == Some(n),
{
    if n < 0 {
        let m = (-(n as int)) as nat;
        lemma_nat_digits(m);
        let t = int_text(n as int);
        assert(t.drop_first() =~= nat_digits(m));
    } else {
        lemma_nat_digits(n as nat);
    }
}

/// Reading back what `Display` wrote for a `u32` gives the same `u32`.
pub proof fn lemma_u32_text_round_trip(n: u32)
    ensures
        u32_from_text(int_text(n as int)) == Some(n),
{
    lemma_nat_digits(n as nat);
}

/// Appends the decimal digits of `n`.
fn push_digits(n: u64, out: &mut Vec<char>)
    ensures
        final(out)@ == old(out)@ + nat_digits(n as nat),
    decreases n,
{
    if n >= 10 {
        push_digits(n / 10, out);
    }
    let d: u8 = (n % 10) as u8;
    let c: char = (d + 48u8) as char;
    out.push(c);
    proof {
        if n >= 10 {
            assert(nat_digits(n as nat) == nat_digits((n / 10) as nat).push(digit_char((n % 10) as int)));
        }
    }
}

/// The text that `Display` writes for an `i16`.
pub fn i16_to_chars(n: i16) -> (text: Vec<char>)
    ensures
        text@ == int_text(n as int),
{
    let mut out: Vec<char> = Vec::new();
    if n < 0 {
        out.push('-');
        let m: u64 = (0i64 - n as i64) as u64;
        push_digits(m, &mut out);
    } else {
        push_digits(n as u64, &mut out);
    }
    out
}

/// The text that `Display` writes for a `u32`.
pub fn u32_to_chars(n: u32) -> (text: Vec<char>)
    ensures
        text@ == int_text(n as int),
{
    let mut out: Vec<char> = Vec::new();
    push_digits(n as u64, &mut out);
    out
}

/// The value of the digits `s[start..]`, provided they are all digits and the value
/// is at most `bound`.
fn bounded_digits_value(s: &Vec<char>, start: usize, bound: u64) -> (r: Option<u64>)
    requires
        start <= s.len(),
        bound <= u32::MAX,
    ensures
        ({
            let rest = s@.subrange(start as int, s@.len() as int);
            r == if all_digits(rest) && digits_value(rest) <= bound {
                Some(digits_value(rest) as u64)
            } else {
                None::<u64>
            }
        }),
{
    let ghost rest = s@.subrange(start as int, s@.len() as int);
    let mut acc: u64 = 0;
    let mut i: usize = start;
    while i < s.len()
        invariant
            start <= i <= s.len(),
            rest == s@.subrange(start as int, s@.len() as int),
            bound <= u32::MAX,
            all_digits(rest.take(i - start)),
            acc == digits_value(rest.take(i - start)),
            acc <= bound,
        decreases s.len() - i,
    {
        let c = s[i];
        let ghost k: int = i - start;
        if !('0' <= c && c <= '9') {
            assert(!is_digit(rest[k]));
            return None;
        }
        let d: u64 = (c as u32 - '0' as u32) as u64;
        assert(rest.take(k + 1).drop_last() =~= rest.take(k));
        assert(rest.take(k + 1).last() == c);
        acc = acc * 10 + d;
        assert forall|j: int| 0 <= j < rest.take(k + 1).len() implies #[trigger] is_digit(
            rest.take(k + 1)[j],
        ) by {
            if j < k {
                assert(rest.take(k + 1)[j] == rest.take(k)[j]);
            }
        }
        i = i + 1;
        if acc > bound {
            proof {
                if all_digits(rest) {
                    lemma_digits_value_prefix(rest, k + 1);
                }
            }
            return None;
        }
    }
    assert(rest.take(i - start) =~= rest);
    Some(acc)
}

/// What `text.parse::<i16>().ok()` gives.
pub fn i16_from_chars(text: &Vec<char>) -> (r: Option<i16>)
    ensures
        r == i16_from_text(text@),
{
    let n = text.len();
    if n == 0 {
        return None;
    }
    let first = text[0];
    assert(!is_digit('-') && !is_digit('+'));
    if (first == '-' || first == '+') && n == 1 {
        return None;
    }
    if first == '-' {
        assert(text@.subrange(1, n as int) =~= text@.drop_first());
        match bounded_digits_value(text, 1, 32768) {
            Some(v) => {
                proof {
                    lemma_digits_value_nonneg(text@.drop_first());
                }
                Some((0i64 - v as i64) as i16)
            },
            None => {
                proof {
                    let rest = text@.drop_first();
                    if all_digits(rest) {
                        lemma_digits_value_nonneg(rest);
                    }
                }
                None
            },
        }
    } else if first == '+' {
        assert(text@.subrange(1, n as int) =~= text@.drop_first());
        match bounded_digits_value(text, 1, 32767) {
            Some(v) => {
                proof {
                    lemma_digits_value_nonneg(text@.drop_first());
                }
                Some(v as i16)
            },
            None => {
                proof {
                    let rest = text@.drop_first();
                    if all_digits(rest) {
                        lemma_digits_value_nonneg(rest);
                    }
                }
                None
            },
        }
    } else {
        assert(text@.subrange(0, n as int) =~= text@);
        match bounded_digits_value(text, 0, 32767) {
            Some(v) => {
                proof {
                    lemma_digits_value_nonneg(text@);
                }
                Some(v as i16)
            },
            None => {
                proof {
                    if all_digits(text@) {
                        lemma_digits_value_nonneg(text@);
                        assert(is_digit(text@[0]));
                    }
                }
                None
            },
        }
    }
}

/// What `text.parse::<u32>().ok()` gives.
pub fn u32_from_chars(text: &Vec<char>) -> (r: Option<u32>)
    ensures
        r == u32_from_text(text@),
{
    let n = text.len();
    if n == 0 {
        return None;
    }
    let first = text[0];
    assert(!is_digit('+'));
    if first == '+' {
        if n == 1 {
            return None;
        }
        assert(text@.subrange(1, n as int) =~= text@.drop_first());
        match bounded_digits_value(text, 1, 0xffff_ffff) {
            Some(v) => {
                proof {
                    lemma_digits_value_nonneg(text@.drop_first());
                }
                Some(v as u32)
            },
            None => None,
        }
    } else {
        assert(text@.subrange(0, n as int) =~= text@);
        match bounded_digits_value(text, 0, 0xffff_ffff) {
            Some(v) => {
                proof {
                    lemma_digits_value_nonneg(text@);
                }
                Some(v as u32)
            },
            None => {
                proof {
                    if all_digits(text@) {
                        assert(is_digit(text@[0]));
                    }
                }
                None
            },
        }
    }
}

} // verus!
