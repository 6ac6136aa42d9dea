//! Decimal text of integers, as std's `Display` writes it and as std's
//! `FromStr` reads it, computed here.
use vstd::prelude::*;

verus! {

/// The character of the decimal digit `d` (`d < 10`).
pub open spec fn digit_char(d: nat) -> char {
    (('0' as nat) + d) as char
}

/// The decimal digits of `n`, most significant first, without leading zeros.
pub open spec fn nat_decimal(n: nat) -> Seq<char>
    decreases n,
{
    if n < 10 {
        seq![digit_char(n)]
    } else {
        nat_decimal(n / 10).push(digit_char(n % 10))
    }
}

/// The decimal text of `v`: a `-` before the digits of a negative value.
pub open spec fn int_decimal(v: int) -> Seq<char> {
    if v < 0 {
        seq!['-'] + nat_decimal((-v) as nat)
    } else {
        nat_decimal(v as nat)
    }
}

pub open spec fn is_digit(c: char) -> bool {
    '0' <= c && c <= '9'
}

pub open spec fn all_digits(s: Seq<char>) -> bool {
    forall|i: int| 0 <= i < s.len() ==> #[trigger] is_digit(s[i])
}

/// The value of a sequence of decimal digits.
pub open spec fn digits_value(s: Seq<char>) -> nat
    decreases s.len(),
{
    if s.len() == 0 {
        0
    } else {
        digits_value(s.drop_last()) * 10 + ((s.last() as nat) - ('0' as nat)) as nat
    }
}

/// The value of the text of an integer with an optional sign, as
/// `FromStr` reads it for a signed type of range `min..=max`: an optional `+`
/// or `-`, then one or more ASCII digits and nothing else; `None` on any other
/// text and on a value out of range.
pub open spec fn parse_signed(s: Seq<char>, min: int, max: int) -> Option<int> {
    let negative = s.len() > 0 && s[0] == '-';
    let digits = if s.len() > 0 && (s[0] == '-' || s[0] == '+') {
        s.drop_first()
    } else {
        s
    };
    if digits.len() == 0 || !all_digits(digits) {
        None
    } else {
        let v: int = if negative {
            -(digits_value(digits) as int)
        } else {
            digits_value(digits) as int
        };
        if min <= v && v <= max {
            Some(v)
        } else {
            None
        }
    }
}

/// The value of `s` as `str::parse::<i32>` reads it.
pub open spec fn parse_i32(s: Seq<char>) -> Option<int> {
    parse_signed(s, i32::MIN as int, i32::MAX as int)
}

/// The text of a decimal digit.
fn digit_text(d: u128) -> (r: &'static str)
    requires
        d < 10,
    ensures
        r@ == seq![digit_char(d as nat)],
{
    proof {
        reveal_strlit("0");
        reveal_strlit("1");
        reveal_strlit("2");
        reveal_strlit("3");
        reveal_strlit("4");
        reveal_strlit("5");
        reveal_strlit("6");
        reveal_strlit("7");
        reveal_strlit("8");
        reveal_strlit("9");
    }
    if d == 0 {
        "0"
    } else if d == 1 {
        "1"
    } else if d == 2 {
        "2"
    } else if d == 3 {
        "3"
    } else if d == 4 {
        "4"
    } else if d == 5 {
        "5"
    } else if d == 6 {
        "6"
    } else if d == 7 {
        "7"
    } else if d == 8 {
        "8"
    } else {
        "9"
    }
}

/// The decimal digits of a number.
fn nat_text(n: u128) -> (r: String)
    ensures
        r@ == nat_decimal(n as nat),
    decreases n,
{
    if n < 10 {
        String::from_str(digit_text(n))
    } else {
        let front = nat_text(n / 10);
        front.concat(digit_text(n % 10))
    }
}

/// The decimal text of an `i128`, as std's `ToString` writes it.
pub(crate) fn i128_to_string(v: i128) -> (r: String)
    ensures
        r@ == int_decimal(v as int),
{
    if v < 0 {
        proof {
            reveal_strlit("-");
        }
        let magnitude: u128 = if v == i128::MIN {
            (i128::MAX as u128) + 1
        } else {
            (-v) as u128
        };
        String::from_str("-").concat(nat_text(magnitude).as_str())
    } else {
        nat_text(v as u128)
    }
}

/// The decimal text of an `i32`, as std's `ToString` writes it.
pub(crate) fn i32_to_string(v: i32) -> (r: String)
    ensures
        r@ == int_decimal(v as int),
{
    i128_to_string(v as i128)
}

/// The decimal text of a `u32`, as std's `ToString` writes it.
pub(crate) fn u32_to_string(v: u32) -> (r: String)
    ensures
        r@ == int_decimal(v as int),
{
    i128_to_string(v as i128)
}

/// The decimal digits of a number are one or more ASCII digits, and they read
/// back as the number.
proof fn lemma_nat_decimal_reads_back(n: nat)
    ensures
        nat_decimal(n).len() > 0,
        all_digits(nat_decimal(n)),
        digits_value(nat_decimal(n)) == n,
    decreases n,
{
    let d = n % 10;
    assert(digit_char(d) as nat == '0' as nat + d);
    assert(is_digit(digit_char(d)));
    if n < 10 {
        let t = nat_decimal(n);
        assert(t.drop_last() =~= seq![]);
        assert(digits_value(t) == digits_value(t.drop_last()) * 10 + ((t.last() as nat) - (
        '0' as nat)) as nat);
    } else {
        lemma_nat_decimal_reads_back(n / 10);
        let head = nat_decimal(n / 10);
        let t = nat_decimal(n);
        assert(t == head.push(digit_char(d)));
        assert(t.drop_last() =~= head);
        assert forall|i: int| 0 <= i < t.len() implies #[trigger] is_digit(t[i]) by {
            if i < head.len() {
                assert(t[i] == head[i]);
                assert(is_digit(head[i]));
            }
        }
        assert(digits_value(t) == digits_value(head) * 10 + d);
    }
}

/// The decimal text of a value reads back as that value, in any range that
/// holds it: what `Display` writes, `FromStr` reads.
pub proof fn lemma_decimal_text_reads_back(v: int, min: int, max: int)
    requires
        min <= v <= max,
    ensures
        parse_signed(int_decimal(v), min, max) == Some(v),
{
    let s = int_decimal(v);
    if v < 0 {
        let m = (-v) as nat;
        lemma_nat_decimal_reads_back(m);
        assert(s[0] == '-');
        assert(s.drop_first() =~= nat_decimal(m));
    } else {
        let m = v as nat;
        lemma_nat_decimal_reads_back(m);
        assert(is_digit(s[0]));
        assert(s[0] != '-' && s[0] != '+');
    }
}

/// The value of the digits, or `cap` where it is `cap` or more.
pub open spec fn capped(v: nat, cap: nat) -> nat {
    if v < cap {
        v
    } else {
        cap
    }
}

/// The value of an optionally signed decimal text as an `i32`, as std's
/// `str::parse::<i32>` reads it: `None` where the text is not one or the
/// value is out of range.
pub(crate) fn parse_i32_text(s: &str) -> (r: Option<i32>)
    ensures
        match r {
            Some(v) => parse_i32(s@) == Some(v as int),
            None => parse_i32(s@) is None,
        },
{
    let len = s.unicode_len();
    if len == 0 {
        return None;
    }
    let first = s.get_char(0);
    let negative = first == '-';
    assert(first == s@[0]);
    let start: usize = if first == '-' || first == '+' {
        1
    } else {
        0
    };
    let ghost digits = s@.subrange(start as int, len as int);
    proof {
        if start == 1 {
            assert(digits =~= s@.drop_first());
        } else {
            assert(digits =~= s@);
        }
    }
    if start == len {
        proof {
            assert(first == s@[0]);
            assert(digits.len() == 0);
            assert(s@.drop_first().len() == 0);
            assert(start == 1);
            assert(s@[0] == '-' || s@[0] == '+');
            assert(parse_signed(s@, i32::MIN as int, i32::MAX as int) is None);
        }
        return None;
    }
    let cap: i64 = 4_294_967_296;
    let mut acc: i64 = 0;
    let mut i: usize = start;
    while i < len
        invariant
            start <= i <= len,
            len == s@.len(),
            digits == s@.subrange(start as int, len as int),
            digits == (if s@.len() > 0 && (s@[0] == '-' || s@[0] == '+') {
                s@.drop_first()
            } else {
                s@
            }),
            negative == (s@.len() > 0 && s@[0] == '-'),
            cap == 4_294_967_296,
            all_digits(s@.subrange(start as int, i as int)),
            acc == capped(digits_value(s@.subrange(start as int, i as int)), cap as nat),
        decreases len - i,
    {
        let c = s.get_char(i);
        if !('0' <= c && c <= '9') {
            proof {
                assert(digits[i - start] == c);
                assert(!is_digit(digits[i - start]));
            }
            return None;
        }
        let d = (c as u32 - '0' as u32) as i64;
        let ghost before = s@.subrange(start as int, i as int);
        let next = acc * 10 + d;
        acc = if next < cap {
            next
        } else {
            cap
        };
        i = i + 1;
        proof {
            let now = s@.subrange(start as int, i as int);
            assert(now.drop_last() =~= before);
            assert(now.last() == c);
            assert(digits_value(now) == digits_value(before) * 10 + d);
            assert forall|k: int| 0 <= k < now.len() implies #[trigger] is_digit(now[k]) by {
                if k < now.len() - 1 {
                    assert(now[k] == before[k]);
                }
            }
            if digits_value(before) >= cap {
                assert(digits_value(now) >= cap) by (nonlinear_arith)
                    requires
                        digits_value(now) == digits_value(before) * 10 + d,
                        digits_value(before) >= cap,
                        d >= 0,
                ;
            }
        }
    }
    proof {
        assert(s@.subrange(start as int, len as int) =~= digits);
    }
    if negative {
        if acc <= 2_147_483_648 {
            Some((-acc) as i32)
        } else {
            None
        }
    } else {
        if acc <= 2_147_483_647 {
            Some(acc as i32)
        } else {
            None
        }
    }
}

} // verus!
