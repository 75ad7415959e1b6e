//! Decimal numbers as text: writing an `i32` the way `Display` does and
//! reading one the way `i32::from_str` does.
use vstd::prelude::*;

verus! {

/// Appends one character to a string.
///
/// Trusted: calls `String::push`, whose documentation says it appends the
/// given `char` to the end of the string; the contract states just that.
#[verifier::external_body]
pub(crate) fn push_char(s: &mut String, c: char)
    ensures
        final(s)@ == old(s)@.push(c),
{
    s.push(c);
}

/// The character of a decimal digit `0..=9`.
pub open spec fn digit_char(d: int) -> char {
    (48 + d) as char
}

/// Whether `c` is one of `'0'..='9'`.
pub open spec fn is_digit(c: char) -> bool {
    '0' <= c && c <= '9'
}

/// The value of a decimal digit character.
pub open spec fn digit_value(c: char) -> int {
    c as int - 48
}

/// The decimal digits of a natural number, most significant first, without
/// leading zeros ("0" for zero).
pub open spec fn digits_of(n: nat) -> Seq<char>
    decreases n,
{
    if n < 10 {
        seq![digit_char(n as int)]
    } else {
        digits_of(n / 10).push(digit_char((n % 10) as int))
    }
}

/// The decimal text of an integer: a minus sign for negative numbers, then
/// the digits of its magnitude.
pub open spec fn decimal(i: int) -> Seq<char> {
    if i < 0 {
        seq!['-'] + digits_of((-i) as nat)
    } else {
        digits_of(i as nat)
    }
}

/// Whether every character is a decimal digit.
pub open spec fn all_digits(ds: Seq<char>) -> bool {
    forall|k: int| 0 <= k < ds.len() ==> is_digit(#[trigger] ds[k])
}

/// The number that a string of decimal digits spells.
pub open spec fn digits_value(ds: Seq<char>) -> int
    decreases ds.len(),
{
    if ds.len() == 0 {
        0
    } else {
        digits_value(ds.drop_last()) * 10 + digit_value(ds.last())
    }
}

/// What `i32::from_str` gives for a text: an optional `+` or `-`, then one or
/// more decimal digits, whose value must fit in an `i32`; anything else is an
/// error (`None`).
pub open spec fn parse_i32_spec(s: Seq<char>) -> Option<i32> {
    if s.len() == 0 {
        None
    } else {
        let negative = s[0] == '-';
        let ds = if s[0] == '-' || s[0] == '+' {
            s.drop_first()
        } else {
            s
        };
        let v = if negative {
            -digits_value(ds)
        } else {
            digits_value(ds)
        };
        if ds.len() == 0 || !all_digits(ds) || v < i32::MIN || v > i32::MAX {
            None
        } else {
            Some(v as i32)
        }
    }
}

proof fn lemma_digits_value_grows(ds: Seq<char>, c: char)
    requires
        all_digits(ds),
        is_digit(c),
    ensures
        digits_value(ds.push(c)) >= digits_value(ds),
        digits_value(ds) >= 0,
    decreases ds.len(),
{
    assert(ds.push(c).drop_last() == ds);
    if ds.len() > 0 {
        assert(is_digit(ds[ds.len() - 1]));
        assert(all_digits(ds.drop_last())) by {
            assert forall|k: int| 0 <= k < ds.drop_last().len() implies is_digit(
                #[trigger] ds.drop_last()[k],
            ) by {
                assert(ds.drop_last()[k] == ds[k]);
            }
        }
        lemma_digits_value_grows(ds.drop_last(), ds.last());
    }
}

/// Appends the digits of `n`, most significant first.
fn push_digits(s: &mut String, n: u32)
    ensures
        final(s)@ == old(s)@ + digits_of(n as nat),
    decreases n,
{
    if n >= 10 {
        push_digits(s, n / 10);
    }
    let d: u32 = n % 10;
    let c: char = if d == 0 {
        '0'
    } else if d == 1 {
        '1'
    } else if d == 2 {
        '2'
    } else if d == 3 {
        '3'
    } else if d == 4 {
        '4'
    } else if d == 5 {
        '5'
    } else if d == 6 {
        '6'
    } else if d == 7 {
        '7'
    } else if d == 8 {
        '8'
    } else {
        '9'
    };
    assert(c == digit_char(d as int));
    push_char(s, c);
}

/// Appends the decimal text of `n`, as `Display` writes an `i32`.
pub fn push_decimal(s: &mut String, n: i32)
    ensures
        final(s)@ == old(s)@ + decimal(n as int),
{
    if n < 0 {
        push_char(s, '-');
        let m: u32 = if n == i32::MIN {
            2147483648u32
        } else {
            (-n) as u32
        };
        push_digits(s, m);
        assert(seq!['-'] + digits_of((-n) as nat) == seq!['-'].add(digits_of(m as nat)));
    } else {
        push_digits(s, n as u32);
    }
}

/// Reads an `i32` from a sequence of characters, as `i32::from_str` does.
pub fn parse_i32_chars(cs: &Vec<char>) -> (r: Option<i32>)
    ensures
        r == parse_i32_spec(cs@),
{
    let len = cs.len();
    if len == 0 {
        return None;
    }
    let negative = cs[0] == '-';
    let start: usize = if cs[0] == '-' || cs[0] == '+' {
        1
    } else {
        0
    };
    let ghost ds = if cs@[0] == '-' || cs@[0] == '+' {
        cs@.drop_first()
    } else {
        cs@
    };
    assert(ds == cs@.subrange(start as int, len as int));
    if start == len {
        assert(ds.len() == 0);
        return None;
    }
    // The magnitude read so far, held at `cap` once it passes `cap`.
    let cap: i64 = 2147483649;
    let mut acc: i64 = 0;
    let mut i: usize = start;
    while i < len
        invariant
            start <= i <= len,
            len == cs@.len(),
            ds == cs@.subrange(start as int, len as int),
            len > 0,
            ds == (if cs@[0] == '-' || cs@[0] == '+' {
                cs@.drop_first()
            } else {
                cs@
            }),
            all_digits(cs@.subrange(start as int, i as int)),
            0 <= acc <= cap,
            cap == 2147483649,
            acc == (if digits_value(cs@.subrange(start as int, i as int)) < cap {
                digits_value(cs@.subrange(start as int, i as int))
            } else {
                cap as int
            }),
        decreases len - i,
    {
        let c = cs[i];
        if !('0' <= c && c <= '9') {
            assert(ds[i - start] == c);
            return None;
        }
        let ghost prefix = cs@.subrange(start as int, i as int);
        assert(cs@.subrange(start as int, i + 1) == prefix.push(c));
        assert(prefix.push(c).drop_last() == prefix);
        proof {
            lemma_digits_value_grows(prefix, c);
        }
        let d: i64 = (c as u32 - 48) as i64;
        assert(d == digit_value(c));
        if acc < cap {
            let next: i64 = acc * 10 + d;
            acc = if next < cap {
                next
            } else {
                cap
            };
        }
        assert(all_digits(cs@.subrange(start as int, i + 1))) by {
            assert forall|k: int| 0 <= k < cs@.subrange(start as int, i + 1).len() implies is_digit(
                #[trigger] cs@.subrange(start as int, i + 1)[k],
            ) by {
                if k < prefix.len() {
                    assert(cs@.subrange(start as int, i + 1)[k] == prefix[k]);
                }
            }
        }
        i = i + 1;
    }
    assert(cs@.subrange(start as int, len as int) == ds);
    if negative {
        if acc > 2147483648 {
            None
        } else {
            Some((-acc) as i32)
        }
    } else {
        if acc > 2147483647 {
            None
        } else {
            Some(acc as i32)
        }
    }
}

} // verus!
