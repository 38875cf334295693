//! Decimal text: rendering an `i64` as its decimal string and parsing a
//! decimal string back to an `i64`, plus plain string comparison.

use vstd::prelude::*;

verus! {

/// The ten ASCII decimal digits.
pub open spec fn is_dec_digit(c: char) -> bool {
    '0' <= c && c <= '9'
}

/// Numeric value of a decimal digit character.
pub open spec fn digit_val(c: char) -> int {
    c as int - '0' as int
}

/// The digit character for a value in 0..=9.
pub open spec fn digit_char(d: int) -> char {
    if d == 0 {
        '0'
    } else if d == 1 {
        '1'
    } else if d == 2 {
        '2'
    } else if d == 3 {
        '3'
    } else if d == 4 {
        '4'
    } else if d == 5 {
        '5'
    } else if d == 6 {
        '6'
    } else if d == 7 {
        '7'
    } else if d == 8 {
        '8'
    } else {
        '9'
    }
}

/// Decimal digit string of a nonnegative integer, most significant digit first.
pub open spec fn dec_digits(n: int) -> Seq<char>
    decreases n,
{
    if n < 10 {
        seq![digit_char(n)]
    } else {
        dec_digits(n / 10).push(digit_char(n % 10))
    }
}

/// Decimal rendering of a signed integer, as `i64` formatting produces it.
pub open spec fn i64_dec_str(n: int) -> Seq<char> {
    if n < 0 {
        seq!['-'] + dec_digits(-n)
    } else {
        dec_digits(n)
    }
}

/// Value of a digit string, most significant digit first.
pub open spec fn digits_val(s: Seq<char>) -> int
    decreases s.len(),
{
    if s.len() == 0 {
        0
    } else {
        digits_val(s.drop_last()) * 10 + digit_val(s.last())
    }
}

pub open spec fn all_dec_digits(s: Seq<char>) -> bool {
    forall|i: int| 0 <= i < s.len() ==> is_dec_digit(s[i])
}

/// What `i64` decimal parsing accepts: an optional sign followed by one or
/// more decimal digits, denoting a value that fits in an `i64`.
pub open spec fn parse_i64_spec(s: Seq<char>) -> Option<int> {
    let neg = s.len() > 0 && s[0] == '-';
    let ds = if s.len() > 0 && (s[0] == '-' || s[0] == '+') {
        s.skip(1)
    } else {
        s
    };
    if ds.len() > 0 && all_dec_digits(ds) {
        let v = if neg {
            -digits_val(ds)
        } else {
            digits_val(ds)
        };
        if i64::MIN <= v <= i64::MAX {
            Some(v)
        } else {
            None
        }
    } else {
        None
    }
}

proof fn lemma_digits_val_nonneg(s: Seq<char>)
    requires
        all_dec_digits(s),
    ensures
        digits_val(s) >= 0,
    decreases s.len(),
{
    if s.len() > 0 {
        assert(all_dec_digits(s.drop_last()));
        lemma_digits_val_nonneg(s.drop_last());
    }
}

/// A digit string is worth at least any of its prefixes.
proof fn lemma_digits_val_prefix_le(s: Seq<char>, i: int)
    requires
        all_dec_digits(s),
        0 <= i <= s.len(),
    ensures
        digits_val(s.take(i)) <= digits_val(s),
    decreases s.len() - i,
{
    if i == s.len() {
        assert(s.take(i) =~= s);
    } else {
        lemma_digits_val_prefix_le(s, i + 1);
        assert(s.take(i + 1).drop_last() =~= s.take(i));
        assert(all_dec_digits(s.take(i)));
        lemma_digits_val_nonneg(s.take(i));
        assert(digits_val(s.take(i + 1)) == digits_val(s.take(i)) * 10 + digit_val(
            s.take(i + 1).last(),
        ));
    }
}

/// Parse a decimal string exactly as `i64` parsing does: an optional sign,
/// then one or more digits, rejected when any other character appears or the
/// value does not fit.
pub fn parse_i64(s: &str) -> (r: Option<i64>)
    ensures
        r is Some <==> parse_i64_spec(s@) is Some,
        r is Some ==> r->0 as int == parse_i64_spec(s@)->0,
{
    let n = s.unicode_len();
    let ghost whole = s@;
    let mut start: usize = 0;
    let mut neg = false;
    if n > 0 {
        let c0 = s.get_char(0);
        if c0 == '-' {
            neg = true;
            start = 1;
        } else if c0 == '+' {
            start = 1;
        }
    }
    let ghost ds = if start == 1 { whole.skip(1) } else { whole };
    if n == start {
        return None;
    }
    // Accumulate as a nonpositive value so that i64::MIN is representable.
    let mut acc: i64 = 0;
    let mut i: usize = start;
    while i < n
        invariant
            start <= i <= n,
            start <= 1,
            whole == s@,
            n == whole.len(),
            neg == (whole.len() > 0 && whole[0] == '-'),
            (start == 1) == (whole.len() > 0 && (whole[0] == '-' || whole[0] == '+')),
            ds == (if start == 1 { whole.skip(1) } else { whole }),
            n - start == ds.len(),
            all_dec_digits(ds.take(i - start)),
            acc <= 0,
            acc as int == -digits_val(ds.take(i - start)),
        decreases n - i,
    {
        let c = s.get_char(i);
        if !('0' <= c && c <= '9') {
            assert(ds[i - start] == c);
            assert(!all_dec_digits(ds));
            return None;
        }
        let d: i64 = (c as u32 as i64) - ('0' as u32 as i64);
        assert(d == digit_val(c));
        let ghost prev = ds.take(i - start);
        let ghost cur = ds.take(i + 1 - start);
        proof {
            assert(ds[i - start] == c);
            assert(cur.drop_last() =~= prev);
            assert(cur.last() == c);
            assert(all_dec_digits(cur));
        }
        let shifted = match acc.checked_mul(10) {
            Some(v) => v,
            None => {
                proof {
                    lemma_digits_val_nonneg(prev);
                    assert(digits_val(cur) == digits_val(prev) * 10 + digit_val(c));
                    if all_dec_digits(ds) {
                        lemma_digits_val_prefix_le(ds, i + 1 - start);
                        assert(digits_val(ds) >= digits_val(cur));
                    }
                }
                return None;
            },
        };
        let next = match shifted.checked_sub(d) {
            Some(v) => v,
            None => {
                proof {
                    lemma_digits_val_nonneg(prev);
                    assert(digits_val(cur) == digits_val(prev) * 10 + digit_val(c));
                    if all_dec_digits(ds) {
                        lemma_digits_val_prefix_le(ds, i + 1 - start);
                        assert(digits_val(ds) >= digits_val(cur));
                    }
                }
                return None;
            },
        };
        proof {
            assert(digits_val(cur) == digits_val(prev) * 10 + digit_val(c));
        }
        acc = next;
        i = i + 1;
    }
    proof {
        assert(ds.take(n - start) =~= ds);
        lemma_digits_val_nonneg(ds);
    }
    if neg {
        Some(acc)
    } else {
        if acc == i64::MIN {
            None
        } else {
            Some(-acc)
        }
    }
}

/// Render a signed integer as its decimal string, as `i64` formatting does.
pub fn i64_to_string(n: i64) -> (r: String)
    ensures
        r@ == i64_dec_str(n as int),
{
    let neg = n < 0;
    let mag: u64 = if n == i64::MIN {
        9223372036854775808u64
    } else if n < 0 {
        (-n) as u64
    } else {
        n as u64
    };
    let mut digits: Vec<char> = Vec::new();
    let mut m: u64 = mag;
    loop
        invariant_except_break
            (digits@ =~= Seq::<char>::empty() && m == mag) || (m > 0 && dec_digits(mag as int)
                =~= dec_digits(m as int) + digits@),
        ensures
            digits@ == dec_digits(mag as int),
        decreases m,
    {
        let ghost m0 = m as int;
        let ghost digits0 = digits@;
        let d = m % 10;
        let c = digit_char_exec(d as u8);
        digits.insert(0, c);
        m = m / 10;
        proof {
            assert(digits@ =~= seq![c] + digits0);
            if m0 < 10 {
                assert(m0 % 10 == m0);
                assert(dec_digits(m0) =~= seq![digit_char(m0)]);
            } else {
                assert(dec_digits(m0) == dec_digits(m0 / 10).push(digit_char(m0 % 10)));
                assert(dec_digits(m0) =~= dec_digits(m0 / 10) + seq![digit_char(m0 % 10)]);
            }
            if digits0 =~= Seq::<char>::empty() && m0 == mag {
                if m == 0 {
                    assert(dec_digits(mag as int) =~= digits@);
                } else {
                    assert(dec_digits(mag as int) =~= dec_digits(m as int) + digits@);
                }
            } else {
                if m == 0 {
                    assert(dec_digits(mag as int) =~= digits@);
                } else {
                    assert(dec_digits(mag as int) =~= dec_digits(m as int) + digits@);
                }
            }
        }
        if m == 0 {
            break;
        }
    }
    let mut out = String::new();
    if neg {
        out.append("-");
        proof {
            reveal_strlit("-");
        }
    }
    let s = chars_to_string(digits);
    out.append(s.as_str());
    proof {
        if neg {
            assert(out@ =~= seq!['-'] + dec_digits(mag as int));
            assert(i64_dec_str(n as int) == seq!['-'] + dec_digits(-(n as int)));
            assert(mag as int == -(n as int));
        } else {
            assert(out@ =~= dec_digits(mag as int));
        }
    }
    out
}

/// The digit character for a value in 0..=9, executable form.
fn digit_char_exec(d: u8) -> (c: char)
    requires
        d < 10,
    ensures
        c == digit_char(d as int),
{
    if d == 0 {
        '0'
    } else if d == 1 {
        '1'
    } else if d == 2 {
        '2'
    } else if d == 3 {
        '3'
    } else if d == 4 {
        '4'
    } else if d == 5 {
        '5'
    } else if d == 6 {
        '6'
    } else if d == 7 {
        '7'
    } else if d == 8 {
        '8'
    } else {
        '9'
    }
}

/// Relies on `String::from_iter` over `char`: the collected string holds
/// exactly the characters of the vector, in order.
#[verifier::external_body]
pub(crate) fn chars_to_string(v: Vec<char>) -> (s: String)
    ensures
        s@ == v@,
{
    String::from_iter(v)
}

/// Character-for-character string equality.
pub fn str_eq(a: &str, b: &str) -> (r: bool)
    ensures
        r == (a@ == b@),
{
    let na = a.unicode_len();
    let nb = b.unicode_len();
    if na != nb {
        return false;
    }
    let mut i: usize = 0;
    while i < na
        invariant
            0 <= i <= na,
            na == a@.len(),
            na == b@.len(),
            forall|j: int| 0 <= j < i ==> a@[j] == b@[j],
        decreases na - i,
    {
        if a.get_char(i) != b.get_char(i) {
            return false;
        }
        i = i + 1;
    }
    proof {
        assert(a@ =~= b@);
    }
    true
}

} // verus!
