//! Decimal text of the integer telemetry fields, and the shape of a JSON
//! number token. Numeric fields travel on the wire as decimal text; this
//! module says what that text means and converts it to and from the
//! fixed-width integers of the schema.
use vstd::prelude::*;
use vstd::string::StrSliceExecFns;

verus! {

pub open spec fn is_digit(c: char) -> bool {
    48 <= c as int <= 57
}

pub open spec fn digit_val(c: char) -> nat {
    (c as int - 48) as nat
}

pub open spec fn all_digits(s: Seq<char>) -> bool {
    forall|i: int| 0 <= i < s.len() ==> is_digit(#[trigger] s[i])
}

/// Value of a sequence of decimal digits, most significant first.
pub open spec fn dec_val(s: Seq<char>) -> nat
    decreases s.len(),
{
    if s.len() == 0 {
        0
    } else {
        dec_val(s.drop_last()) * 10 + digit_val(s.last())
    }
}

pub open spec fn digit_char(d: nat) -> char {
    if d == 0 {
        '0'
    } else if d == 1 {
        '1'
    } else if d == 2 {
        '2'
    } else if d == 3 {
        '3'
    } else if d == 4 {
        '4'
    } else if d == 5 {
        '5'
    } else if d == 6 {
        '6'
    } else if d == 7 {
        '7'
    } else if d == 8 {
        '8'
    } else {
        '9'
    }
}

/// Canonical decimal text of a natural number: no sign, no leading zero.
pub open spec fn dec_text(n: nat) -> Seq<char>
    decreases n,
{
    if n < 10 {
        seq![digit_char(n)]
    } else {
        dec_text(n / 10).push(digit_char(n % 10))
    }
}

/// Canonical decimal text of a (possibly negative) integer.
pub open spec fn dec_text_int(n: int) -> Seq<char> {
    if n >= 0 {
        dec_text(n as nat)
    } else {
        seq!['-'] + dec_text((-n) as nat)
    }
}

/// The whole text is decimal digits whose value fits in a `u64`.
pub open spec fn parse_u64_text(s: Seq<char>) -> Option<u64> {
    if s.len() > 0 && all_digits(s) && dec_val(s) <= u64::MAX {
        Some(dec_val(s) as u64)
    } else {
        None
    }
}

pub open spec fn parse_u32_text(s: Seq<char>) -> Option<u32> {
    match parse_u64_text(s) {
        Some(n) => if n <= u32::MAX { Some(n as u32) } else { None },
        None => None,
    }
}

pub open spec fn parse_u16_text(s: Seq<char>) -> Option<u16> {
    match parse_u64_text(s) {
        Some(n) => if n <= u16::MAX { Some(n as u16) } else { None },
        None => None,
    }
}

pub open spec fn parse_u8_text(s: Seq<char>) -> Option<u8> {
    match parse_u64_text(s) {
        Some(n) => if n <= u8::MAX { Some(n as u8) } else { None },
        None => None,
    }
}

/// An optional minus sign followed by digits, with the value in `i16` range.
pub open spec fn parse_i16_text(s: Seq<char>) -> Option<i16> {
    if s.len() > 0 && s[0] == '-' {
        let t = s.subrange(1, s.len() as int);
        if t.len() > 0 && all_digits(t) && dec_val(t) <= 0x8000 {
            Some((-(dec_val(t) as int)) as i16)
        } else {
            None
        }
    } else {
        match parse_u64_text(s) {
            Some(n) => if n <= 0x7fff { Some(n as i16) } else { None },
            None => None,
        }
    }
}

/// The integer part of a JSON number: digits, and no leading zero unless
/// the part is exactly "0".
pub open spec fn is_int_part(s: Seq<char>) -> bool {
    s.len() > 0 && all_digits(s) && (s[0] != '0' || s.len() == 1)
}

/// An optional fraction part: empty, or '.' followed by digits.
pub open spec fn is_frac_part(s: Seq<char>) -> bool {
    s.len() == 0 || (s.len() >= 2 && s[0] == '.' && all_digits(s.subrange(1, s.len() as int)))
}

/// An optional exponent part: empty, or 'e'/'E', an optional sign, digits.
pub open spec fn is_exp_part(s: Seq<char>) -> bool {
    s.len() == 0 || (s.len() >= 2 && (s[0] == 'e' || s[0] == 'E') && {
        let t = s.subrange(1, s.len() as int);
        (t.len() > 0 && all_digits(t)) || (t.len() >= 2 && (t[0] == '+' || t[0] == '-')
            && all_digits(t.subrange(1, t.len() as int)))
    })
}

/// The unsigned body of a JSON number: an integer part, an optional
/// fraction, an optional exponent.
pub open spec fn is_unsigned_number_body(s: Seq<char>) -> bool {
    exists|i: int, j: int|
        0 < i <= j <= s.len() && is_int_part(#[trigger] s.subrange(0, i)) && is_frac_part(
            #[trigger] s.subrange(i, j),
        ) && is_exp_part(s.subrange(j, s.len() as int))
}

/// A well-formed JSON number token: an optional minus sign, an integer
/// part, an optional fraction, an optional exponent. The token "-0" is
/// excluded: the wire library canonicalizes it to "0", so it cannot pass
/// through unchanged.
pub open spec fn is_number_token(s: Seq<char>) -> bool {
    &&& if s.len() > 0 && s[0] == '-' {
        is_unsigned_number_body(s.subrange(1, s.len() as int))
    } else {
        is_unsigned_number_body(s)
    }
    &&& s != seq!['-', '0']
}

/// An exponent part in the wire library's normalized spelling: empty, or a
/// lowercase 'e', an explicit sign, digits. The library's number scanner
/// rewrites every exponent into this form as it reads.
pub open spec fn is_normal_exp_part(s: Seq<char>) -> bool {
    s.len() == 0 || (s.len() >= 3 && s[0] == 'e' && (s[1] == '+' || s[1] == '-') && all_digits(
        s.subrange(2, s.len() as int),
    ))
}

pub open spec fn is_normal_unsigned_body(s: Seq<char>) -> bool {
    exists|i: int, j: int|
        0 < i <= j <= s.len() && is_int_part(#[trigger] s.subrange(0, i)) && is_frac_part(
            #[trigger] s.subrange(i, j),
        ) && is_normal_exp_part(s.subrange(j, s.len() as int))
}

/// A number token in the wire library's normalized form: a well-formed
/// JSON number whose exponent, if any, is written as a lowercase 'e' with
/// an explicit sign, and which is not the text "-0". These are exactly
/// the tokens the library's reader and writer pass through unchanged;
/// every token read off the wire already has this form.
pub open spec fn is_normal_number_token(s: Seq<char>) -> bool {
    &&& if s.len() > 0 && s[0] == '-' {
        is_normal_unsigned_body(s.subrange(1, s.len() as int))
    } else {
        is_normal_unsigned_body(s)
    }
    &&& s != seq!['-', '0']
}

/// Canonical decimal text is a number token in normalized form: it has no
/// fraction and no exponent, and is never "-0".
pub proof fn lemma_dec_text_int_normal(n: int)
    requires
        i64::MIN <= n <= u64::MAX,
    ensures
        is_normal_number_token(dec_text_int(n)),
{
    let s = dec_text_int(n);
    if n >= 0 {
        lemma_dec_text(n as nat);
        assert(is_digit(s[0]));
        assert(s[0] != '-');
        assert(s.subrange(0, s.len() as int) =~= s);
        assert(is_int_part(s.subrange(0, s.len() as int)));
        assert(is_frac_part(s.subrange(s.len() as int, s.len() as int)));
        assert(is_normal_exp_part(s.subrange(s.len() as int, s.len() as int)));
        assert(s != seq!['-', '0']);
    } else {
        lemma_dec_text((-n) as nat);
        let body = s.subrange(1, s.len() as int);
        assert(body =~= dec_text((-n) as nat));
        assert(body.subrange(0, body.len() as int) =~= body);
        assert(is_int_part(body.subrange(0, body.len() as int)));
        assert(is_frac_part(body.subrange(body.len() as int, body.len() as int)));
        assert(is_normal_exp_part(body.subrange(body.len() as int, body.len() as int)));
        if s =~= seq!['-', '0'] {
            assert(body =~= seq!['0']);
            assert(dec_val(seq!['0']) == 0) by {
                let z = seq!['0'];
                assert(z.drop_last() =~= Seq::<char>::empty());
                assert(dec_val(Seq::<char>::empty()) == 0);
                assert(dec_val(z) == dec_val(z.drop_last()) * 10 + digit_val(z.last()));
                assert(z.last() == '0');
            }
            assert(false);
        }
        assert(s != seq!['-', '0']);
    }
}

/// The canonical decimal text of `n` is made of digits and reads back as `n`.
pub proof fn lemma_dec_text(n: nat)
    ensures
        dec_text(n).len() >= 1,
        all_digits(dec_text(n)),
        dec_val(dec_text(n)) == n,
        dec_text(n)[0] != '0' || dec_text(n) =~= seq!['0'],
    decreases n,
{
    assert(dec_val(Seq::<char>::empty()) == 0);
    if n < 10 {
        let s = dec_text(n);
        assert(s =~= seq![digit_char(n)]);
        assert(s.drop_last() =~= Seq::<char>::empty());
        assert(dec_val(s) == dec_val(s.drop_last()) * 10 + digit_val(s.last()));
        assert(s.last() == digit_char(n));
        assert(digit_val(digit_char(n)) == n);
        assert(n == 0 ==> s =~= seq!['0']);
        assert(n != 0 ==> digit_char(n) != '0');
    } else {
        lemma_dec_text(n / 10);
        let p = dec_text(n / 10);
        let s = dec_text(n);
        assert(s =~= p.push(digit_char(n % 10)));
        assert(s.drop_last() =~= p);
        assert(s.last() == digit_char(n % 10));
        assert(digit_val(digit_char(n % 10)) == n % 10);
        assert(dec_val(s) == dec_val(p) * 10 + digit_val(digit_char(n % 10)));
        vstd::arithmetic::div_mod::lemma_fundamental_div_mod(n as int, 10);
        assert(s[0] == p[0]);
        assert(n / 10 >= 1);
        if p =~= seq!['0'] {
            assert(dec_val(p) == n / 10);
            assert(p.drop_last() =~= Seq::<char>::empty());
            assert(dec_val(p) == dec_val(p.drop_last()) * 10 + digit_val(p.last()));
            assert(false);
        }
        assert(p[0] != '0');
        assert(forall|i: int| 0 <= i < s.len() ==> is_digit(#[trigger] s[i]));
    }
}

/// The value of a prefix never exceeds the value of a longer prefix.
proof fn lemma_dec_val_prefix(s: Seq<char>, i: int, j: int)
    requires
        0 <= i <= j <= s.len(),
    ensures
        dec_val(s.subrange(0, i)) <= dec_val(s.subrange(0, j)),
    decreases j - i,
{
    if i < j {
        lemma_dec_val_prefix(s, i, j - 1);
        let a = s.subrange(0, j - 1);
        let b = s.subrange(0, j);
        assert(b.drop_last() =~= a);
        assert(dec_val(b) == dec_val(a) * 10 + digit_val(b.last()));
        assert(dec_val(a) * 10 >= dec_val(a)) by (nonlinear_arith);
    }
}

/// Reads decimal digit text as a `u64`, exactly when the whole text is
/// digits and the value fits.
pub fn parse_u64_str(s: &str) -> (r: Option<u64>)
    ensures
        r == parse_u64_text(s@),
{
    let n = s.unicode_len();
    if n == 0 {
        return None;
    }
    let mut v: u64 = 0;
    let mut i: usize = 0;
    while i < n
        invariant
            0 < n == s@.len(),
            0 <= i <= n,
            all_digits(s@.subrange(0, i as int)),
            v == dec_val(s@.subrange(0, i as int)),
        decreases n - i,
    {
        let c = s.get_char(i);
        let u = c as u32;
        if u < 48 || u > 57 {
            assert(!is_digit(s@[i as int]));
            return None;
        }
        let d = (u - 48) as u64;
        if v > (u64::MAX - d) / 10 {
            proof {
                let p = s@.subrange(0, i as int);
                let q = s@.subrange(0, i as int + 1);
                assert(q.drop_last() =~= p);
                assert(dec_val(q) == dec_val(p) * 10 + digit_val(q.last()));
                assert(digit_val(q.last()) == d);
                assert(v >= (u64::MAX - d) / 10 + 1);
                assert(v * 10 + d > u64::MAX) by (nonlinear_arith)
                    requires
                        v >= (u64::MAX - d) / 10 + 1 && d <= 9,
                ;
                lemma_dec_val_prefix(s@, i as int + 1, s@.len() as int);
                assert(s@.subrange(0, s@.len() as int) =~= s@);
                assert(dec_val(s@) > u64::MAX);
            }
            return None;
        }
        proof {
            assert(v * 10 + d <= u64::MAX) by (nonlinear_arith)
                requires
                    v <= (u64::MAX - d) / 10 && d <= 9,
            ;
            let p = s@.subrange(0, i as int);
            let q = s@.subrange(0, i as int + 1);
            assert(q.drop_last() =~= p);
            assert(q.last() == s@[i as int]);
            assert(is_digit(s@[i as int]));
            assert(digit_val(q.last()) == d);
            assert(all_digits(q));
        }
        v = v * 10 + d;
        i = i + 1;
    }
    proof {
        assert(s@.subrange(0, n as int) =~= s@);
    }
    Some(v)
}

pub fn parse_u32_str(s: &str) -> (r: Option<u32>)
    ensures
        r == parse_u32_text(s@),
{
    match parse_u64_str(s) {
        Some(n) => if n <= u32::MAX as u64 {
            Some(n as u32)
        } else {
            None
        },
        None => None,
    }
}

pub fn parse_u16_str(s: &str) -> (r: Option<u16>)
    ensures
        r == parse_u16_text(s@),
{
    match parse_u64_str(s) {
        Some(n) => if n <= u16::MAX as u64 {
            Some(n as u16)
        } else {
            None
        },
        None => None,
    }
}

pub fn parse_u8_str(s: &str) -> (r: Option<u8>)
    ensures
        r == parse_u8_text(s@),
{
    match parse_u64_str(s) {
        Some(n) => if n <= u8::MAX as u64 {
            Some(n as u8)
        } else {
            None
        },
        None => None,
    }
}

pub fn parse_i16_str(s: &str) -> (r: Option<i16>)
    ensures
        r == parse_i16_text(s@),
{
    let n = s.unicode_len();
    if n > 0 && s.get_char(0) == '-' {
        let t = s.substring_char(1, n);
        match parse_u64_str(t) {
            Some(v) => {
                if v > 0x8000 {
                    None
                } else if v == 0x8000 {
                    Some(i16::MIN)
                } else {
                    Some(0 - (v as i16))
                }
            },
            None => None,
        }
    } else {
        match parse_u64_str(s) {
            Some(v) => if v <= 0x7fff {
                Some(v as i16)
            } else {
                None
            },
            None => None,
        }
    }
}

} // verus!
