//! The public leakage parameter gamma.
//!
//! Gamma is carried as an arbitrary-precision decimal literal in ASCII, such
//! as `0.41750056279375136`, and must lie in `(0, 1]`.  For use inside the
//! circuits it is scaled to a fixed-width byte string by an external
//! high-precision routine whose digit output this module converts, with the
//! conversion itself verified.

use core::str::FromStr;
use vstd::prelude::*;

verus! {

use crate::bytes::{
    le_bytes_le,
    le_bytes_lt,
    le_nat,
    lemma_le_nat_nonzero,
    lemma_le_nat_split,
    lemma_le_nat_zeros,
    mul_add_small,
    pad_bytes,
    pow256,
    sub_vec,
    zero_bytes,
};
use crate::error::GenericError;

/// The ASCII code of a decimal digit.
pub open spec fn is_ascii_digit(b: u8) -> bool {
    48 <= b <= 57
}

/// How many `.` characters a literal holds.
pub open spec fn count_dots(s: Seq<u8>) -> nat
    decreases s.len(),
{
    if s.len() == 0 {
        0
    } else {
        count_dots(s.drop_last()) + (if s.last() == 46 {
            1 as nat
        } else {
            0 as nat
        })
    }
}

/// A plain decimal literal: digits with at most one dot, and at least one
/// digit.
pub open spec fn dec_format_ok(s: Seq<u8>) -> bool {
    &&& s.len() > 0
    &&& forall|i: int| 0 <= i < s.len() ==> is_ascii_digit(#[trigger] s[i]) || s[i] == 46
    &&& count_dots(s) <= 1
    &&& s.len() > count_dots(s)
}

/// The digit values of a literal, dot removed, most significant first.
pub open spec fn strip_dot(s: Seq<u8>) -> Seq<u8>
    decreases s.len(),
{
    if s.len() == 0 {
        Seq::empty()
    } else if s.last() == 46 {
        strip_dot(s.drop_last())
    } else {
        strip_dot(s.drop_last()).push((s.last() - 48) as u8)
    }
}

/// The value of a digit sequence, most significant digit first.
pub open spec fn dec_value(d: Seq<u8>) -> nat
    decreases d.len(),
{
    if d.len() == 0 {
        0
    } else {
        (dec_value(d.drop_last()) * 10 + d.last()) as nat
    }
}

/// How many digits follow the dot.
pub open spec fn frac_len(s: Seq<u8>) -> nat
    decreases s.len(),
{
    if s.len() == 0 {
        0
    } else if s.last() == 46 {
        0
    } else if count_dots(s) == 0 {
        0
    } else {
        frac_len(s.drop_last()) + 1
    }
}

/// Ten raised to the power `n`.
pub open spec fn pow10(n: nat) -> nat
    decreases n,
{
    if n == 0 {
        1
    } else {
        10 * pow10((n - 1) as nat)
    }
}

/// A gamma literal in range: a plain decimal whose value lies in `(0, 1]`,
/// that is, whose digits `D` with `d` of them fractional satisfy
/// `0 < D <= 10^d`.
pub open spec fn gamma_in_range(s: Seq<u8>) -> bool {
    &&& dec_format_ok(s)
    &&& 0 < dec_value(strip_dot(s))
    &&& dec_value(strip_dot(s)) <= pow10(frac_len(s))
}

/// Check that a gamma literal is a plain decimal in `(0, 1]`.
pub fn validate_gamma(s: &Vec<u8>) -> (r: bool)
    ensures
        r == gamma_in_range(s@),
{
    if s.len() == 0 {
        return false;
    }
    // one pass for the format, the digit value and the fraction length
    let mut i: usize = 0;
    let mut seen_dot = false;
    let mut frac: usize = 0;
    let mut digits: Vec<u8> = Vec::new();
    while i < s.len()
        invariant
            i <= s@.len(),
            forall|t: int| 0 <= t < i ==> is_ascii_digit(#[trigger] s@[t]) || s@[t] == 46,
            seen_dot == (count_dots(s@.take(i as int)) == 1),
            count_dots(s@.take(i as int)) <= 1,
            digits@ == strip_dot(s@.take(i as int)),
            forall|j: int| 0 <= j < digits@.len() ==> #[trigger] digits@[j] <= 9,
            digits@.len() <= i,
            frac == frac_len(s@.take(i as int)),
            frac <= i,
        decreases s@.len() - i,
    {
        let b = s[i];
        proof {
            assert(s@.take(i + 1).drop_last() =~= s@.take(i as int));
            assert(s@.take(i + 1).last() == s@[i as int]);
        }
        if b == 46 {
            if seen_dot {
                proof {
                    lemma_count_dots_prefix(s@, i + 1);
                }
                return false;
            }
            seen_dot = true;
            frac = 0;
        } else if b >= 48 && b <= 57 {
            digits.push(b - 48);
            if seen_dot {
                frac = frac + 1;
            }
        } else {
            return false;
        }
        i = i + 1;
    }
    proof {
        assert(s@.take(i as int) =~= s@);
    }
    if digits.len() == 0 {
        proof {
            lemma_strip_dot_len(s@);
        }
        return false;
    }
    // D as a byte string, by Horner's rule
    let mut acc: Vec<u8> = Vec::new();
    let mut t: usize = 0;
    while t < digits.len()
        invariant
            t <= digits@.len(),
            forall|j: int| 0 <= j < digits@.len() ==> digits@[j] <= 9,
            le_nat(acc@) == dec_value(digits@.take(t as int)),
        decreases digits@.len() - t,
    {
        proof {
            assert(digits@.take(t + 1).drop_last() =~= digits@.take(t as int));
            assert(digits@.take(t + 1).last() == digits@[t as int]);
        }
        acc = mul_add_small(&acc, 10, digits[t] as u64);
        t = t + 1;
    }
    proof {
        assert(digits@.take(t as int) =~= digits@);
    }
    // 10^d as a byte string
    let mut p: Vec<u8> = Vec::new();
    p.push(1u8);
    proof {
        assert(p@ =~= Seq::<u8>::empty().push(1u8));
        crate::bytes::lemma_le_nat_snoc(Seq::<u8>::empty(), 1u8);
        assert(le_nat(p@) == 1);
        lemma_strip_dot_len(s@);
    }
    let mut f: usize = 0;
    while f < frac
        invariant
            f <= frac,
            le_nat(p@) == pow10(f as nat),
        decreases frac - f,
    {
        p = mul_add_small(&p, 10, 0);
        f = f + 1;
    }
    // 0 < D and D <= 10^d
    let n = if acc.len() > p.len() {
        acc.len()
    } else {
        p.len()
    };
    let ap = pad_bytes(&acc, n);
    let pp = pad_bytes(&p, n);
    let z = zero_bytes(n);
    let positive = le_bytes_lt(&z, &ap);
    let bounded = le_bytes_le(&ap, &pp);
    positive && bounded
}

/// A prefix holds at most as many dots as the whole literal.
proof fn lemma_count_dots_prefix(s: Seq<u8>, i: int)
    requires
        0 <= i <= s.len(),
    ensures
        count_dots(s.take(i)) <= count_dots(s),
    decreases s.len() - i,
{
    if i < s.len() {
        lemma_count_dots_prefix(s, i + 1);
        assert(s.take(i + 1).drop_last() =~= s.take(i));
    } else {
        assert(s.take(i) =~= s);
    }
}

/// The digits and the dots together make up the whole literal.
proof fn lemma_strip_dot_len(s: Seq<u8>)
    ensures
        strip_dot(s).len() + count_dots(s) == s.len(),
    decreases s.len(),
{
    if s.len() > 0 {
        lemma_strip_dot_len(s.drop_last());
    }
}

/// The decimal digits of `round_down(gamma * (2^(8*width) - 1))`, most
/// significant first, as the external high-precision routine produces them.
pub uninterp spec fn gamma_scaled_digits(gamma: Seq<u8>, width: nat) -> Seq<u8>;

/// Whether the external scaling routine yields digits for this literal and
/// width at all; like the digits themselves, this depends on the two
/// arguments alone.
pub uninterp spec fn gamma_scales(gamma: Seq<u8>, width: nat) -> bool;

/// Relies on astro_float's `BigFloat`: parsing a decimal literal, scaling by
/// `2^(8*width) - 1` with truncation at `16*width` bits of precision, and
/// decimal digit extraction depend on the literal and the width alone —
/// whether they succeed as much as what they yield.
#[verifier::external_body]
fn scaled_gamma_digits(gamma: &Vec<u8>, width: usize) -> (r: Option<Vec<u8>>)
    requires
        1 <= width <= 4096,
    ensures
        (r is Some) == gamma_scales(gamma@, width as nat),
        r matches Some(d) ==> d@ == gamma_scaled_digits(gamma@, width as nat) && forall|i: int|
            0 <= i < d@.len() ==> d@[i] < 10,
{
    let s = core::str::from_utf8(gamma.as_slice()).ok()?;
    let mut g = astro_float::BigFloat::from_str(s).ok()?;
    let precision = width * 16;
    g.set_precision(precision, astro_float::RoundingMode::Down).ok()?;
    let scale = astro_float::BigFloat::from_u8(2, precision)
        .powi(width * 8, precision, astro_float::RoundingMode::Down)
        .sub_full_prec(&astro_float::BigFloat::from_u8(1, precision));
    let scaled = g.mul_full_prec(&scale).int();
    let mut cc = astro_float::Consts::new().ok()?;
    let (_, digits, _) = scaled.convert_to_radix(
        astro_float::Radix::Dec,
        astro_float::RoundingMode::None,
        &mut cc,
    ).ok()?;
    Some(digits)
}

/// Pack decimal digit values into a `width`-byte little-endian string.
/// Fails exactly when the value needs more than `width` bytes.
pub fn digits_to_le_bytes(digits: &Vec<u8>, width: usize) -> (r: Result<Vec<u8>, GenericError>)
    requires
        width >= 1,
        width + 8 <= usize::MAX,
        forall|i: int| 0 <= i < digits@.len() ==> #[trigger] digits@[i] < 10,
    ensures
        match r {
            Ok(b) => {
                &&& b@.len() == width
                &&& le_nat(b@) == dec_value(digits@)
                &&& dec_value(digits@) < pow256(width as nat)
            },
            Err(_) => dec_value(digits@) >= pow256(width as nat),
        },
{
    let mut acc: Vec<u8> = zero_bytes(width);
    let mut t: usize = 0;
    while t < digits.len()
        invariant
            t <= digits@.len(),
            width >= 1,
            width + 8 <= usize::MAX,
            forall|i: int| 0 <= i < digits@.len() ==> #[trigger] digits@[i] < 10,
            acc@.len() == width,
            le_nat(acc@) == dec_value(digits@.take(t as int)),
        decreases digits@.len() - t,
    {
        proof {
            assert(digits@.take(t + 1).drop_last() =~= digits@.take(t as int));
            assert(digits@.take(t + 1).last() == digits@[t as int]);
        }
        let wide = mul_add_small(&acc, 10, digits[t] as u64);
        // the top eight bytes must stay clear for the value to fit
        let mut z: usize = width;
        let mut overflow = false;
        while z < width + 8
            invariant
                width + 8 <= usize::MAX,
                width <= z <= width + 8,
                wide@.len() == width + 8,
                !overflow ==> forall|j: int| width <= j < z ==> wide@[j] == 0,
                overflow ==> exists|j: int| width <= j < z && wide@[j] != 0,
            decreases width + 8 - z,
        {
            if wide[z] != 0 {
                overflow = true;
            }
            z = z + 1;
        }
        if overflow {
            proof {
                let j = choose|j: int| width <= j < width + 8 && wide@[j] != 0;
                lemma_le_nat_split(wide@, width as int);
                assert(wide@.skip(width as int)[j - width] != 0);
                lemma_le_nat_nonzero(wide@.skip(width as int), j - width);
                crate::bytes::lemma_pow256_pos(width as nat);
                assert(pow256(width as nat) * le_nat(wide@.skip(width as int)) >= pow256(
                    width as nat,
                )) by (nonlinear_arith)
                    requires
                        le_nat(wide@.skip(width as int)) >= 1,
                        pow256(width as nat) >= 1,
                ;
                assert(dec_value(digits@.take(t + 1)) >= pow256(width as nat));
                lemma_dec_value_prefix(digits@, t + 1);
            }
            return Err(GenericError::ConversionError);
        }
        let trimmed = sub_vec(&wide, 0, width);
        proof {
            lemma_le_nat_split(wide@, width as int);
            lemma_le_nat_zeros(wide@.skip(width as int));
            assert(trimmed@ =~= wide@.take(width as int));
        }
        acc = trimmed;
        t = t + 1;
    }
    proof {
        assert(digits@.take(t as int) =~= digits@);
        crate::bytes::lemma_le_nat_bound(acc@);
    }
    Ok(acc)
}

/// A digit sequence is worth at least any of its prefixes.
proof fn lemma_dec_value_prefix(d: Seq<u8>, i: int)
    requires
        0 <= i <= d.len(),
    ensures
        dec_value(d.take(i)) <= dec_value(d),
    decreases d.len() - i,
{
    if i < d.len() {
        lemma_dec_value_prefix(d, i + 1);
        assert(d.take(i + 1).drop_last() =~= d.take(i));
        assert(dec_value(d.take(i + 1)) == dec_value(d.take(i)) * 10 + d.take(i + 1).last());
        assert(dec_value(d.take(i)) * 10 >= dec_value(d.take(i))) by (nonlinear_arith)
            requires
                dec_value(d.take(i)) >= 0,
        ;
    } else {
        assert(d.take(i) =~= d);
    }
}

/// The fixed-width byte encoding of a gamma literal, as a function of the
/// literal and the width alone.
pub open spec fn gamma_encoding(gamma: Seq<u8>, width: nat) -> Seq<u8> {
    crate::bytes::nat_to_le_bytes(dec_value(gamma_scaled_digits(gamma, width)), width)
}

/// The scaling routine yields digits for this literal, and their value fits
/// `width` bytes: exactly the condition under which the fixed-width
/// encoding exists.
pub open spec fn gamma_encodes(gamma: Seq<u8>, width: nat) -> bool {
    &&& gamma_scales(gamma, width)
    &&& dec_value(gamma_scaled_digits(gamma, width)) < pow256(width)
}

/// The fixed-width byte encoding of a gamma literal: the scaled decimal
/// digits packed little-endian.  Deterministic: the same literal and width
/// give the same bytes on every call, and the call succeeds exactly when
/// the encoding exists.
pub fn gamma_as_bytes(gamma: &Vec<u8>, width: usize) -> (r: Result<Vec<u8>, GenericError>)
    requires
        1 <= width <= 4096,
    ensures
        match r {
            Ok(b) => gamma_encodes(gamma@, width as nat) && b@ == gamma_encoding(
                gamma@,
                width as nat,
            ) && b@.len() == width,
            Err(_) => !gamma_encodes(gamma@, width as nat),
        },
{
    match scaled_gamma_digits(gamma, width) {
        Some(digits) => {
            let r = digits_to_le_bytes(&digits, width);
            proof {
                if r is Ok {
                    crate::bytes::lemma_nat_to_le_bytes(dec_value(digits@), width as nat);
                    crate::bytes::lemma_le_nat_injective(
                        r->Ok_0@,
                        gamma_encoding(gamma@, width as nat),
                    );
                }
            }
            r
        },
        None => Err(
            GenericError::ParseError("gamma could not be scaled to bytes".to_string()),
        ),
    }
}

} // verus!
