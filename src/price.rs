use vstd::prelude::*;

use crate::text::{strip_suffix_all, strip_suffixes, trim_whitespace, trimmed};

verus! {

/// A fixed-point decimal: `mantissa` times ten to the power of `-scale`.
#[derive(Debug, Clone, Copy, PartialEq, Eq, Hash, Structural)]
pub struct Decimal {
    pub mantissa: i128,
    pub scale: i64,
}

/// The integer digits and the scale of the decimal that `s` denotes, or `None`
/// where `s` is no decimal number, as `BigDecimal`'s parser reads it.
pub uninterp spec fn decimal_digits(s: Seq<char>) -> Option<(int, int)>;

/// Relies on `FromStr for BigDecimal` (the bigdecimal crate, as sqlx re-exports
/// it), with `as_bigint_and_exponent` and `TryFrom<&BigInt> for i128` to read the
/// parsed digits and scale back out; `None` where the text does not parse or
/// the digits do not fit an `i128`.
#[verifier::external_body]
fn parse_decimal(s: &str) -> (r: Option<(i128, i64)>)
    ensures
        match decimal_digits(s@) {
            Some((m, e)) => if i128::MIN <= m <= i128::MAX && i64::MIN <= e <= i64::MAX {
                r == Some((m as i128, e as i64))
            } else {
                r is None
            },
            None => r is None,
        },
        s@.len() == 0 ==> r is None,
{
    match s.parse::<sqlx::types::BigDecimal>() {
        Ok(d) => {
            let (m, e) = d.as_bigint_and_exponent();
            i128::try_from(&m).ok().map(|m| (m, e))
        },
        Err(_) => None,
    }
}

/// The price that stands for a missing or unreadable one: 999.99.
pub open spec fn sentinel_price() -> Decimal {
    Decimal { mantissa: 99999, scale: 2 }
}

/// `s` with every decimal comma turned into a decimal point.
pub open spec fn comma_to_point(s: Seq<char>) -> Seq<char> {
    s.map_values(|c: char| if c == ',' { '.' } else { c })
}

/// The currency marker that may trail a price.
pub open spec fn currency_suffix() -> Seq<char> {
    "\u{20ac}"@
}

/// The decimal text of a raw price: surrounding white space and trailing
/// currency markers removed, decimal comma turned into a point.
pub open spec fn price_text(s: Seq<char>) -> Seq<char> {
    comma_to_point(trimmed(strip_suffixes(trimmed(s), currency_suffix())))
}

/// The bound below which a mantissa can be scaled up by a hundred in an `i128`.
pub open spec fn rescale_bound() -> int {
    1000000000000000000000000000000000000
}

/// A parsed decimal brought to two decimal places where that is exact (one or
/// no decimal places were written); other scales are kept as parsed.
pub open spec fn at_two_places(m: int, e: int) -> Decimal {
    if 0 <= e < 2 && -rescale_bound() <= m <= rescale_bound() {
        Decimal { mantissa: (if e == 0 { m * 100 } else { m * 10 }) as i128, scale: 2 }
    } else {
        Decimal { mantissa: m as i128, scale: e as i64 }
    }
}

/// The normalised value of an optional raw price.
pub open spec fn price_value(s: Option<Seq<char>>) -> Decimal {
    match s {
        None => sentinel_price(),
        Some(t) => match decimal_digits(price_text(t)) {
            Some((m, e)) => if i128::MIN <= m <= i128::MAX && i64::MIN <= e <= i64::MAX {
                at_two_places(m, e)
            } else {
                sentinel_price()
            },
            None => sentinel_price(),
        },
    }
}

impl Decimal {
    pub fn new(mantissa: i128, scale: i64) -> (r: Decimal)
        ensures
            r == (Decimal { mantissa, scale }),
    {
        Decimal { mantissa, scale }
    }

    /// The sentinel 999.99.
    pub fn sentinel() -> (r: Decimal)
        ensures
            r == sentinel_price(),
    {
        Decimal { mantissa: 99999, scale: 2 }
    }
}

/// Turns every decimal comma into a decimal point.
pub fn replace_commas(s: &str) -> (r: String)
    ensures
        r@ == comma_to_point(s@),
{
    let n = s.unicode_len();
    let mut out = String::new();
    let mut i: usize = 0;
    while i < n
        invariant
            n == s@.len(),
            i <= n,
            out@ == comma_to_point(s@.take(i as int)),
        decreases n - i,
    {
        let ghost before = out@;
        let c = s.get_char(i);
        if c == ',' {
            proof {
                reveal_strlit(".");
            }
            out.append(".");
            assert("."@ =~= seq!['.']);
        } else {
            let piece = s.substring_char(i, i + 1);
            assert(piece@ =~= seq![c]);
            out.append(piece);
        }
        assert(out@ =~= before.push(if c == ',' { '.' } else { c }));
        assert(s@.take(i + 1) =~= s@.take(i as int).push(c));
        assert(comma_to_point(s@.take(i + 1)) =~= comma_to_point(s@.take(i as int)).push(
            if c == ',' { '.' } else { c },
        ));
        i = i + 1;
    }
    assert(s@.take(n as int) =~= s@);
    out
}

/// Normalises an optional raw price text into a decimal; a missing or
/// unreadable price becomes the sentinel 999.99.
pub fn price_to_bigdecimal(s: Option<&str>) -> (r: Decimal)
    ensures
        r == price_value(
            match s {
                Some(t) => Some(t@),
                None => None,
            },
        ),
{
    match s {
        None => Decimal::sentinel(),
        Some(t) => {
            let outer = trim_whitespace(t);
            let stripped = strip_suffix_all(outer.as_str(), "\u{20ac}");
            let inner = trim_whitespace(stripped.as_str());
            let text = replace_commas(inner.as_str());
            match parse_decimal(text.as_str()) {
                Some((m, e)) => {
                    let bound: i128 = 1000000000000000000000000000000000000;
                    if 0 <= e && e < 2 && -bound <= m && m <= bound {
                        if e == 0 {
                            Decimal { mantissa: m * 100, scale: 2 }
                        } else {
                            Decimal { mantissa: m * 10, scale: 2 }
                        }
                    } else {
                        Decimal { mantissa: m, scale: e }
                    }
                },
                None => Decimal::sentinel(),
            }
        },
    }
}

} // verus!
