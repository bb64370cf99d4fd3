use vstd::arithmetic::power::pow;
use vstd::prelude::*;

verus! {

/// An arbitrary-precision decimal number, held as its plain parts: the value is
/// `int(unscaled) * 10^(-scale)`, where `unscaled` is a big-endian two's-complement integer.
/// This is the form in which `bigdecimal::BigDecimal` keeps a number.
pub struct Decimal {
    pub unscaled: Vec<u8>,
    pub scale: i64,
}

/// The text that `bigdecimal` renders for the number with the given parts.
pub uninterp spec fn bigdecimal_display(unscaled: Seq<u8>, scale: i64) -> Seq<char>;

/// The parts of the number with the given parts rounded by `bigdecimal` to `digits` places.
pub uninterp spec fn bigdecimal_round_to_integer(unscaled: Seq<u8>, scale: i64) -> (Seq<u8>, i64);

/// The parts of the number that `bigdecimal` reads from a text, if it reads one.
pub uninterp spec fn bigdecimal_parse(text: Seq<char>) -> Option<(Seq<u8>, i64)>;

/// The parts of the quotient that `bigdecimal` computes for two numbers.
pub uninterp spec fn bigdecimal_quotient(
    a_unscaled: Seq<u8>,
    a_scale: i64,
    b_unscaled: Seq<u8>,
    b_scale: i64,
) -> (Seq<u8>, i64);

/// The parts of the decimal that `bigdecimal` builds from a machine integer.
pub uninterp spec fn bigdecimal_from_integer(n: i64) -> (Seq<u8>, i64);

/// Whether `bigdecimal` can round the number with these parts to an integer: its scale
/// arithmetic negates the scale of a nonzero number that has places to gain, which overflows
/// only for the scale `i64::MIN`.
pub open spec fn parts_roundable(parts: (Seq<u8>, i64)) -> bool {
    unscaled_is_zero(parts.0) || parts.1 > i64::MIN
}

/// Whether `bigdecimal` can divide the number `a` by the nonzero number `b` without its scale
/// arithmetic leaving `i64`: a zero `a` is given back as it is; otherwise the scale of the
/// quotient starts at the difference of the scales and rises by one for each decimal digit
/// of `b` (fewer than three per byte) and each further digit of precision (at most 99).
pub open spec fn quotient_fits(a: (Seq<u8>, i64), b: (Seq<u8>, i64)) -> bool {
    unscaled_is_zero(a.0) || (i64::MIN <= a.1 - b.1 && a.1 - b.1 + 3 * b.0.len() + 100 <= i64::MAX)
}

/// The value of big-endian bytes read as an unsigned integer.
pub open spec fn unsigned_be(bytes: Seq<u8>) -> nat
    decreases bytes.len(),
{
    if bytes.len() == 0 {
        0
    } else {
        unsigned_be(bytes.drop_last()) * 256 + bytes.last() as nat
    }
}

/// The value of big-endian bytes read in two's complement: negative when the first byte has
/// its high bit set.
pub open spec fn signed_be(bytes: Seq<u8>) -> int {
    if bytes.len() > 0 && bytes[0] >= 128 {
        unsigned_be(bytes) - pow(256, bytes.len())
    } else {
        unsigned_be(bytes) as int
    }
}

/// A two's-complement byte string stands for zero exactly when all its bytes are zero.
pub open spec fn unscaled_is_zero(unscaled: Seq<u8>) -> bool {
    forall|i: int| 0 <= i < unscaled.len() ==> unscaled[i] == 0u8
}

impl Decimal {
    /// The parts of the number.
    pub open spec fn parts(&self) -> (Seq<u8>, i64) {
        (self.unscaled@, self.scale)
    }

    /// The text of the number.
    pub open spec fn text(&self) -> Seq<char> {
        bigdecimal_display(self.unscaled@, self.scale)
    }

    /// The text of the number rounded to an integer, as the API prints token amounts.
    pub open spec fn rounded_text(&self) -> Seq<char> {
        let r = bigdecimal_round_to_integer(self.unscaled@, self.scale);
        bigdecimal_display(r.0, r.1)
    }

    /// Whether `bigdecimal` can round the number to an integer.
    pub open spec fn roundable(&self) -> bool {
        parts_roundable(self.parts())
    }

    /// Tells whether `bigdecimal` can round the number to an integer.
    pub fn is_roundable(&self) -> (res: bool)
        ensures
            res == self.roundable(),
    {
        self.scale > i64::MIN || is_zero_bytes(&self.unscaled)
    }

    /// Tells whether `bigdecimal` can divide the number by the nonzero number `b`.
    pub fn can_divide_by(&self, b: &Decimal) -> (res: bool)
        ensures
            res == quotient_fits(self.parts(), b.parts()),
    {
        if is_zero_bytes(&self.unscaled) {
            return true;
        }
        let diff: i128 = self.scale as i128 - b.scale as i128;
        let len: i128 = b.unscaled.len() as i128;
        i64::MIN as i128 <= diff && diff + 3 * len + 100 <= i64::MAX as i128
    }

    /// A copy of the number.
    pub fn copy(&self) -> (res: Decimal)
        ensures
            res.parts() == self.parts(),
    {
        Decimal { unscaled: self.unscaled.clone(), scale: self.scale }
    }

    /// The number zero, as `BigDecimal::default()` builds it.
    pub fn zero() -> (res: Decimal)
        ensures
            res.parts() == bigdecimal_from_integer(0),
            res.roundable(),
    {
        from_integer(0)
    }

    /// Renders the number as text (`BigDecimal`'s `Display`).
    pub fn to_text(&self) -> (res: String)
        ensures
            res@ == self.text(),
    {
        display(self)
    }

    /// Renders the number rounded to an integer (`round(0)` then `Display`).
    pub fn to_rounded_text(&self) -> (res: String)
        requires
            self.roundable(),
        ensures
            res@ == self.rounded_text(),
    {
        let r = round_to_integer(self);
        display(&r)
    }
}

/// Renders a decimal through `bigdecimal::BigDecimal`'s `Display`; the text is whatever
/// `bigdecimal` prints for these parts, which is left as the name `bigdecimal_display`.
#[verifier::external_body]
pub(crate) fn display(d: &Decimal) -> (res: String)
    ensures
        res@ == bigdecimal_display(d.unscaled@, d.scale),
{
    bigdecimal::BigDecimal::new(
        bigdecimal::num_bigint::BigInt::from_signed_bytes_be(&d.unscaled),
        d.scale,
    ).to_string()
}

/// Rounds to an integer through `bigdecimal::BigDecimal::round(0)`; the parts of the result
/// are left as the name `bigdecimal_round_to_integer`. `with_scale_round` computes `0 - scale`
/// for a nonzero number of negative scale without a check, which overflows only for the
/// scale `i64::MIN` (excluded here); every other step stays within `i64`. The integer is then
/// multiplied by ten to that difference, which is left to the memory of the machine.
#[verifier::external_body]
pub(crate) fn round_to_integer(d: &Decimal) -> (res: Decimal)
    requires
        d.roundable(),
    ensures
        res.parts() == bigdecimal_round_to_integer(d.unscaled@, d.scale),
{
    let r = bigdecimal::BigDecimal::new(
        bigdecimal::num_bigint::BigInt::from_signed_bytes_be(&d.unscaled),
        d.scale,
    ).round(0);
    let (int_val, scale) = r.into_bigint_and_exponent();
    Decimal { unscaled: int_val.to_signed_bytes_be(), scale }
}

/// Reads a decimal through `BigDecimal::from_str`; `None` where it reports an error.
#[verifier::external_body]
pub(crate) fn parse(text: &str) -> (res: Option<Decimal>)
    ensures
        res matches Some(d) ==> bigdecimal_parse(text@) == Some(d.parts()),
        res is None <==> bigdecimal_parse(text@) is None,
{
    match <bigdecimal::BigDecimal as std::str::FromStr>::from_str(text) {
        Ok(r) => {
            let (int_val, scale) = r.into_bigint_and_exponent();
            Some(Decimal { unscaled: int_val.to_signed_bytes_be(), scale })
        },
        Err(_) => None,
    }
}

/// Divides through `BigDecimal`'s `/`, which panics on a zero divisor (excluded here); the
/// parts of the quotient are left as the name `bigdecimal_quotient`. The division subtracts
/// the scales in `i64` without a check and then raises the scale by one for each digit it
/// shifts the numerator by and each digit of precision, so the scales are kept where that
/// cannot overflow (`quotient_fits`).
#[verifier::external_body]
pub(crate) fn divide(a: &Decimal, b: &Decimal) -> (res: Decimal)
    requires
        !unscaled_is_zero(b.unscaled@),
        quotient_fits(a.parts(), b.parts()),
    ensures
        res.parts() == bigdecimal_quotient(a.unscaled@, a.scale, b.unscaled@, b.scale),
{
    let x = bigdecimal::BigDecimal::new(
        bigdecimal::num_bigint::BigInt::from_signed_bytes_be(&a.unscaled),
        a.scale,
    );
    let y = bigdecimal::BigDecimal::new(
        bigdecimal::num_bigint::BigInt::from_signed_bytes_be(&b.unscaled),
        b.scale,
    );
    let (int_val, scale) = (x / y).into_bigint_and_exponent();
    Decimal { unscaled: int_val.to_signed_bytes_be(), scale }
}

/// Whether all the bytes are zero.
pub fn is_zero_bytes(bytes: &Vec<u8>) -> (res: bool)
    ensures
        res == unscaled_is_zero(bytes@),
{
    for i in 0..bytes.len()
        invariant
            forall|j: int| 0 <= j < i ==> bytes@[j] == 0u8,
    {
        if bytes[i] != 0 {
            return false;
        }
    }
    true
}

/// Builds a decimal through `BigDecimal::from(i64)`; its parts are left as the name
/// `bigdecimal_from_integer`, of which the source shows that the scale is 0 and the unscaled
/// integer is `n`: its two's-complement bytes (`to_signed_bytes_be`) read back as `n`, are
/// all zero exactly when `n` is 0, and, without redundant leading bytes, are at most eight.
#[verifier::external_body]
pub(crate) fn from_integer(n: i64) -> (res: Decimal)
    ensures
        res.parts() == bigdecimal_from_integer(n),
        res.scale == 0,
        signed_be(res.unscaled@) == n,
        res.unscaled@.len() <= 8,
        unscaled_is_zero(res.unscaled@) <==> n == 0,
{
    let (int_val, scale) = bigdecimal::BigDecimal::from(n).into_bigint_and_exponent();
    Decimal { unscaled: int_val.to_signed_bytes_be(), scale }
}

} // verus!
