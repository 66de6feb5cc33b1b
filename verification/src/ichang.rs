use vstd::prelude::*;
use crate::error::GuaError;

verus! {

/// Remainder-fullness: the remainder of `number` by `base`, with a zero
/// remainder reported as the full `base` instead of zero.
pub open spec fn spec_ichang_mod(number: int, base: int) -> int {
    if number % base == 0 {
        base
    } else {
        number % base
    }
}

/// Remainder-fullness over machine integers. `base` must be positive;
/// the result fits a byte, so `base` must fit one too.
pub fn ichang_mod(number: u16, base: u16) -> (r: u8)
    requires
        1 <= base <= 255,
    ensures
        r == spec_ichang_mod(number as int, base as int),
        1 <= r <= base,
{
    let a = number % base;
    if a == 0 {
        base as u8
    } else {
        a as u8
    }
}

/// Remainder-fullness that rejects a zero base instead of requiring a
/// positive one, per the arithmetic error taxonomy.
pub fn checked_ichang_mod(number: u16, base: u16) -> (r: Result<u16, GuaError>)
    ensures
        base == 0 ==> r == Err::<u16, GuaError>(GuaError::ArithmeticDomainError),
        base > 0 ==> r == Ok::<u16, GuaError>(spec_ichang_mod(number as int, base as int) as u16),
{
    if base == 0 {
        Err(GuaError::ArithmeticDomainError)
    } else {
        let a = number % base;
        if a == 0 {
            Ok(base)
        } else {
            Ok(a)
        }
    }
}

/// For every `a > 0` and `base > 0`, remainder-fullness lands in the
/// closed interval `[1, base]`, and it equals `base` exactly when
/// `base` divides `a`.
pub proof fn lemma_ichang_mod_range(a: int, base: int)
    requires
        a > 0,
        base > 0,
    ensures
        1 <= spec_ichang_mod(a, base) <= base,
        spec_ichang_mod(a, base) == base <==> a % base == 0,
{
}

} // verus!
