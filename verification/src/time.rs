use vstd::prelude::*;
use crate::error::GuaError;
use crate::gua64::{spec_gua64_change, spec_hu_gua};
use crate::gua_result::GuaResult;
use crate::ichang::spec_ichang_mod;
use crate::two_number::{BaGuaCalculator, spec_two_number_ben};

verus! {

/// The two-hour branch period of an hour of day, in 1..=12: the period
/// covering 23:00 to 00:59 is period 1, and each following two-hour
/// block is the next period.
pub open spec fn spec_shi_chen(hour: int) -> int {
    if hour == 23 || hour == 0 {
        1
    } else {
        (hour + 1) / 2 + 1
    }
}

/// The branch period of an hour of day. Hours 23 and 0 both fall in
/// period 1; hours 1 and 2 in period 2; and so on up to period 12 for
/// hours 21 and 22.
pub fn hour_to_shi_chen(hour: u32) -> (r: u8)
    requires
        hour <= 23,
    ensures
        r == spec_shi_chen(hour as int),
        1 <= r <= 12,
{
    if hour == 23 || hour == 0 {
        1
    } else {
        ((hour - 1) / 2 + 2) as u8
    }
}

/// What the lunar-calendar conversion returns for a Gregorian date:
/// the lunar year's branch ordinal, the lunar month number (with leap
/// months offset by one hundred), and the lunar day number; or nothing
/// for a date outside the supported range.
pub uninterp spec fn spec_lunar_ordinals(year: u16, month: u8, day: u8) -> Option<(u8, u8, u8)>;

/// Relies on chinese_lunisolar_calendar: SolarDate::from_ymd and
/// LunisolarDate::from_solar_date convert the Gregorian date, and
/// to_lunar_year().to_earthly_branch().ordinal(), the lunar month's
/// to_u8_raw() and the lunar day's to_u8() read the three ordinals.
/// The conversion depends on the date alone; the ordinal ranges are
/// those of the crate's enums.
#[verifier::external_body]
fn lunar_ordinals(year: u16, month: u8, day: u8) -> (r: Option<(u8, u8, u8)>)
    ensures
        r == spec_lunar_ordinals(year, month, day),
        r matches Some(t) ==> 1 <= t.0 <= 12 && 1 <= t.1 <= 112 && 1 <= t.2 <= 30,
{
    match chinese_lunisolar_calendar::SolarDate::from_ymd(year, month, day) {
        Ok(solar) => match chinese_lunisolar_calendar::LunisolarDate::from_solar_date(solar) {
            Ok(lunisolar) => Some(
                (
                    lunisolar.to_lunar_year().to_earthly_branch().ordinal(),
                    lunisolar.to_lunar_month().to_u8_raw(),
                    lunisolar.to_lunar_day().to_u8(),
                ),
            ),
            Err(_) => None,
        },
        Err(_) => None,
    }
}

/// Cast from lunar ordinals and a branch period: the first number is
/// the sum of the year branch, month and day ordinals, the second adds
/// the branch period, and the numeric method does the rest with the
/// change line taken from the sum of the two numbers.
pub fn time_to_gua(year_branch: u8, lunar_month: u8, lunar_day: u8, shi_chen: u8) -> (r: GuaResult)
    ensures
        r.ben_gua == spec_two_number_ben(
            year_branch as int + lunar_month as int + lunar_day as int,
            year_branch as int + lunar_month as int + lunar_day as int + shi_chen as int,
        ),
        r.bian_gua == Some(
            spec_gua64_change(
                r.ben_gua,
                spec_ichang_mod(
                    2 * (year_branch as int + lunar_month as int + lunar_day as int)
                        + shi_chen as int,
                    6,
                ),
            ),
        ),
        r.hu_gua == spec_hu_gua(r.ben_gua),
        r.steps@.len() == 5,
{
    let num1 = year_branch as u16 + lunar_month as u16 + lunar_day as u16;
    let num2 = num1 + shi_chen as u16;
    BaGuaCalculator::calculate_from_two_numbers(num1, num2, num1 + num2)
}

/// Cast from a Gregorian date and an hour of day. The date is turned
/// into lunar ordinals by the calendar conversion; an hour above 23 or
/// a date the conversion does not cover is rejected.
pub fn time_method(year: u16, month: u8, day: u8, hour: u32) -> (r: Result<GuaResult, GuaError>)
    ensures
        hour > 23 ==> r == Err::<GuaResult, GuaError>(GuaError::InvalidArgument),
        hour <= 23 && spec_lunar_ordinals(year, month, day) is None ==> r == Err::<
            GuaResult,
            GuaError,
        >(GuaError::InvalidArgument),
        hour <= 23 ==> (spec_lunar_ordinals(year, month, day) matches Some(t) ==> r matches Ok(g)
            && g.ben_gua == spec_two_number_ben(
            t.0 as int + t.1 as int + t.2 as int,
            t.0 as int + t.1 as int + t.2 as int + spec_shi_chen(hour as int),
        ) && g.bian_gua == Some(
            spec_gua64_change(
                g.ben_gua,
                spec_ichang_mod(
                    2 * (t.0 as int + t.1 as int + t.2 as int) + spec_shi_chen(hour as int),
                    6,
                ),
            ),
        ) && g.hu_gua == spec_hu_gua(g.ben_gua)),
{
    if hour > 23 {
        return Err(GuaError::InvalidArgument);
    }
    match lunar_ordinals(year, month, day) {
        None => Err(GuaError::InvalidArgument),
        Some((year_branch, lunar_month, lunar_day)) => {
            let shi_chen = hour_to_shi_chen(hour);
            Ok(time_to_gua(year_branch, lunar_month, lunar_day, shi_chen))
        },
    }
}

} // verus!
