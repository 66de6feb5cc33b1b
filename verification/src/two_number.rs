use vstd::prelude::*;
use vstd::string::StringExecFns;
use crate::decimal::u16_to_string;
use crate::gua8::spec_gua8_from_num;
use crate::gua64::{Gua64, Gua64YaoIndex, spec_gua64_change, spec_hu_gua, lemma_change_ne};
use crate::gua_result::{GuaResult, GuaResultStep};
use crate::ichang::{ichang_mod, spec_ichang_mod};

verus! {

/// The primary hexagram of the numeric casting method: the upper
/// trigram from remainder-fullness of the first number by eight, the
/// lower trigram likewise from the second number.
pub open spec fn spec_two_number_ben(shang_num: int, xia_num: int) -> Gua64 {
    Gua64 {
        shang: spec_gua8_from_num(spec_ichang_mod(shang_num, 8)),
        xia: spec_gua8_from_num(spec_ichang_mod(xia_num, 8)),
    }
}

/// The casting calculator over numbers.
#[derive(Debug)]
pub struct BaGuaCalculator;

impl BaGuaCalculator {
    /// Cast from two numbers and a change number: the first two select
    /// the upper and lower trigram by remainder-fullness with base
    /// eight, the third selects the line to flip by remainder-fullness
    /// with base six. The transformed hexagram is always present and
    /// always differs from the primary one; the nuclear hexagram comes
    /// from the primary one. One derivation step is recorded per
    /// sub-step, five in all.
    pub fn calculate_from_two_numbers(shang_num: u16, xia_num: u16, bian_num: u16) -> (r:
        GuaResult)
        ensures
            r.ben_gua == spec_two_number_ben(shang_num as int, xia_num as int),
            r.bian_gua == Some(
                spec_gua64_change(
                    spec_two_number_ben(shang_num as int, xia_num as int),
                    spec_ichang_mod(bian_num as int, 6),
                ),
            ),
            r.bian_gua != Some(r.ben_gua),
            r.hu_gua == spec_hu_gua(spec_two_number_ben(shang_num as int, xia_num as int)),
            r.steps@.len() == 5,
    {
        let mut steps: Vec<GuaResultStep> = Vec::new();

        let shang_gua_num = ichang_mod(shang_num, 8);
        let xia_gua_num = ichang_mod(xia_num, 8);

        let mut origin1 = String::from_str("数字一:");
        origin1.append(u16_to_string(shang_num).as_str());
        origin1.append(" 数字二:");
        origin1.append(u16_to_string(xia_num).as_str());
        let mut result1 = String::from_str("上卦为 ");
        result1.append(u16_to_string(shang_num).as_str());
        result1.append(" % 8 = ");
        result1.append(u16_to_string(shang_gua_num as u16).as_str());
        result1.append(", 下卦为 ");
        result1.append(u16_to_string(xia_num).as_str());
        result1.append(" % 8 = ");
        result1.append(u16_to_string(xia_gua_num as u16).as_str());
        steps.push(GuaResultStep::new(String::from_str("计算上卦和下卦"), origin1, result1));

        let shang_gua = crate::gua8::Gua8::from_num(shang_gua_num);
        let xia_gua = crate::gua8::Gua8::from_num(xia_gua_num);
        let ben_gua = Gua64::new(shang_gua, xia_gua);

        let mut origin2 = String::from_str("上卦:");
        origin2.append(shang_gua.name());
        origin2.append("(");
        origin2.append(u16_to_string(shang_gua_num as u16).as_str());
        origin2.append(") 下卦:");
        origin2.append(xia_gua.name());
        origin2.append("(");
        origin2.append(u16_to_string(xia_gua_num as u16).as_str());
        origin2.append(")");
        let mut result2 = String::from_str("本卦:");
        result2.append(ben_gua.name());
        steps.push(GuaResultStep::new(String::from_str("计算本卦"), origin2, result2));

        let bian_index = Gua64YaoIndex::from_number(bian_num);

        let mut origin3 = String::from_str("变数:");
        origin3.append(u16_to_string(bian_num).as_str());
        let mut result3 = String::from_str("变爻为 ");
        result3.append(u16_to_string(bian_num).as_str());
        result3.append(" % 6 = ");
        result3.append(u16_to_string(bian_index.num() as u16).as_str());
        steps.push(GuaResultStep::new(String::from_str("计算变爻"), origin3, result3));

        let mut bian_gua = ben_gua;
        bian_gua.change(bian_index);

        let mut origin4 = String::from_str("本卦:");
        origin4.append(ben_gua.display().as_str());
        origin4.append(" 变爻:");
        origin4.append(u16_to_string(bian_index.num() as u16).as_str());
        let mut result4 = String::from_str("变卦:");
        result4.append(bian_gua.display().as_str());
        steps.push(GuaResultStep::new(String::from_str("计算变卦"), origin4, result4));

        let hu_gua = ben_gua.hu_gua();

        let mut origin5 = String::from_str("本卦:");
        origin5.append(ben_gua.display().as_str());
        let mut result5 = String::from_str("互卦:");
        result5.append(hu_gua.display().as_str());
        steps.push(GuaResultStep::new(String::from_str("计算互卦"), origin5, result5));

        proof {
            lemma_change_ne(ben_gua, spec_ichang_mod(bian_num as int, 6));
        }

        let mut gua_result = GuaResult::new(ben_gua, Some(bian_gua), hu_gua);
        gua_result.steps = steps;
        gua_result
    }
}

} // verus!
