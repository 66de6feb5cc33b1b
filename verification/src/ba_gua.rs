use vstd::prelude::*;
use vstd::string::StringExecFns;

verus! {

/// The eight trigrams by name, for the light-weight numeric lookup:
/// numbers 1..=7 select qian through gen and 0 selects kun, a plain
/// remainder with no fullness rule.
#[derive(Copy, Clone, Debug, PartialEq, Eq, Structural)]
pub enum BaGua {
    Qian,
    Dui,
    Li,
    Zhen,
    Xun,
    Kan,
    Gen,
    Kun,
}

/// The canonical name of a trigram of the numeric lookup.
pub open spec fn spec_ba_gua_name(g: BaGua) -> Seq<char> {
    match g {
        BaGua::Qian => "乾"@,
        BaGua::Dui => "兑"@,
        BaGua::Li => "离"@,
        BaGua::Zhen => "震"@,
        BaGua::Xun => "巽"@,
        BaGua::Kan => "坎"@,
        BaGua::Gen => "艮"@,
        BaGua::Kun => "坤"@,
    }
}

/// The trigram a plain remainder selects: 1..=7 map to qian through
/// gen, 0 maps to kun, anything else to nothing.
pub open spec fn spec_ba_gua_from_number(n: int) -> Option<BaGua> {
    if n == 1 {
        Some(BaGua::Qian)
    } else if n == 2 {
        Some(BaGua::Dui)
    } else if n == 3 {
        Some(BaGua::Li)
    } else if n == 4 {
        Some(BaGua::Zhen)
    } else if n == 5 {
        Some(BaGua::Xun)
    } else if n == 6 {
        Some(BaGua::Kan)
    } else if n == 7 {
        Some(BaGua::Gen)
    } else if n == 0 {
        Some(BaGua::Kun)
    } else {
        None
    }
}

impl BaGua {
    /// The canonical name of this trigram.
    pub fn name(&self) -> (r: &'static str)
        ensures
            r@ == spec_ba_gua_name(*self),
    {
        match self {
            BaGua::Qian => "乾",
            BaGua::Dui => "兑",
            BaGua::Li => "离",
            BaGua::Zhen => "震",
            BaGua::Xun => "巽",
            BaGua::Kan => "坎",
            BaGua::Gen => "艮",
            BaGua::Kun => "坤",
        }
    }

    /// The trigram for a remainder: some trigram exactly for numbers
    /// up to seven.
    pub fn from_number(num: u8) -> (r: Option<BaGua>)
        ensures
            r == spec_ba_gua_from_number(num as int),
    {
        if num == 1 {
            Some(BaGua::Qian)
        } else if num == 2 {
            Some(BaGua::Dui)
        } else if num == 3 {
            Some(BaGua::Li)
        } else if num == 4 {
            Some(BaGua::Zhen)
        } else if num == 5 {
            Some(BaGua::Xun)
        } else if num == 6 {
            Some(BaGua::Kan)
        } else if num == 7 {
            Some(BaGua::Gen)
        } else if num == 0 {
            Some(BaGua::Kun)
        } else {
            None
        }
    }
}

/// The outcome of the numeric lookup: the upper and lower trigram and
/// the moving-line entry, each where its remainder selected one.
pub struct BaGuaItem {
    pub one: Option<BaGua>,
    pub two: Option<BaGua>,
    pub three: Option<BaGua>,
}

impl BaGuaItem {
    /// A sentence naming the three entries. All three must be present.
    pub fn display(&self) -> (r: String)
        requires
            self.one is Some,
            self.two is Some,
            self.three is Some,
        ensures
            r@ == "结果为：上卦 "@ + spec_ba_gua_name(self.one.unwrap()) + ", 下卦 "@
                + spec_ba_gua_name(self.two.unwrap()) + "，动爻 "@ + spec_ba_gua_name(
                self.three.unwrap(),
            ),
    {
        let one = self.one.unwrap().name();
        let two = self.two.unwrap().name();
        let three = self.three.unwrap().name();
        let mut s = String::from_str("结果为：上卦 ");
        s.append(one);
        s.append(", 下卦 ");
        s.append(two);
        s.append("，动爻 ");
        s.append(three);
        proof {
            assert(s@ =~= "结果为：上卦 "@ + spec_ba_gua_name(self.one.unwrap()) + ", 下卦 "@
                + spec_ba_gua_name(self.two.unwrap()) + "，动爻 "@ + spec_ba_gua_name(
                self.three.unwrap(),
            ));
        }
        s
    }
}

/// The calculator of the light-weight numeric lookup.
#[derive(Debug)]
pub struct BaGuaCalculator;

impl BaGuaCalculator {
    /// Look up trigrams from two numbers by plain remainders: the
    /// numbers by eight for the two trigrams, their sum by six for the
    /// moving-line entry. Every entry is present, since the remainders
    /// stay below eight.
    pub fn calculate_from_two_numbers(num1: u8, num2: u8) -> (r: BaGuaItem)
        ensures
            r.one == spec_ba_gua_from_number((num1 as int) % 8),
            r.two == spec_ba_gua_from_number((num2 as int) % 8),
            r.three == spec_ba_gua_from_number((num1 as int + num2 as int) % 6),
            r.one is Some,
            r.two is Some,
            r.three is Some,
    {
        let sum = num1 as u16 + num2 as u16;
        let result1 = num1 % 8;
        let result2 = num2 % 8;
        let result3 = (sum % 6) as u8;

        BaGuaItem {
            one: BaGua::from_number(result1),
            two: BaGua::from_number(result2),
            three: BaGua::from_number(result3),
        }
    }
}

} // verus!


