use vstd::prelude::*;
use crate::yao::Yao;

verus! {

/// Position of a line inside a trigram, counted bottom-to-top.
#[derive(Copy, Clone, Debug, PartialEq, Eq, Structural)]
pub enum Gua8YaoIndex {
    /// The bottom line.
    First,
    /// The middle line.
    Second,
    /// The top line.
    Third,
}

/// A trigram (gua8): three lines ordered bottom-to-top. Exactly eight
/// distinct values exist, one for each combination of polarities.
#[derive(Copy, Clone, Debug, PartialEq, Eq, Structural)]
pub struct Gua8 {
    /// The bottom line.
    pub first_yao: Yao,
    /// The middle line.
    pub second_yao: Yao,
    /// The top line.
    pub third_yao: Yao,
}

/// The canonical number of a trigram, in 1..=8: qian 1, dui 2, li 3,
/// zhen 4, xun 5, kan 6, gen 7, kun 8.
pub open spec fn spec_gua8_num(g: Gua8) -> int {
    if g.first_yao.status {
        if g.second_yao.status {
            if g.third_yao.status {
                1
            } else {
                2
            }
        } else {
            if g.third_yao.status {
                3
            } else {
                4
            }
        }
    } else {
        if g.second_yao.status {
            if g.third_yao.status {
                5
            } else {
                6
            }
        } else {
            if g.third_yao.status {
                7
            } else {
                8
            }
        }
    }
}

/// The trigram with canonical number `n`, for `n` in 1..=8.
pub open spec fn spec_gua8_from_num(n: int) -> Gua8 {
    if n == 1 {
        spec_gua8(true, true, true)
    } else if n == 2 {
        spec_gua8(true, true, false)
    } else if n == 3 {
        spec_gua8(true, false, true)
    } else if n == 4 {
        spec_gua8(true, false, false)
    } else if n == 5 {
        spec_gua8(false, true, true)
    } else if n == 6 {
        spec_gua8(false, true, false)
    } else if n == 7 {
        spec_gua8(false, false, true)
    } else {
        spec_gua8(false, false, false)
    }
}

/// A trigram from three polarities, bottom-to-top.
pub open spec fn spec_gua8(first: bool, second: bool, third: bool) -> Gua8 {
    Gua8 {
        first_yao: Yao { status: first },
        second_yao: Yao { status: second },
        third_yao: Yao { status: third },
    }
}

/// The canonical name of the trigram with number `n`, for `n` in 1..=8.
pub open spec fn spec_gua8_name_of_num(n: int) -> Seq<char> {
    if n == 1 {
        "乾"@
    } else if n == 2 {
        "兑"@
    } else if n == 3 {
        "离"@
    } else if n == 4 {
        "震"@
    } else if n == 5 {
        "巽"@
    } else if n == 6 {
        "坎"@
    } else if n == 7 {
        "艮"@
    } else {
        "坤"@
    }
}

/// The canonical name of a trigram.
pub open spec fn spec_gua8_name(g: Gua8) -> Seq<char> {
    spec_gua8_name_of_num(spec_gua8_num(g))
}

/// One line of a trigram flipped, the other two kept.
pub open spec fn spec_gua8_reverse(g: Gua8, index: Gua8YaoIndex) -> Gua8 {
    match index {
        Gua8YaoIndex::First => Gua8 { first_yao: Yao { status: !g.first_yao.status }, ..g },
        Gua8YaoIndex::Second => Gua8 { second_yao: Yao { status: !g.second_yao.status }, ..g },
        Gua8YaoIndex::Third => Gua8 { third_yao: Yao { status: !g.third_yao.status }, ..g },
    }
}

impl Gua8 {
    /// Build a trigram from three lines, bottom-to-top.
    pub fn new(first_yao: Yao, second_yao: Yao, third_yao: Yao) -> (r: Gua8)
        ensures
            r.first_yao == first_yao,
            r.second_yao == second_yao,
            r.third_yao == third_yao,
    {
        Gua8 { third_yao, second_yao, first_yao }
    }

    /// The canonical number of this trigram, in 1..=8.
    pub fn num(&self) -> (r: u8)
        ensures
            r == spec_gua8_num(*self),
            1 <= r <= 8,
    {
        if self.first_yao.status {
            if self.second_yao.status {
                if self.third_yao.status {
                    1
                } else {
                    2
                }
            } else {
                if self.third_yao.status {
                    3
                } else {
                    4
                }
            }
        } else {
            if self.second_yao.status {
                if self.third_yao.status {
                    5
                } else {
                    6
                }
            } else {
                if self.third_yao.status {
                    7
                } else {
                    8
                }
            }
        }
    }

    /// The canonical name of this trigram.
    pub fn name(&self) -> (r: &'static str)
        ensures
            r@ == spec_gua8_name(*self),
    {
        let n = self.num();
        if n == 1 {
            "乾"
        } else if n == 2 {
            "兑"
        } else if n == 3 {
            "离"
        } else if n == 4 {
            "震"
        } else if n == 5 {
            "巽"
        } else if n == 6 {
            "坎"
        } else if n == 7 {
            "艮"
        } else {
            "坤"
        }
    }

    /// The trigram with canonical number `num`. Numbers outside 1..=8
    /// are outside the documented domain.
    pub fn from_num(num: u8) -> (r: Gua8)
        requires
            1 <= num <= 8,
        ensures
            r == spec_gua8_from_num(num as int),
    {
        if num == 1 {
            Gua8::new(Yao::new(true), Yao::new(true), Yao::new(true))
        } else if num == 2 {
            Gua8::new(Yao::new(true), Yao::new(true), Yao::new(false))
        } else if num == 3 {
            Gua8::new(Yao::new(true), Yao::new(false), Yao::new(true))
        } else if num == 4 {
            Gua8::new(Yao::new(true), Yao::new(false), Yao::new(false))
        } else if num == 5 {
            Gua8::new(Yao::new(false), Yao::new(true), Yao::new(true))
        } else if num == 6 {
            Gua8::new(Yao::new(false), Yao::new(true), Yao::new(false))
        } else if num == 7 {
            Gua8::new(Yao::new(false), Yao::new(false), Yao::new(true))
        } else {
            Gua8::new(Yao::new(false), Yao::new(false), Yao::new(false))
        }
    }

    /// The trigram with canonical number `num`, or the invalid-argument
    /// error for a number outside 1..=8.
    pub fn try_from_num(num: u8) -> (r: Result<Gua8, crate::error::GuaError>)
        ensures
            1 <= num <= 8 ==> r == Ok::<Gua8, crate::error::GuaError>(
                spec_gua8_from_num(num as int),
            ),
            !(1 <= num <= 8) ==> r == Err::<Gua8, crate::error::GuaError>(
                crate::error::GuaError::InvalidArgument,
            ),
    {
        if 1 <= num && num <= 8 {
            Ok(Gua8::from_num(num))
        } else {
            Err(crate::error::GuaError::InvalidArgument)
        }
    }

    /// Flip the line at `index`, leaving the other two lines unchanged.
    pub fn reverse(&mut self, index: Gua8YaoIndex)
        ensures
            *final(self) == spec_gua8_reverse(*old(self), index),
    {
        match index {
            Gua8YaoIndex::First => self.first_yao.reverse(),
            Gua8YaoIndex::Second => self.second_yao.reverse(),
            Gua8YaoIndex::Third => self.third_yao.reverse(),
        }
    }
}

/// The canonical number is a bijection between the eight trigrams and
/// the numbers 1..=8: each direction inverts the other.
pub proof fn lemma_gua8_num_bijective(g: Gua8, n: int)
    requires
        1 <= n <= 8,
    ensures
        spec_gua8_from_num(spec_gua8_num(g)) == g,
        spec_gua8_num(spec_gua8_from_num(n)) == n,
{
}

/// The name lookup over trigrams is injective: two trigrams with the
/// same canonical name are the same trigram. Together with the totality
/// of `spec_gua8_name` this makes the lookup a bijection over all eight
/// combinations.
pub proof fn lemma_gua8_name_injective(a: Gua8, b: Gua8)
    requires
        spec_gua8_name(a) == spec_gua8_name(b),
    ensures
        a == b,
{
    reveal_strlit("乾");
    reveal_strlit("兑");
    reveal_strlit("离");
    reveal_strlit("震");
    reveal_strlit("巽");
    reveal_strlit("坎");
    reveal_strlit("艮");
    reveal_strlit("坤");
    let na = spec_gua8_num(a);
    let nb = spec_gua8_num(b);
    assert(spec_gua8_name_of_num(na)[0] == spec_gua8_name_of_num(nb)[0]);
    assert(na == nb);
    lemma_gua8_num_bijective(a, 1);
    lemma_gua8_num_bijective(b, 1);
}

} // verus!
