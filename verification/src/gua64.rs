use vstd::prelude::*;
use vstd::string::StringExecFns;
use crate::gua8::{Gua8, Gua8YaoIndex, spec_gua8, spec_gua8_num, spec_gua8_name, spec_gua8_reverse};
use crate::ichang::{ichang_mod, spec_ichang_mod};

verus! {

/// Position of a line inside a hexagram, counted bottom-to-top:
/// 1..=3 lie in the lower trigram, 4..=6 in the upper trigram.
#[derive(Copy, Clone, Debug, PartialEq, Eq, Structural)]
pub enum Gua64YaoIndex {
    First,
    Second,
    Third,
    Fourth,
    Fifth,
    Sixth,
}

/// The number of a line position, in 1..=6.
pub open spec fn spec_index_num(index: Gua64YaoIndex) -> int {
    match index {
        Gua64YaoIndex::First => 1,
        Gua64YaoIndex::Second => 2,
        Gua64YaoIndex::Third => 3,
        Gua64YaoIndex::Fourth => 4,
        Gua64YaoIndex::Fifth => 5,
        Gua64YaoIndex::Sixth => 6,
    }
}

/// The line position with number `n`, for `n` in 1..=6.
pub open spec fn spec_index_of_num(n: int) -> Gua64YaoIndex {
    if n == 1 {
        Gua64YaoIndex::First
    } else if n == 2 {
        Gua64YaoIndex::Second
    } else if n == 3 {
        Gua64YaoIndex::Third
    } else if n == 4 {
        Gua64YaoIndex::Fourth
    } else if n == 5 {
        Gua64YaoIndex::Fifth
    } else {
        Gua64YaoIndex::Sixth
    }
}

impl Gua64YaoIndex {
    /// The line position a change number selects: remainder-fullness of
    /// the number by six.
    pub fn from_number(value: u16) -> (r: Gua64YaoIndex)
        ensures
            r == spec_index_of_num(spec_ichang_mod(value as int, 6)),
    {
        let n = ichang_mod(value, 6);
        if n == 1 {
            Gua64YaoIndex::First
        } else if n == 2 {
            Gua64YaoIndex::Second
        } else if n == 3 {
            Gua64YaoIndex::Third
        } else if n == 4 {
            Gua64YaoIndex::Fourth
        } else if n == 5 {
            Gua64YaoIndex::Fifth
        } else {
            Gua64YaoIndex::Sixth
        }
    }

    /// The number of this line position, in 1..=6.
    pub fn num(&self) -> (r: u8)
        ensures
            r == spec_index_num(*self),
    {
        match self {
            Gua64YaoIndex::First => 1,
            Gua64YaoIndex::Second => 2,
            Gua64YaoIndex::Third => 3,
            Gua64YaoIndex::Fourth => 4,
            Gua64YaoIndex::Fifth => 5,
            Gua64YaoIndex::Sixth => 6,
        }
    }
}

/// A hexagram (gua64): an upper and a lower trigram, six lines in all.
/// Exactly 64 distinct values exist, one for each ordered pair.
#[derive(Copy, Clone, Debug, PartialEq, Eq, Structural)]
pub struct Gua64 {
    /// The upper trigram (lines 4..=6).
    pub shang: Gua8,
    /// The lower trigram (lines 1..=3).
    pub xia: Gua8,
}

/// The line of a hexagram at position `i`, for `i` in 1..=6: positions
/// 1..=3 are the lower trigram's lines bottom-to-top, 4..=6 the upper
/// trigram's.
pub open spec fn spec_gua64_yao(g: Gua64, i: int) -> crate::yao::Yao {
    if i == 1 {
        g.xia.first_yao
    } else if i == 2 {
        g.xia.second_yao
    } else if i == 3 {
        g.xia.third_yao
    } else if i == 4 {
        g.shang.first_yao
    } else if i == 5 {
        g.shang.second_yao
    } else {
        g.shang.third_yao
    }
}

/// The hexagram with exactly the line at position `i` flipped.
pub open spec fn spec_gua64_change(g: Gua64, i: int) -> Gua64 {
    if i == 1 {
        Gua64 { xia: spec_gua8_reverse(g.xia, Gua8YaoIndex::First), ..g }
    } else if i == 2 {
        Gua64 { xia: spec_gua8_reverse(g.xia, Gua8YaoIndex::Second), ..g }
    } else if i == 3 {
        Gua64 { xia: spec_gua8_reverse(g.xia, Gua8YaoIndex::Third), ..g }
    } else if i == 4 {
        Gua64 { shang: spec_gua8_reverse(g.shang, Gua8YaoIndex::First), ..g }
    } else if i == 5 {
        Gua64 { shang: spec_gua8_reverse(g.shang, Gua8YaoIndex::Second), ..g }
    } else {
        Gua64 { shang: spec_gua8_reverse(g.shang, Gua8YaoIndex::Third), ..g }
    }
}

/// The nuclear hexagram: lines {3,4,5} of the receiver form the upper
/// trigram, lines {2,3,4} the lower one, bottom-to-top order kept.
pub open spec fn spec_hu_gua(g: Gua64) -> Gua64 {
    Gua64 {
        shang: Gua8 {
            first_yao: spec_gua64_yao(g, 3),
            second_yao: spec_gua64_yao(g, 4),
            third_yao: spec_gua64_yao(g, 5),
        },
        xia: Gua8 {
            first_yao: spec_gua64_yao(g, 2),
            second_yao: spec_gua64_yao(g, 3),
            third_yao: spec_gua64_yao(g, 4),
        },
    }
}

/// The canonical name of the hexagram whose upper trigram has number
/// `u` and whose lower trigram has number `l`, both in 1..=8.
pub open spec fn spec_gua64_name_of_nums(u: int, l: int) -> Seq<char> {
    if u == 1 {
        if l == 1 { "乾"@ } else if l == 2 { "履"@ } else if l == 3 { "同人"@ }
        else if l == 4 { "无妄"@ } else if l == 5 { "姤"@ } else if l == 6 { "讼"@ }
        else if l == 7 { "遯"@ } else { "否"@ }
    } else if u == 2 {
        if l == 1 { "夬"@ } else if l == 2 { "兑"@ } else if l == 3 { "革"@ }
        else if l == 4 { "随"@ } else if l == 5 { "大过"@ } else if l == 6 { "困"@ }
        else if l == 7 { "咸"@ } else { "萃"@ }
    } else if u == 3 {
        if l == 1 { "大有"@ } else if l == 2 { "睽"@ } else if l == 3 { "离"@ }
        else if l == 4 { "噬嗑"@ } else if l == 5 { "鼎"@ } else if l == 6 { "未济"@ }
        else if l == 7 { "旅"@ } else { "晋"@ }
    } else if u == 4 {
        if l == 1 { "大壮"@ } else if l == 2 { "归妹"@ } else if l == 3 { "丰"@ }
        else if l == 4 { "震"@ } else if l == 5 { "恒"@ } else if l == 6 { "解"@ }
        else if l == 7 { "小过"@ } else { "豫"@ }
    } else if u == 5 {
        if l == 1 { "小畜"@ } else if l == 2 { "中孚"@ } else if l == 3 { "家人"@ }
        else if l == 4 { "益"@ } else if l == 5 { "巽"@ } else if l == 6 { "涣"@ }
        else if l == 7 { "渐"@ } else { "观"@ }
    } else if u == 6 {
        if l == 1 { "需"@ } else if l == 2 { "节"@ } else if l == 3 { "既济"@ }
        else if l == 4 { "屯"@ } else if l == 5 { "井"@ } else if l == 6 { "坎"@ }
        else if l == 7 { "蹇"@ } else { "比"@ }
    } else if u == 7 {
        if l == 1 { "大畜"@ } else if l == 2 { "损"@ } else if l == 3 { "贲"@ }
        else if l == 4 { "颐"@ } else if l == 5 { "蛊"@ } else if l == 6 { "蒙"@ }
        else if l == 7 { "艮"@ } else { "剥"@ }
    } else {
        if l == 1 { "泰"@ } else if l == 2 { "临"@ } else if l == 3 { "明夷"@ }
        else if l == 4 { "复"@ } else if l == 5 { "升"@ } else if l == 6 { "师"@ }
        else if l == 7 { "谦"@ } else { "坤"@ }
    }
}

/// The canonical name of a hexagram.
pub open spec fn spec_gua64_name(g: Gua64) -> Seq<char> {
    spec_gua64_name_of_nums(spec_gua8_num(g.shang), spec_gua8_num(g.xia))
}

impl Gua64 {
    /// Build a hexagram from an upper and a lower trigram.
    pub fn new(shang: Gua8, xia: Gua8) -> (r: Gua64)
        ensures
            r.shang == shang,
            r.xia == xia,
    {
        Gua64 { shang, xia }
    }

    /// The line at `index`, counted bottom-to-top over both trigrams.
    pub fn yao(&self, index: Gua64YaoIndex) -> (r: crate::yao::Yao)
        ensures
            r == spec_gua64_yao(*self, spec_index_num(index)),
    {
        match index {
            Gua64YaoIndex::First => self.xia.first_yao,
            Gua64YaoIndex::Second => self.xia.second_yao,
            Gua64YaoIndex::Third => self.xia.third_yao,
            Gua64YaoIndex::Fourth => self.shang.first_yao,
            Gua64YaoIndex::Fifth => self.shang.second_yao,
            Gua64YaoIndex::Sixth => self.shang.third_yao,
        }
    }

    /// The nuclear hexagram, computed from this hexagram's own middle
    /// four lines; the receiver is never changed.
    pub fn hu_gua(&self) -> (r: Gua64)
        ensures
            r == spec_hu_gua(*self),
    {
        let shang = Gua8::new(
            self.yao(Gua64YaoIndex::Third),
            self.yao(Gua64YaoIndex::Fourth),
            self.yao(Gua64YaoIndex::Fifth),
        );
        let xia = Gua8::new(
            self.yao(Gua64YaoIndex::Second),
            self.yao(Gua64YaoIndex::Third),
            self.yao(Gua64YaoIndex::Fourth),
        );
        Gua64::new(shang, xia)
    }

    /// The six lines of this hexagram, bottom-to-top.
    pub fn yaos(&self) -> (r: Vec<crate::yao::Yao>)
        ensures
            r@.len() == 6,
            forall|i: int| 0 <= i < 6 ==> r@[i] == spec_gua64_yao(*self, i + 1),
    {
        let mut v: Vec<crate::yao::Yao> = Vec::new();
        v.push(self.xia.first_yao);
        v.push(self.xia.second_yao);
        v.push(self.xia.third_yao);
        v.push(self.shang.first_yao);
        v.push(self.shang.second_yao);
        v.push(self.shang.third_yao);
        v
    }

    /// The canonical name of the hexagram with the given upper and
    /// lower trigrams, from the 64-entry table.
    pub fn parse_name(shang: Gua8, xia: Gua8) -> (r: &'static str)
        ensures
            r@ == spec_gua64_name_of_nums(spec_gua8_num(shang), spec_gua8_num(xia)),
    {
        let u = shang.num();
        let l = xia.num();
        if u == 1 {
            if l == 1 { "乾" } else if l == 2 { "履" } else if l == 3 { "同人" }
            else if l == 4 { "无妄" } else if l == 5 { "姤" } else if l == 6 { "讼" }
            else if l == 7 { "遯" } else { "否" }
        } else if u == 2 {
            if l == 1 { "夬" } else if l == 2 { "兑" } else if l == 3 { "革" }
            else if l == 4 { "随" } else if l == 5 { "大过" } else if l == 6 { "困" }
            else if l == 7 { "咸" } else { "萃" }
        } else if u == 3 {
            if l == 1 { "大有" } else if l == 2 { "睽" } else if l == 3 { "离" }
            else if l == 4 { "噬嗑" } else if l == 5 { "鼎" } else if l == 6 { "未济" }
            else if l == 7 { "旅" } else { "晋" }
        } else if u == 4 {
            if l == 1 { "大壮" } else if l == 2 { "归妹" } else if l == 3 { "丰" }
            else if l == 4 { "震" } else if l == 5 { "恒" } else if l == 6 { "解" }
            else if l == 7 { "小过" } else { "豫" }
        } else if u == 5 {
            if l == 1 { "小畜" } else if l == 2 { "中孚" } else if l == 3 { "家人" }
            else if l == 4 { "益" } else if l == 5 { "巽" } else if l == 6 { "涣" }
            else if l == 7 { "渐" } else { "观" }
        } else if u == 6 {
            if l == 1 { "需" } else if l == 2 { "节" } else if l == 3 { "既济" }
            else if l == 4 { "屯" } else if l == 5 { "井" } else if l == 6 { "坎" }
            else if l == 7 { "蹇" } else { "比" }
        } else if u == 7 {
            if l == 1 { "大畜" } else if l == 2 { "损" } else if l == 3 { "贲" }
            else if l == 4 { "颐" } else if l == 5 { "蛊" } else if l == 6 { "蒙" }
            else if l == 7 { "艮" } else { "剥" }
        } else {
            if l == 1 { "泰" } else if l == 2 { "临" } else if l == 3 { "明夷" }
            else if l == 4 { "复" } else if l == 5 { "升" } else if l == 6 { "师" }
            else if l == 7 { "谦" } else { "坤" }
        }
    }

    /// The canonical name of this hexagram.
    pub fn name(&self) -> (r: &'static str)
        ensures
            r@ == spec_gua64_name(*self),
    {
        Gua64::parse_name(self.shang, self.xia)
    }

    /// The name of the hexagram together with its two trigram names.
    pub fn display(&self) -> (r: String)
        ensures
            r@ == spec_gua64_name(*self) + "（上卦："@ + spec_gua8_name(self.shang) + "，下卦："@
                + spec_gua8_name(self.xia) + "）"@,
    {
        let mut s = String::from_str(self.name());
        s.append("（上卦：");
        s.append(self.shang.name());
        s.append("，下卦：");
        s.append(self.xia.name());
        s.append("）");
        proof {
            assert(s@ =~= spec_gua64_name(*self) + "（上卦："@ + spec_gua8_name(self.shang)
                + "，下卦："@ + spec_gua8_name(self.xia) + "）"@);
        }
        s
    }

    /// Flip exactly the line at `index`, leaving the other five lines
    /// unchanged.
    pub fn change(&mut self, index: Gua64YaoIndex)
        ensures
            *final(self) == spec_gua64_change(*old(self), spec_index_num(index)),
    {
        match index {
            Gua64YaoIndex::First => self.xia.reverse(Gua8YaoIndex::First),
            Gua64YaoIndex::Second => self.xia.reverse(Gua8YaoIndex::Second),
            Gua64YaoIndex::Third => self.xia.reverse(Gua8YaoIndex::Third),
            Gua64YaoIndex::Fourth => self.shang.reverse(Gua8YaoIndex::First),
            Gua64YaoIndex::Fifth => self.shang.reverse(Gua8YaoIndex::Second),
            Gua64YaoIndex::Sixth => self.shang.reverse(Gua8YaoIndex::Third),
        }
    }
}

/// Changing line `i` flips exactly that line's polarity and agrees
/// with the original hexagram on the other five lines.
pub proof fn lemma_change_exactly_one_line(g: Gua64, i: int)
    requires
        1 <= i <= 6,
    ensures
        spec_gua64_yao(spec_gua64_change(g, i), i).status == !spec_gua64_yao(g, i).status,
        forall|j: int|
            1 <= j <= 6 && j != i ==> spec_gua64_yao(spec_gua64_change(g, i), j) == spec_gua64_yao(
                g,
                j,
            ),
{
}

/// Changing a line never gives back the hexagram it started from: the
/// flipped line differs.
pub proof fn lemma_change_ne(g: Gua64, i: int)
    requires
        1 <= i <= 6,
    ensures
        spec_gua64_change(g, i) != g,
{
    assert(spec_gua64_yao(spec_gua64_change(g, i), i).status == !spec_gua64_yao(g, i).status);
}

/// Changes of two distinct lines commute: each targets its own
/// independent line, so the order of application does not matter.
#[verifier::rlimit(60)]
pub proof fn lemma_change_commutes(g: Gua64, i: int, j: int)
    requires
        1 <= i <= 6,
        1 <= j <= 6,
        i != j,
    ensures
        spec_gua64_change(spec_gua64_change(g, i), j) == spec_gua64_change(
            spec_gua64_change(g, j),
            i,
        ),
{
}

/// The nuclear hexagram is built from the receiver's own lines {3,4,5}
/// (upper trigram) and {2,3,4} (lower trigram) alone; as a function of
/// the hexagram value it gives the same result on every call.
pub proof fn lemma_hu_gua_from_middle_lines(g: Gua64)
    ensures
        spec_hu_gua(g).shang == spec_gua8(
            spec_gua64_yao(g, 3).status,
            spec_gua64_yao(g, 4).status,
            spec_gua64_yao(g, 5).status,
        ),
        spec_hu_gua(g).xia == spec_gua8(
            spec_gua64_yao(g, 2).status,
            spec_gua64_yao(g, 3).status,
            spec_gua64_yao(g, 4).status,
        ),
{
}

/// The first and, where present, second character of a name, with its
/// length: enough to tell any two canonical hexagram names apart.
pub open spec fn spec_name_key(s: Seq<char>) -> (int, char, char) {
    (s.len() as int, s[0], if s.len() >= 2 {
        s[1]
    } else {
        s[0]
    })
}

/// The name lookup over hexagrams is injective: two hexagrams with the
/// same canonical name are the same ordered pair of trigrams. Together
/// with the totality of `spec_gua64_name` this makes the lookup a
/// bijection over all 64 ordered pairs.
pub proof fn lemma_gua64_name_injective(a: Gua64, b: Gua64)
    requires
        spec_gua64_name(a) == spec_gua64_name(b),
    ensures
        a == b,
{
    reveal_strlit("乾"); reveal_strlit("履"); reveal_strlit("同人"); reveal_strlit("无妄");
    reveal_strlit("姤"); reveal_strlit("讼"); reveal_strlit("遯"); reveal_strlit("否");
    reveal_strlit("夬"); reveal_strlit("兑"); reveal_strlit("革"); reveal_strlit("随");
    reveal_strlit("大过"); reveal_strlit("困"); reveal_strlit("咸"); reveal_strlit("萃");
    reveal_strlit("大有"); reveal_strlit("睽"); reveal_strlit("离"); reveal_strlit("噬嗑");
    reveal_strlit("鼎"); reveal_strlit("未济"); reveal_strlit("旅"); reveal_strlit("晋");
    reveal_strlit("大壮"); reveal_strlit("归妹"); reveal_strlit("丰"); reveal_strlit("震");
    reveal_strlit("恒"); reveal_strlit("解"); reveal_strlit("小过"); reveal_strlit("豫");
    reveal_strlit("小畜"); reveal_strlit("中孚"); reveal_strlit("家人"); reveal_strlit("益");
    reveal_strlit("巽"); reveal_strlit("涣"); reveal_strlit("渐"); reveal_strlit("观");
    reveal_strlit("需"); reveal_strlit("节"); reveal_strlit("既济"); reveal_strlit("屯");
    reveal_strlit("井"); reveal_strlit("坎"); reveal_strlit("蹇"); reveal_strlit("比");
    reveal_strlit("大畜"); reveal_strlit("损"); reveal_strlit("贲"); reveal_strlit("颐");
    reveal_strlit("蛊"); reveal_strlit("蒙"); reveal_strlit("艮"); reveal_strlit("剥");
    reveal_strlit("泰"); reveal_strlit("临"); reveal_strlit("明夷"); reveal_strlit("复");
    reveal_strlit("升"); reveal_strlit("师"); reveal_strlit("谦"); reveal_strlit("坤");
    let u1 = spec_gua8_num(a.shang);
    let l1 = spec_gua8_num(a.xia);
    let u2 = spec_gua8_num(b.shang);
    let l2 = spec_gua8_num(b.xia);
    assert(spec_name_key(spec_gua64_name_of_nums(u1, l1)) == spec_name_key(
        spec_gua64_name_of_nums(u2, l2),
    ));
    assert(u1 == u2 && l1 == l2);
    crate::gua8::lemma_gua8_num_bijective(a.shang, 1);
    crate::gua8::lemma_gua8_num_bijective(a.xia, 1);
    crate::gua8::lemma_gua8_num_bijective(b.shang, 1);
    crate::gua8::lemma_gua8_num_bijective(b.xia, 1);
}

} // verus!

