use vstd::prelude::*;
use vstd::string::StringExecFns;
use crate::error::GuaError;
use crate::gua8::{Gua8, spec_gua8};
use crate::gua64::{Gua64, Gua64YaoIndex, spec_gua64_change, spec_hu_gua};
use crate::gua_result::{GuaResult, GuaResultStep};
use crate::yao::Yao;

verus! {

/// The classification of one cast line: stable or moving, yin or yang.
#[derive(Copy, Clone, Debug, PartialEq, Eq, Structural)]
pub enum LiuYaoType {
    /// A stable yin line.
    Yin,
    /// A stable yang line.
    Yang,
    /// A moving yin line.
    DongYin,
    /// A moving yang line.
    DongYang,
}

/// Whether a classified line's polarity is yang.
pub open spec fn spec_liu_yao_yang(t: LiuYaoType) -> bool {
    t == LiuYaoType::Yang || t == LiuYaoType::DongYang
}

/// Whether a classified line is moving.
pub open spec fn spec_liu_yao_dong(t: LiuYaoType) -> bool {
    t == LiuYaoType::DongYin || t == LiuYaoType::DongYang
}

/// The classification three drawn lines determine: a moving line of
/// the shared polarity when all three agree, else a stable line of the
/// majority polarity.
pub open spec fn spec_from_three_yao(yao1: Yao, yao2: Yao, yao3: Yao) -> LiuYaoType {
    if yao1.status && yao2.status && yao3.status {
        LiuYaoType::DongYang
    } else if !yao1.status && !yao2.status && !yao3.status {
        LiuYaoType::DongYin
    } else if (yao1.status && yao2.status) || (yao1.status && yao3.status) || (yao2.status
        && yao3.status) {
        LiuYaoType::Yang
    } else {
        LiuYaoType::Yin
    }
}

impl LiuYaoType {
    /// The line's polarity, moving or not.
    pub fn yao(self) -> (r: Yao)
        ensures
            r.status == spec_liu_yao_yang(self),
    {
        match self {
            LiuYaoType::Yin | LiuYaoType::DongYin => Yao::new(false),
            LiuYaoType::Yang | LiuYaoType::DongYang => Yao::new(true),
        }
    }

    /// Whether the line is moving.
    pub fn is_dong(self) -> (r: bool)
        ensures
            r == spec_liu_yao_dong(self),
    {
        match self {
            LiuYaoType::DongYin | LiuYaoType::DongYang => true,
            _ => false,
        }
    }

    /// The canonical name of the classification.
    pub fn name(self) -> (r: &'static str)
        ensures
            self == LiuYaoType::Yin ==> r@ == "阴"@,
            self == LiuYaoType::Yang ==> r@ == "阳"@,
            self == LiuYaoType::DongYin ==> r@ == "动阴"@,
            self == LiuYaoType::DongYang ==> r@ == "动阳"@,
    {
        match self {
            LiuYaoType::Yin => "阴",
            LiuYaoType::Yang => "阳",
            LiuYaoType::DongYin => "动阴",
            LiuYaoType::DongYang => "动阳",
        }
    }

    /// Classify from three drawn lines: three equal lines make a moving
    /// line of that polarity, otherwise the majority polarity wins and
    /// the line is stable.
    pub fn from_three_yao(yao1: Yao, yao2: Yao, yao3: Yao) -> (r: LiuYaoType)
        ensures
            r == spec_from_three_yao(yao1, yao2, yao3),
    {
        if yao1.is_yang() && yao2.is_yang() && yao3.is_yang() {
            LiuYaoType::DongYang
        } else if yao1.is_yin() && yao2.is_yin() && yao3.is_yin() {
            LiuYaoType::DongYin
        } else if (yao1.is_yang() && yao2.is_yang()) || (yao1.is_yang() && yao3.is_yang()) || (
        yao2.is_yang() && yao3.is_yang()) {
            LiuYaoType::Yang
        } else {
            LiuYaoType::Yin
        }
    }

    /// Classify from three independent random lines. Any of the four
    /// classifications may come back.
    pub fn random() -> LiuYaoType {
        LiuYaoType::from_three_yao(Yao::random_yao(), Yao::random_yao(), Yao::random_yao())
    }
}

/// The primary hexagram of six classified lines, bottom-to-top: lines
/// 1..=3 form the lower trigram, lines 4..=6 the upper one; only the
/// polarities matter.
pub open spec fn spec_ben_gua(
    first: LiuYaoType,
    second: LiuYaoType,
    third: LiuYaoType,
    fourth: LiuYaoType,
    fifth: LiuYaoType,
    sixth: LiuYaoType,
) -> Gua64 {
    Gua64 {
        shang: spec_gua8(
            spec_liu_yao_yang(fourth),
            spec_liu_yao_yang(fifth),
            spec_liu_yao_yang(sixth),
        ),
        xia: spec_gua8(
            spec_liu_yao_yang(first),
            spec_liu_yao_yang(second),
            spec_liu_yao_yang(third),
        ),
    }
}

/// The hexagram after every moving line of `ben` is flipped, applied
/// bottom-to-top.
pub open spec fn spec_bian_gua(
    ben: Gua64,
    first: LiuYaoType,
    second: LiuYaoType,
    third: LiuYaoType,
    fourth: LiuYaoType,
    fifth: LiuYaoType,
    sixth: LiuYaoType,
) -> Gua64 {
    let g1 = if spec_liu_yao_dong(first) {
        spec_gua64_change(ben, 1)
    } else {
        ben
    };
    let g2 = if spec_liu_yao_dong(second) {
        spec_gua64_change(g1, 2)
    } else {
        g1
    };
    let g3 = if spec_liu_yao_dong(third) {
        spec_gua64_change(g2, 3)
    } else {
        g2
    };
    let g4 = if spec_liu_yao_dong(fourth) {
        spec_gua64_change(g3, 4)
    } else {
        g3
    };
    let g5 = if spec_liu_yao_dong(fifth) {
        spec_gua64_change(g4, 5)
    } else {
        g4
    };
    if spec_liu_yao_dong(sixth) {
        spec_gua64_change(g5, 6)
    } else {
        g5
    }
}

/// Flipping the moving lines gives back the primary hexagram exactly
/// when no line is moving at all.
pub proof fn lemma_bian_gua_identity_iff_no_moving(
    ben: Gua64,
    first: LiuYaoType,
    second: LiuYaoType,
    third: LiuYaoType,
    fourth: LiuYaoType,
    fifth: LiuYaoType,
    sixth: LiuYaoType,
)
    ensures
        spec_bian_gua(ben, first, second, third, fourth, fifth, sixth) == ben <==> (!spec_liu_yao_dong(
            first,
        ) && !spec_liu_yao_dong(second) && !spec_liu_yao_dong(third) && !spec_liu_yao_dong(fourth)
            && !spec_liu_yao_dong(fifth) && !spec_liu_yao_dong(sixth)),
{
}

/// The primary hexagram of six classified lines, with the two
/// derivation steps that build it.
pub fn ben_gua(
    first: LiuYaoType,
    second: LiuYaoType,
    third: LiuYaoType,
    fourth: LiuYaoType,
    fifth: LiuYaoType,
    sixth: LiuYaoType,
) -> (r: (Gua64, Vec<GuaResultStep>))
    ensures
        r.0 == spec_ben_gua(first, second, third, fourth, fifth, sixth),
        r.1@.len() == 2,
{
    let mut steps: Vec<GuaResultStep> = Vec::new();

    let shang = Gua8::new(fourth.yao(), fifth.yao(), sixth.yao());
    let xia = Gua8::new(first.yao(), second.yao(), third.yao());

    let mut origin1 = String::from_str("上爻:");
    origin1.append(sixth.name());
    origin1.append(" 五爻:");
    origin1.append(fifth.name());
    origin1.append(" 四爻:");
    origin1.append(fourth.name());
    origin1.append(" 三爻:");
    origin1.append(third.name());
    origin1.append(" 二爻:");
    origin1.append(second.name());
    origin1.append(" 初爻:");
    origin1.append(first.name());
    let mut result1 = String::from_str("上卦:");
    result1.append(shang.name());
    result1.append(" 下卦:");
    result1.append(xia.name());
    steps.push(GuaResultStep::new(String::from_str("计算上卦和下卦"), origin1, result1));

    let ben = Gua64::new(shang, xia);

    let mut origin2 = String::from_str("上卦:");
    origin2.append(shang.name());
    origin2.append(" 下卦:");
    origin2.append(xia.name());
    let mut result2 = String::from_str("本卦:");
    result2.append(ben.name());
    steps.push(GuaResultStep::new(String::from_str("计算本卦"), origin2, result2));

    (ben, steps)
}

/// The transformed hexagram of six classified lines: every moving line
/// of the primary hexagram flipped; absent when the flipped hexagram
/// equals the primary one, which happens exactly when no line moves.
pub fn bian_gua(
    ben_gua: &Gua64,
    first: LiuYaoType,
    second: LiuYaoType,
    third: LiuYaoType,
    fourth: LiuYaoType,
    fifth: LiuYaoType,
    sixth: LiuYaoType,
) -> (r: Option<Gua64>)
    ensures
        spec_bian_gua(*ben_gua, first, second, third, fourth, fifth, sixth) == *ben_gua ==> r
            is None,
        spec_bian_gua(*ben_gua, first, second, third, fourth, fifth, sixth) != *ben_gua ==> r
            == Some(spec_bian_gua(*ben_gua, first, second, third, fourth, fifth, sixth)),
        r is None <==> (!spec_liu_yao_dong(first) && !spec_liu_yao_dong(second)
            && !spec_liu_yao_dong(third) && !spec_liu_yao_dong(fourth) && !spec_liu_yao_dong(fifth)
            && !spec_liu_yao_dong(sixth)),
{
    proof {
        lemma_bian_gua_identity_iff_no_moving(*ben_gua, first, second, third, fourth, fifth, sixth);
    }
    let mut bian = *ben_gua;
    if first.is_dong() {
        bian.change(Gua64YaoIndex::First);
    }
    if second.is_dong() {
        bian.change(Gua64YaoIndex::Second);
    }
    if third.is_dong() {
        bian.change(Gua64YaoIndex::Third);
    }
    if fourth.is_dong() {
        bian.change(Gua64YaoIndex::Fourth);
    }
    if fifth.is_dong() {
        bian.change(Gua64YaoIndex::Fifth);
    }
    if sixth.is_dong() {
        bian.change(Gua64YaoIndex::Sixth);
    }
    if *ben_gua == bian {
        None
    } else {
        Some(bian)
    }
}

/// Cast from six resolved line classifications, bottom-to-top: the
/// primary hexagram from the polarities, the transformed hexagram from
/// the moving lines (absent when none moves), and the nuclear hexagram
/// from the primary one. Four derivation steps are recorded.
pub fn liu_yao_to_gua(
    first: LiuYaoType,
    second: LiuYaoType,
    third: LiuYaoType,
    fourth: LiuYaoType,
    fifth: LiuYaoType,
    sixth: LiuYaoType,
) -> (r: GuaResult)
    ensures
        r.ben_gua == spec_ben_gua(first, second, third, fourth, fifth, sixth),
        spec_bian_gua(r.ben_gua, first, second, third, fourth, fifth, sixth) == r.ben_gua ==> r.bian_gua
            is None,
        spec_bian_gua(r.ben_gua, first, second, third, fourth, fifth, sixth) != r.ben_gua ==> r.bian_gua
            == Some(spec_bian_gua(r.ben_gua, first, second, third, fourth, fifth, sixth)),
        r.bian_gua is None <==> (!spec_liu_yao_dong(first) && !spec_liu_yao_dong(second)
            && !spec_liu_yao_dong(third) && !spec_liu_yao_dong(fourth) && !spec_liu_yao_dong(fifth)
            && !spec_liu_yao_dong(sixth)),
        r.hu_gua == spec_hu_gua(r.ben_gua),
        r.steps@.len() == 4,
{
    let (ben, mut steps) = ben_gua(first, second, third, fourth, fifth, sixth);

    let bian = bian_gua(&ben, first, second, third, fourth, fifth, sixth);

    let mut origin3 = String::from_str("本卦:");
    origin3.append(ben.display().as_str());
    let result3 = match &bian {
        None => String::from_str("不存在动爻, 没有变卦"),
        Some(b) => {
            let mut t = String::from_str("变卦:");
            t.append(b.display().as_str());
            t
        },
    };
    steps.push(GuaResultStep::new(String::from_str("计算变卦"), origin3, result3));

    let hu = ben.hu_gua();

    let mut origin4 = String::from_str("本卦:");
    origin4.append(ben.display().as_str());
    let mut result4 = String::from_str("互卦:");
    result4.append(hu.display().as_str());
    steps.push(GuaResultStep::new(String::from_str("计算互卦"), origin4, result4));

    let mut gua_result = GuaResult::new(ben, bian, hu);
    gua_result.steps = steps;
    gua_result
}

/// Cast from six line slots, bottom-to-top. Every slot must be
/// resolved; one unresolved slot rejects the whole cast and builds
/// nothing.
pub fn liu_yao_method(lines: [Option<LiuYaoType>; 6]) -> (r: Result<GuaResult, GuaError>)
    ensures
        r is Ok <==> (forall|i: int| 0 <= i < 6 ==> lines@[i] is Some),
        r is Err ==> r == Err::<GuaResult, GuaError>(GuaError::InvalidArgument),
        lines@[0] matches Some(a) ==> lines@[1] matches Some(b) ==> lines@[2] matches Some(c)
            ==> lines@[3] matches Some(d) ==> lines@[4] matches Some(e) ==> lines@[5] matches Some(
            f,
        ) ==> (r matches Ok(g) && g.ben_gua == spec_ben_gua(a, b, c, d, e, f) && (spec_bian_gua(
            g.ben_gua,
            a,
            b,
            c,
            d,
            e,
            f,
        ) == g.ben_gua ==> g.bian_gua is None) && (spec_bian_gua(g.ben_gua, a, b, c, d, e, f)
            != g.ben_gua ==> g.bian_gua == Some(spec_bian_gua(g.ben_gua, a, b, c, d, e, f)))
            && g.hu_gua == spec_hu_gua(g.ben_gua)),
{
    let first = match lines[0] {
        Some(t) => t,
        None => { return Err(GuaError::InvalidArgument) },
    };
    let second = match lines[1] {
        Some(t) => t,
        None => { return Err(GuaError::InvalidArgument) },
    };
    let third = match lines[2] {
        Some(t) => t,
        None => { return Err(GuaError::InvalidArgument) },
    };
    let fourth = match lines[3] {
        Some(t) => t,
        None => { return Err(GuaError::InvalidArgument) },
    };
    let fifth = match lines[4] {
        Some(t) => t,
        None => { return Err(GuaError::InvalidArgument) },
    };
    let sixth = match lines[5] {
        Some(t) => t,
        None => { return Err(GuaError::InvalidArgument) },
    };
    Ok(liu_yao_to_gua(first, second, third, fourth, fifth, sixth))
}

} // verus!
