use gua::error::GuaError;
use gua::gua64::Gua64;
use gua::gua8::Gua8;
use gua::liu_yao::{LiuYaoType, ben_gua, bian_gua, liu_yao_method, liu_yao_to_gua};
use gua::time::{hour_to_shi_chen, time_method, time_to_gua};
use gua::two_number::BaGuaCalculator;
use gua::yao::Yao;

fn g8(first: bool, second: bool, third: bool) -> Gua8 {
    Gua8::new(Yao::new(first), Yao::new(second), Yao::new(third))
}

fn qian() -> Gua8 {
    g8(true, true, true)
}

fn dui() -> Gua8 {
    g8(true, true, false)
}

fn li() -> Gua8 {
    g8(true, false, true)
}

fn zhen() -> Gua8 {
    g8(true, false, false)
}

fn xun() -> Gua8 {
    g8(false, true, true)
}

fn kan() -> Gua8 {
    g8(false, true, false)
}

fn gen() -> Gua8 {
    g8(false, false, true)
}

fn kun() -> Gua8 {
    g8(false, false, false)
}

#[test]
fn test_calculate_from_two_numbers() {
    let r1 = BaGuaCalculator::calculate_from_two_numbers(128, 33, 128 + 33);
    assert_eq!(r1.ben_gua, Gua64::new(kun(), qian()));
    assert_eq!(r1.bian_gua, Some(Gua64::new(kan(), qian())));
    assert_eq!(r1.hu_gua, Gua64::new(zhen(), dui()));

    let r2 = BaGuaCalculator::calculate_from_two_numbers(63, 49, 63 + 49);
    assert_eq!(r2.ben_gua, Gua64::new(gen(), qian()));
    assert_eq!(r2.bian_gua, Some(Gua64::new(li(), qian())));
    assert_eq!(r2.hu_gua, Gua64::new(zhen(), dui()));
}

#[test]
fn test_two_number_scenario_names() {
    // Scenario: 128, 33 and 161 give Tai, transformed Xu, nuclear Guimei.
    let r1 = BaGuaCalculator::calculate_from_two_numbers(128, 33, 161);
    assert_eq!(r1.ben_gua.name(), "泰");
    assert_eq!(r1.bian_gua.unwrap().name(), "需");
    assert_eq!(r1.hu_gua.name(), "归妹");

    // Scenario: 63, 49 and 112 give Dachu, transformed Dayou, nuclear Guimei.
    let r2 = BaGuaCalculator::calculate_from_two_numbers(63, 49, 112);
    assert_eq!(r2.ben_gua.name(), "大畜");
    assert_eq!(r2.bian_gua.unwrap().name(), "大有");
    assert_eq!(r2.hu_gua.name(), "归妹");
}

#[test]
fn test_two_number_steps_recorded() {
    let r = BaGuaCalculator::calculate_from_two_numbers(128, 33, 161);
    assert_eq!(r.steps.len(), 5);
    assert_eq!(r.steps[0].description, "计算上卦和下卦");
    assert_eq!(r.steps[1].description, "计算本卦");
    assert_eq!(r.steps[2].description, "计算变爻");
    assert_eq!(r.steps[3].description, "计算变卦");
    assert_eq!(r.steps[4].description, "计算互卦");
    assert_eq!(r.steps[2].result, "变爻为 161 % 6 = 5");
    assert_eq!(r.steps[0].origin, "数字一:128 数字二:33");
    assert_eq!(r.steps[0].result, "上卦为 128 % 8 = 8, 下卦为 33 % 8 = 1");
    assert_eq!(r.steps[1].result, "本卦:泰");
}

#[test]
fn test_liu_yao() {
    let first = LiuYaoType::Yang;
    let second = LiuYaoType::Yin;
    let third = LiuYaoType::DongYang;
    let fourth = LiuYaoType::DongYin;
    let fifth = LiuYaoType::Yang;
    let sixth = LiuYaoType::Yang;

    let (ben_gua_result, _) = ben_gua(first, second, third, fourth, fifth, sixth);

    let bian_gua_result = bian_gua(&ben_gua_result, first, second, third, fourth, fifth, sixth);

    let hu_gua_result = ben_gua_result.hu_gua();

    assert_eq!(ben_gua_result, Gua64::new(xun(), li()));
    assert_eq!(bian_gua_result.unwrap(), Gua64::new(qian(), zhen()));
    assert_eq!(hu_gua_result, Gua64::new(li(), kan()));

    let third = LiuYaoType::Yang;
    let fourth = LiuYaoType::Yin;

    let (ben_gua_result, _) = ben_gua(first, second, third, fourth, fifth, sixth);

    let bian_gua_result = bian_gua(&ben_gua_result, first, second, third, fourth, fifth, sixth);

    let hu_gua_result = ben_gua_result.hu_gua();

    assert_eq!(ben_gua_result, Gua64::new(xun(), li()));
    assert_eq!(bian_gua_result.is_none(), true);
    assert_eq!(hu_gua_result, Gua64::new(li(), kan()));
}

#[test]
fn test_liu_yao_scenario_names() {
    // Scenario: yang, yin, moving yang, moving yin, yang, yang give
    // Jiaren, transformed Wuwang, nuclear Weiji.
    let r = liu_yao_to_gua(
        LiuYaoType::Yang,
        LiuYaoType::Yin,
        LiuYaoType::DongYang,
        LiuYaoType::DongYin,
        LiuYaoType::Yang,
        LiuYaoType::Yang,
    );
    assert_eq!(r.ben_gua.name(), "家人");
    assert_eq!(r.bian_gua.unwrap().name(), "无妄");
    assert_eq!(r.hu_gua.name(), "未济");
    assert_eq!(r.steps.len(), 4);

    // Scenario: the same lines with none moving give Jiaren, no
    // transformed hexagram, nuclear Weiji.
    let r2 = liu_yao_to_gua(
        LiuYaoType::Yang,
        LiuYaoType::Yin,
        LiuYaoType::Yang,
        LiuYaoType::Yin,
        LiuYaoType::Yang,
        LiuYaoType::Yang,
    );
    assert_eq!(r2.ben_gua.name(), "家人");
    assert!(r2.bian_gua.is_none());
    assert_eq!(r2.hu_gua.name(), "未济");
}

#[test]
fn test_liu_yao_method_rejects_unresolved() {
    let all = [
        Some(LiuYaoType::Yang),
        Some(LiuYaoType::Yin),
        Some(LiuYaoType::DongYang),
        Some(LiuYaoType::DongYin),
        Some(LiuYaoType::Yang),
        Some(LiuYaoType::Yang),
    ];
    let r = liu_yao_method(all).unwrap();
    assert_eq!(r.ben_gua.name(), "家人");

    for hole in 0..6 {
        let mut lines = all;
        lines[hole] = None;
        assert_eq!(liu_yao_method(lines).unwrap_err(), GuaError::InvalidArgument);
    }
}

#[test]
fn test_from_three_yao_table() {
    let yang = Yao::new(true);
    let yin = Yao::new(false);
    assert_eq!(LiuYaoType::from_three_yao(yang, yang, yang), LiuYaoType::DongYang);
    assert_eq!(LiuYaoType::from_three_yao(yin, yin, yin), LiuYaoType::DongYin);
    assert_eq!(LiuYaoType::from_three_yao(yang, yin, yin), LiuYaoType::Yin);
    assert_eq!(LiuYaoType::from_three_yao(yin, yang, yin), LiuYaoType::Yin);
    assert_eq!(LiuYaoType::from_three_yao(yin, yin, yang), LiuYaoType::Yin);
    assert_eq!(LiuYaoType::from_three_yao(yin, yang, yang), LiuYaoType::Yang);
    assert_eq!(LiuYaoType::from_three_yao(yang, yin, yang), LiuYaoType::Yang);
    assert_eq!(LiuYaoType::from_three_yao(yang, yang, yin), LiuYaoType::Yang);
}

#[test]
fn test_liu_yao_type_basics() {
    assert!(LiuYaoType::DongYin.is_dong());
    assert!(LiuYaoType::DongYang.is_dong());
    assert!(!LiuYaoType::Yin.is_dong());
    assert!(!LiuYaoType::Yang.is_dong());
    assert!(LiuYaoType::Yang.yao().is_yang());
    assert!(LiuYaoType::DongYang.yao().is_yang());
    assert!(LiuYaoType::Yin.yao().is_yin());
    assert!(LiuYaoType::DongYin.yao().is_yin());
    assert_eq!(LiuYaoType::Yin.name(), "阴");
    assert_eq!(LiuYaoType::Yang.name(), "阳");
    assert_eq!(LiuYaoType::DongYin.name(), "动阴");
    assert_eq!(LiuYaoType::DongYang.name(), "动阳");
}

#[test]
fn test_random_helpers_smoke() {
    for _ in 0..64 {
        let y = Yao::random_yao();
        assert!(y.is_yang() || y.is_yin());
        let t = LiuYaoType::random();
        assert!(matches!(
            t,
            LiuYaoType::Yin | LiuYaoType::Yang | LiuYaoType::DongYin | LiuYaoType::DongYang
        ));
    }
}

#[test]
fn test_hour_to_shi_chen() {
    assert_eq!(hour_to_shi_chen(23), 1);
    assert_eq!(hour_to_shi_chen(0), 1);
    assert_eq!(hour_to_shi_chen(1), 2);
    assert_eq!(hour_to_shi_chen(2), 2);
    assert_eq!(hour_to_shi_chen(3), 3);
    assert_eq!(hour_to_shi_chen(4), 3);
    assert_eq!(hour_to_shi_chen(11), 7);
    assert_eq!(hour_to_shi_chen(12), 7);
    assert_eq!(hour_to_shi_chen(21), 12);
    assert_eq!(hour_to_shi_chen(22), 12);
}

#[test]
fn test_time_to_gua_known_ordinals() {
    // Branch 5 (a chen year), first month, first day, first period:
    // 5 + 1 + 1 = 7 and 7 + 1 = 8 give Bo; the change line is
    // remainder-fullness of 15 by 6, line 3, giving Gen; the nuclear
    // hexagram is Kun.
    let r = time_to_gua(5, 1, 1, 1);
    assert_eq!(r.ben_gua, Gua64::new(gen(), kun()));
    assert_eq!(r.ben_gua.name(), "剥");
    assert_eq!(r.bian_gua, Some(Gua64::new(gen(), gen())));
    assert_eq!(r.hu_gua, Gua64::new(kun(), kun()));
    assert_eq!(r.steps.len(), 5);
}

#[test]
fn test_time_method_known_date() {
    // 2024-02-10 is the first day of the first lunar month of a chen
    // year (branch 5), so the ordinals are 5, 1 and 1; at hour 0 the
    // branch period is 1. If the calendar conversion were wrong, the
    // hexagrams would differ.
    let r = time_method(2024, 2, 10, 0).unwrap();
    assert_eq!(r.ben_gua.name(), "剥");
    assert_eq!(r.bian_gua.unwrap().name(), "艮");
    assert_eq!(r.hu_gua.name(), "坤");

    // Hour 23 falls in the same first branch period as hour 0.
    let r23 = time_method(2024, 2, 10, 23).unwrap();
    assert_eq!(r23.ben_gua, r.ben_gua);
    assert_eq!(r23.bian_gua, r.bian_gua);
    assert_eq!(r23.hu_gua, r.hu_gua);
}

#[test]
fn test_time_method_rejects_bad_input() {
    assert_eq!(time_method(2024, 2, 10, 24).unwrap_err(), GuaError::InvalidArgument);
    // A date far outside the supported lunar range.
    assert!(time_method(3000, 1, 1, 0).is_err());
    // An impossible calendar date.
    assert!(time_method(2024, 13, 40, 0).is_err());
}

#[test]
fn test_gua_result_shape() {
    let r = BaGuaCalculator::calculate_from_two_numbers(1, 2, 3);
    // The transformed hexagram of the numeric method always exists and
    // always differs from the primary hexagram.
    assert!(r.bian_gua.is_some());
    assert_ne!(r.bian_gua.unwrap(), r.ben_gua);
    assert_eq!(r.steps.len(), 5);
}
