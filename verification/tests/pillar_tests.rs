use mingbu::pillars::{ba_zi_json, BaZi, DateTime, MingbuError};
use mingbu::gan_zhi::GanZhi;
use mingbu::heavenly_stem::HeavenlyStem;
use mingbu::earthly_branch::EarthlyBranch;
use mingbu::wuxing::WuXing;
use mingbu::traits::ChineseName;
use mingbu::qi_zheng::QiZhengPan;
use mingbu::calculate::{Calculate, INVALID};
use mingbu::angle::MICRO_DEG;

#[test]
fn test_ba_zi_json_structure() {
    let json_str = ba_zi_json(1990, 5, 15, 10).unwrap();
    let parsed: serde_json::Value = serde_json::from_str(&json_str).unwrap();

    assert!(parsed["year"].is_array());
    assert!(parsed["day_master"].is_string());
    assert_eq!(parsed["year"].as_array().unwrap().len(), 2);
}

#[test]
fn test_ba_zi_json_rejects_bad_date() {
    let err = ba_zi_json(1990, 13, 1, 10).unwrap_err();
    assert_eq!(err.code, "BAZI_ERROR");
    let err2 = ba_zi_json(1582, 10, 10, 0).unwrap_err();
    assert_eq!(err2.code, "BAZI_ERROR");
}

#[test]
fn test_known_day_pillar() {
    // 2000-01-01 is a wu-wu day of the cycle.
    let pillars = DateTime::from_solar_date(2000, 1, 1, 12).unwrap();
    let (_, _, day, _) = pillars.get_gan_zhi();
    assert_eq!(day.stem, HeavenlyStem::Wu);
    assert_eq!(day.branch, EarthlyBranch::Wu);
    // 1984 opens a cycle: a jia-zi year.
    let pillars84 = DateTime::from_solar_date(1984, 6, 1, 0).unwrap();
    let (year, _, _, _) = pillars84.get_gan_zhi();
    assert_eq!(year.stem, HeavenlyStem::Jia);
    assert_eq!(year.branch, EarthlyBranch::Zi);
}

#[test]
fn test_bazi_day_master() {
    let gz = |s, b| GanZhi::new(s, b).unwrap();
    let bazi = BaZi::from_gan_zhi(
        gz(HeavenlyStem::Jia, EarthlyBranch::Zi),
        gz(HeavenlyStem::Bing, EarthlyBranch::Yin),
        gz(HeavenlyStem::Geng, EarthlyBranch::Wu),
        gz(HeavenlyStem::Ding, EarthlyBranch::Hai),
    );
    assert_eq!(bazi.day_master, WuXing::Metal);
}

#[test]
fn test_gan_zhi_pairing() {
    assert!(GanZhi::new(HeavenlyStem::Jia, EarthlyBranch::Zi).is_ok());
    assert!(GanZhi::new(HeavenlyStem::Jia, EarthlyBranch::Chou).is_err());
    let gz = GanZhi::new(HeavenlyStem::Jia, EarthlyBranch::Zi).unwrap();
    assert_eq!(*gz.stem(), HeavenlyStem::Jia);
    assert_eq!(*gz.branch(), EarthlyBranch::Zi);
    let (sound_name, sound_wuxing) = gz.sound();
    assert_eq!(sound_name, "海中金");
    assert_eq!(sound_wuxing, WuXing::Metal);
}

#[test]
fn test_mingbu_error_fields() {
    let e = MingbuError { code: "X", message: String::from("y") };
    assert_eq!(e.code, "X");
    assert_eq!(e.message, "y");
}

#[test]
fn test_pillar_names_render() {
    let pillars = DateTime::from_solar_date(2000, 1, 1, 12).unwrap();
    let (_, _, day, _) = pillars.get_gan_zhi();
    assert_eq!(day.stem.chinese_name(), "戊");
    assert_eq!(day.branch.chinese_name(), "午");
}

#[test]
fn test_qi_zheng_positions() {
    let mut calc = Calculate::new();
    calc.load_resource();
    let mut positions = vec![0i64; 11];
    positions[0] = 280 * MICRO_DEG;
    positions[1] = 45 * MICRO_DEG;
    positions[2] = INVALID;
    let pan = QiZhengPan::from_positions(&calc, &positions);
    assert_eq!(pan.sun, "Capricorn");
    assert_eq!(pan.moon, "Taurus");
    // An unresolved body charts at the zero point.
    assert_eq!(pan.mercury, "Aries");
    assert_eq!(pan.star4, "Aries");
}
