use mingbu::yinyang::YinYang;
use mingbu::wuxing::{WuXing, WuXingRelation};
use mingbu::trigram::Trigram;
use mingbu::dates::{DateTime, SolarDate, LunarDate, CelestialDate};
use mingbu::traits::Relationship;

#[test]
fn test_opposite_polarity() {
    assert_eq!(YinYang::Yang.opposite(), YinYang::Yin);
    assert_eq!(YinYang::Yin.opposite(), YinYang::Yang);
    assert_eq!(YinYang::Yang.opposite().opposite(), YinYang::Yang);
}

#[test]
fn test_phase_cycles() {
    assert_eq!(WuXing::Wood.generating(), WuXing::Fire);
    assert_eq!(WuXing::Water.generating(), WuXing::Wood);
    assert_eq!(WuXing::Wood.overcoming(), WuXing::Earth);
    assert_eq!(WuXing::Metal.overcoming(), WuXing::Wood);
    // Five applications of either cycle come back around.
    let mut w = WuXing::Wood;
    for _ in 0..5 {
        w = w.generating();
    }
    assert_eq!(w, WuXing::Wood);
}

#[test]
fn test_phase_relationships() {
    assert_eq!(WuXing::Wood.relationship_with(&WuXing::Fire), vec![WuXingRelation::Generating]);
    assert_eq!(WuXing::Fire.relationship_with(&WuXing::Wood), vec![
        WuXingRelation::BeingGenerated,
    ]);
    assert_eq!(WuXing::Wood.relationship_with(&WuXing::Earth), vec![WuXingRelation::Overcoming]);
    assert_eq!(WuXing::Earth.relationship_with(&WuXing::Wood), vec![
        WuXingRelation::BeingOvercome,
    ]);
    assert_eq!(WuXing::Wood.relationship_with(&WuXing::Wood), vec![WuXingRelation::Same]);
    assert_eq!(
        WuXing::Wood.from_relationship(WuXingRelation::Generating),
        Some(WuXing::Fire)
    );
}

#[test]
fn test_trigram_lines() {
    assert_eq!(Trigram::Qian.lines(), [YinYang::Yang, YinYang::Yang, YinYang::Yang]);
    assert_eq!(Trigram::Kun.lines(), [YinYang::Yin, YinYang::Yin, YinYang::Yin]);
    assert_eq!(Trigram::Kan.lines(), [YinYang::Yin, YinYang::Yang, YinYang::Yin]);
}

#[test]
fn test_date_carriers() {
    let dt = DateTime::new(2023, 6, 15, 10, 30);
    let solar = SolarDate::from_date_time(&dt);
    assert_eq!(solar.to_date_time(), dt);
    let lunar = LunarDate::new(2023, 5, 1, 6, false);
    assert_eq!(lunar.to_solar().year, 2023);
    let cel = CelestialDate::new(2023, 6, 15, 2, 15);
    assert_eq!(cel.zodiac_name(), "双子座");
    assert_eq!(cel.moon_phase_name(), "满月");
    assert_eq!(CelestialDate::from_date_time(&dt).zodiac_position, 0);
}
