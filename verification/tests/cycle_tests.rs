use mingbu::sexagesimal_cycle::SexagesimalCycle;
use mingbu::heavenly_stem::HeavenlyStem;
use mingbu::earthly_branch::EarthlyBranch;
use mingbu::twelve_stages::TwelveStages;
use mingbu::gan_zhi::GanZhi;
use mingbu::traits::{ChineseName, Iter};

#[test]
fn test_sexagesimal_cycle() {
    let cycle = SexagesimalCycle::new(HeavenlyStem::Jia, EarthlyBranch::Zi).unwrap();
    assert_eq!(cycle.chinese_name(), "甲子");

    let mut next = cycle.next();
    assert_eq!(next.chinese_name(), "乙丑");
    next = next.next();
    assert_eq!(next.chinese_name(), "丙寅");

    let mut prev = cycle.prev();
    assert_eq!(prev.chinese_name(), "癸亥");
    prev = prev.prev();
    assert_eq!(prev.chinese_name(), "壬戌");
}

#[test]
fn test_twelve_stages() {
    let stem = HeavenlyStem::Jia;
    let diwang_branch = EarthlyBranch::Mao;
    let stages = TwelveStages::get_twelve_stages(stem, diwang_branch);
    assert_eq!(stages.chinese_name(), "帝旺");

    let stages = TwelveStages::get_twelve_stages(stem, EarthlyBranch::Hai);
    assert_eq!(stages.chinese_name(), "长生");

    let stages = TwelveStages::from_chinese_name("长生");
    let next = stages.next();
    assert_eq!(next.chinese_name(), "沐浴");
    let prev = stages.prev();
    assert_eq!(prev.chinese_name(), "养");

    let stages = TwelveStages::from_chinese_name("长生");
    let branch = stages.get_earthly_branch(HeavenlyStem::Jia);
    assert_eq!(branch, EarthlyBranch::Hai);

    let stages = TwelveStages::from_chinese_name("帝旺");
    let stem = stages.get_heavenly_stem(EarthlyBranch::Mao);
    assert_eq!(stem, HeavenlyStem::Jia);
}

#[test]
fn test_pairing_rule() {
    // The constructors follow the polarity table, You among yang and
    // Xu among yin, which disagrees with cycle parity on those two
    // columns.
    assert!(SexagesimalCycle::new(HeavenlyStem::Jia, EarthlyBranch::Zi).is_ok());
    assert!(SexagesimalCycle::new(HeavenlyStem::Jia, EarthlyBranch::Chou).is_err());
    assert!(SexagesimalCycle::new(HeavenlyStem::Jia, EarthlyBranch::Xu).is_err());
    assert!(SexagesimalCycle::new(HeavenlyStem::Jia, EarthlyBranch::You).is_ok());
    assert!(GanZhi::new(HeavenlyStem::Jia, EarthlyBranch::Xu).is_err());
    assert!(GanZhi::new(HeavenlyStem::Ren, EarthlyBranch::Xu).is_err());
    assert!(GanZhi::new(HeavenlyStem::Yi, EarthlyBranch::Xu).is_ok());
}
