use mingbu::solar_time::{Solar, Lunar};

#[test]
fn test_solar_moment_fields() {
    let s = Solar::new(2023, 6, 15, 10, 30).unwrap();
    assert_eq!(s.detail(), (2023, 6, 15, 10, 30));
    assert!(!s.is_leap());
    let leap = Solar::new(2024, 2, 29, 0, 0).unwrap();
    assert!(leap.is_leap());
    // The outside calendar's pre-1600 rule keeps the plain
    // fourth-year leap.
    let old = Solar::new(1500, 2, 29, 0, 0).unwrap();
    assert!(old.is_leap());
}

#[test]
fn test_solar_moment_rejects_invalid() {
    assert!(Solar::new(2023, 2, 29, 0, 0).is_err());
    assert!(Solar::new(1582, 10, 10, 0, 0).is_err());
    assert!(Solar::new(2023, 13, 1, 0, 0).is_err());
    assert!(Solar::new(2023, 1, 1, 24, 0).is_err());
    assert!(Solar::new(0, 1, 1, 0, 0).is_err());
}

#[test]
fn test_solar_ordering_and_difference() {
    let a = Solar::new(2023, 6, 15, 10, 30).unwrap();
    let b = Solar::new(2023, 6, 16, 10, 31).unwrap();
    assert!(a.is_before(&b));
    assert!(b.is_after(&a));
    assert_eq!(b.difference_in_seconds(&a), 86400 + 60);
    assert_eq!(a.difference_in_seconds(&b), -(86400 + 60));
}

#[test]
fn test_solar_term_lookup() {
    // The outside calendar dates the great-snow term at this moment.
    let s = Solar::new(2023, 12, 7, 18, 0).unwrap();
    let (name, index) = s.get_term();
    assert_eq!(name, "大雪");
    assert_eq!(index, 0);
}

#[test]
fn test_lunar_conversion() {
    let s = Solar::new(2023, 6, 15, 10, 30).unwrap();
    let lunar = s.to_lunar();
    let (year, month, day, hour) = lunar.detail();
    assert_eq!(year, 2023);
    assert!((1..=12).contains(&month.abs()));
    assert!((1..=30).contains(&day));
    assert_eq!(hour, 10);
    let direct = Lunar::new(2023, 5, 1, 6, 0);
    assert!(direct.is_ok());
    assert!(Lunar::new(2023, 14, 1, 6, 0).is_err());
}
