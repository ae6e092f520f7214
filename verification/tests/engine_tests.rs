use mingbu::angle::{normalize_degree, get_degree_gap, MICRO_DEG, CIRCLE_MICRO_DEG};
use mingbu::calendar::{
    civil_to_julian_day_ut, julian_day_ut_to_civil, is_valid_civil, days_in_month,
    delta_t_fallback_for_year, MIN_JD_SEC, MAX_JD_SEC, SECONDS_PER_DAY,
};
use mingbu::calculate::{
    Calculate, BodyState, AngularPoints, CustomOrbitModel, OracleReply, HousesReply, INVALID,
    SE_FORTUNE, SE_ASC, SE_MC, SPEED_NORMAL, SPEED_REVERSE, SPEED_STATIONARY, SPEED_SLOW,
    SPEED_FAST,
};
use mingbu::ephemeris::{
    SwissEph, decode_diagnostic, decode_planet_name, decode_status, solar_longitude,
    SwissEphError, SE_SUN, SE_MOON, SEFLG_SWIEPH, SEFLG_SIDEREAL,
};
use mingbu::calculate::SPEED_INVISIBLE;

fn sample_points() -> AngularPoints {
    AngularPoints {
        ascendant: 123 * MICRO_DEG,
        midheaven: 33 * MICRO_DEG,
        armc: 40 * MICRO_DEG,
        vertex: 50 * MICRO_DEG,
        equatorial_ascendant: 60 * MICRO_DEG,
        co_ascendant_koch: 70 * MICRO_DEG,
        co_ascendant_munkasey: 80 * MICRO_DEG,
        polar_ascendant: 90 * MICRO_DEG,
        nadir: 100 * MICRO_DEG,
        zenith: 110 * MICRO_DEG,
    }
}

#[test]
fn test_calculate_initialization() {
    let calc = Calculate::new();
    assert_eq!(calc.get_julian_day_ut_value(), INVALID);
    assert_eq!(SPEED_NORMAL, 0);
}

#[test]
fn test_julian_day_calculation() {
    let calc = Calculate::new();
    let date = [2000, 1, 1, 12, 0];
    let jd = calc.get_julian_day_ut(&date);
    assert_eq!(jd, 2451545 * SECONDS_PER_DAY);
    assert_eq!(jd as f64 / 86400.0, 2451545.0);
}

#[test]
fn test_degree_normalization() {
    assert_eq!(normalize_degree(370 * MICRO_DEG), 10 * MICRO_DEG);
    assert_eq!(normalize_degree(-10 * MICRO_DEG), 350 * MICRO_DEG);
    assert_eq!(normalize_degree(360 * MICRO_DEG), 0);
}

#[test]
fn test_swiss_eph_creation() {
    let eph = SwissEph::new();
    assert!(eph.is_ok());
}

#[test]
fn test_constants() {
    assert_eq!(SE_SUN, 0);
    assert_eq!(SE_MOON, 1);
    assert_eq!(SEFLG_SIDEREAL, 16);
}

#[test]
fn test_civil_round_trip() {
    let cases = [
        (2000, 1, 1, 12, 0),
        (1582, 10, 4, 23, 59),
        (1582, 10, 15, 0, 0),
        (1, 1, 1, 0, 0),
        (9999, 12, 31, 23, 59),
        (1990, 5, 15, 10, 30),
        (2024, 2, 29, 6, 7),
    ];
    for &(y, m, d, h, mi) in cases.iter() {
        let jd = civil_to_julian_day_ut(y, m, d, h, mi);
        assert_eq!(julian_day_ut_to_civil(jd), (y, m, d, h, mi));
    }
}

#[test]
fn test_switch_over_boundary() {
    // The last Julian day and the first Gregorian day are one day
    // apart on the Julian-day axis even though the civil labels skip
    // ten days.
    let before = civil_to_julian_day_ut(1582, 10, 4, 0, 0);
    let after = civil_to_julian_day_ut(1582, 10, 15, 0, 0);
    assert_eq!(after - before, SECONDS_PER_DAY);
    // The skipped labels are not valid dates.
    assert!(!is_valid_civil(1582, 10, 5, 0, 0));
    assert!(!is_valid_civil(1582, 10, 14, 0, 0));
    assert!(is_valid_civil(1582, 10, 4, 0, 0));
    assert!(is_valid_civil(1582, 10, 15, 0, 0));
    // The Gregorian switch day carries the documented day number.
    assert_eq!(after, 2299161 * SECONDS_PER_DAY - 43200);
}

#[test]
fn test_days_in_month_rules() {
    assert_eq!(days_in_month(2000, 2), 29);
    assert_eq!(days_in_month(1900, 2), 28);
    assert_eq!(days_in_month(1500, 2), 29);
    assert_eq!(days_in_month(2023, 2), 28);
    assert_eq!(days_in_month(2023, 4), 30);
    assert_eq!(days_in_month(2023, 1), 31);
}

#[test]
fn test_angular_separation() {
    assert_eq!(get_degree_gap(350 * MICRO_DEG, 10 * MICRO_DEG), 20 * MICRO_DEG);
    assert_eq!(get_degree_gap(0, 180 * MICRO_DEG), 180 * MICRO_DEG);
}

#[test]
fn test_aspect_matrix() {
    let calc = Calculate::new();
    let f_pos = vec![0i64, 90 * MICRO_DEG];
    let t_pos = vec![0i64, 90 * MICRO_DEG];
    let degrees = vec![0i64, 60 * MICRO_DEG, 90 * MICRO_DEG];
    let tolerances = vec![5 * MICRO_DEG, 5 * MICRO_DEG, 5 * MICRO_DEG];
    let grid = calc.compute_aspects(&f_pos, &t_pos, &degrees, &tolerances);
    // The pair at 0 and 90 degrees selects the 90-degree aspect,
    // which stands third in the table.
    assert_eq!(grid[0][1], 3);
    assert_eq!(grid[1][0], 3);
    // The diagonal of a self-comparison is skipped.
    assert_eq!(grid[0][0], 0);
    assert_eq!(grid[1][1], 0);

    // A pair with no aspect within tolerance yields zero.
    let lone = vec![0i64];
    let target = vec![37 * MICRO_DEG];
    let grid2 = calc.compute_aspects(&lone, &target, &degrees, &tolerances);
    assert_eq!(grid2[0][0], 0);

    // An invalid-sentinel position is skipped.
    let with_invalid = vec![INVALID];
    let grid3 = calc.compute_aspects(&with_invalid, &t_pos, &degrees, &tolerances);
    assert_eq!(grid3[0][0], 0);
    assert_eq!(grid3[0][1], 0);
}

#[test]
fn test_first_match_wins() {
    let calc = Calculate::new();
    let f_pos = vec![0i64];
    let t_pos = vec![90 * MICRO_DEG];
    // Two table entries both cover the separation; the earlier wins.
    let degrees = vec![88 * MICRO_DEG, 90 * MICRO_DEG];
    let tolerances = vec![5 * MICRO_DEG, 5 * MICRO_DEG];
    let grid = calc.compute_aspects(&f_pos, &t_pos, &degrees, &tolerances);
    assert_eq!(grid[0][0], 1);
}

#[test]
fn test_oracle_failure_degrades_body() {
    let mut calc = Calculate::new();
    let date = [2000, 1, 1, 12, 0];
    assert!(calc.set_julian_day(&date, None));
    let reply = OracleReply::Failed(SwissEphError::CalculationFailed(String::from("no data")));
    let lon = calc.compute_single(0, &reply);
    assert_eq!(lon, INVALID);
    assert!(!calc.is_computed());
    assert!(!Calculate::is_valid(lon));
}

#[test]
fn test_oracle_success_resolves_body() {
    let mut calc = Calculate::new();
    let date = [2000, 1, 1, 12, 0];
    assert!(calc.set_julian_day(&date, None));
    let state = BodyState {
        longitude: 280 * MICRO_DEG,
        latitude: 0,
        distance: 983 * 10000,
        speed_longitude: 1017 * 1000,
        speed_latitude: 0,
        speed_distance: 0,
    };
    let lon = calc.compute_single(0, &OracleReply::Computed(state));
    assert_eq!(lon, 280 * MICRO_DEG);
    assert!(calc.is_computed());
    assert_eq!(calc.get_computation().speed_longitude, 1017 * 1000);
}

#[test]
fn test_houses_fallback_layout() {
    let mut calc = Calculate::new();
    let date = [2000, 1, 1, 12, 0];
    assert!(calc.set_julian_day(&date, None));
    let mut cusps = vec![0i64; 13];
    calc.compute_houses(&mut cusps, &HousesReply::Absent);
    for i in 0..12 {
        assert_eq!(cusps[i + 1], (i as i64) * 30 * MICRO_DEG);
    }
    assert!(calc.is_houses_degraded());
    let points = calc.get_angular_points();
    assert_eq!(points.ascendant, 0);
    assert_eq!(points.midheaven, 270 * MICRO_DEG);
}

#[test]
fn test_houses_success() {
    let mut calc = Calculate::new();
    let date = [2000, 1, 1, 12, 0];
    assert!(calc.set_julian_day(&date, None));
    let mut cusps = vec![0i64; 13];
    let mut reply_cusps = [0i64; 13];
    for i in 1..13 {
        reply_cusps[i] = (i as i64) * 17 * MICRO_DEG;
    }
    let reply = HousesReply::Computed { cusps: reply_cusps, points: sample_points() };
    calc.compute_houses(&mut cusps, &reply);
    assert!(!calc.is_houses_degraded());
    assert_eq!(cusps[5], 5 * 17 * MICRO_DEG);
    assert_eq!(calc.get_angular_points().ascendant, 123 * MICRO_DEG);
}

#[test]
fn test_location_change_invalidates() {
    let mut calc = Calculate::new();
    let date = [2000, 1, 1, 12, 0];
    assert!(calc.set_julian_day(&date, None));
    let state = BodyState {
        longitude: 10 * MICRO_DEG,
        latitude: 0,
        distance: MICRO_DEG,
        speed_longitude: 0,
        speed_latitude: 0,
        speed_distance: 0,
    };
    calc.compute_single(0, &OracleReply::Computed(state));
    assert!(calc.is_computed());
    calc.set_location(116 * MICRO_DEG, 40 * MICRO_DEG);
    assert!(!calc.is_computed());
    assert_eq!(calc.get_longitude(), 116 * MICRO_DEG);
    assert_eq!(calc.get_latitude(), 40 * MICRO_DEG);
}

#[test]
fn test_mode_change_invalidates() {
    let mut calc = Calculate::new();
    let date = [2000, 1, 1, 12, 0];
    assert!(calc.set_julian_day(&date, None));
    calc.compute_single(99, &OracleReply::Absent);
    assert!(calc.is_computed());
    calc.set_sidereal_mode(true);
    assert!(!calc.is_computed());
}

#[test]
fn test_fortune_point() {
    let mut calc = Calculate::new();
    let date = [2000, 1, 1, 12, 0];
    assert!(calc.set_julian_day(&date, None));
    let mut cusps = vec![0i64; 13];
    let reply = HousesReply::Computed { cusps: [0i64; 13], points: sample_points() };
    calc.compute_houses(&mut cusps, &reply);
    // Day chart: ascendant + (moon - sun) = 123 + (100 - 280) mod 360.
    calc.init_special(280 * MICRO_DEG, 100 * MICRO_DEG, true);
    let fortune = calc.compute_single(SE_FORTUNE, &OracleReply::Absent);
    assert_eq!(fortune, normalize_degree((123 - 180) * MICRO_DEG));
    // Night chart flips the arc.
    calc.init_special(280 * MICRO_DEG, 100 * MICRO_DEG, false);
    let fortune_night = calc.compute_single(SE_FORTUNE, &OracleReply::Absent);
    assert_eq!(fortune_night, normalize_degree((123 + 180) * MICRO_DEG));
    // Ascendant and midheaven read straight from the points.
    assert_eq!(calc.compute_single(SE_ASC, &OracleReply::Absent), 123 * MICRO_DEG);
    assert_eq!(calc.compute_single(SE_MC, &OracleReply::Absent), 33 * MICRO_DEG);
}

#[test]
fn test_fortune_requires_houses() {
    let mut calc = Calculate::new();
    let date = [2000, 1, 1, 12, 0];
    assert!(calc.set_julian_day(&date, None));
    calc.init_special(280 * MICRO_DEG, 100 * MICRO_DEG, true);
    // No house computation succeeded: the prerequisite is missing.
    let fortune = calc.compute_single(SE_FORTUNE, &OracleReply::Absent);
    assert_eq!(fortune, INVALID);
    assert!(!calc.is_computed());
}

#[test]
fn test_custom_orbit_model() {
    let mut calc = Calculate::new();
    let reference = civil_to_julian_day_ut(2000, 1, 1, 12, 0);
    calc.set_orbit_data(CustomOrbitModel {
        rate_per_day: 3 * MICRO_DEG,
        reference_day: reference,
        reference_longitude: 100 * MICRO_DEG,
        reference_latitude: MICRO_DEG / 2,
    });
    let date = [2000, 1, 11, 12, 0];
    assert!(calc.set_julian_day(&date, Some(0)));
    let lon = calc.compute_single(-1, &OracleReply::Absent);
    // Ten days at three degrees a day.
    assert_eq!(lon, 130 * MICRO_DEG);
    let state = calc.get_computation();
    assert_eq!(state.latitude, MICRO_DEG / 2);
    assert_eq!(state.speed_longitude, 3 * MICRO_DEG);
}

#[test]
fn test_unknown_body_zeroed() {
    let mut calc = Calculate::new();
    let date = [2000, 1, 1, 12, 0];
    assert!(calc.set_julian_day(&date, None));
    let lon = calc.compute_single(25, &OracleReply::Absent);
    assert_eq!(lon, 0);
    assert!(calc.is_computed());
    assert_eq!(calc.get_computation().speed_longitude, 0);
}

#[test]
fn test_out_of_window_day_is_refused() {
    let mut calc = Calculate::new();
    assert!(!calc.set_julian_day_value(MAX_JD_SEC + 1, None));
    assert!(!calc.set_julian_day_value(MIN_JD_SEC - 1, None));
    assert!(calc.set_julian_day_value(MIN_JD_SEC, None));
    let bad_date = [1582, 10, 10, 0, 0];
    let before = calc.get_julian_day_ut_value();
    assert!(!calc.set_julian_day(&bad_date, None));
    assert_eq!(calc.get_julian_day_ut_value(), before);
}

#[test]
fn test_delta_t_applied() {
    let mut calc = Calculate::new();
    let date = [2000, 1, 1, 12, 0];
    assert!(calc.set_julian_day(&date, Some(64)));
    assert_eq!(calc.get_julian_day_value(), calc.get_julian_day_ut_value() + 64);
    // The analytic fallback for the year 2000, to the second.
    assert_eq!(delta_t_fallback_for_year(2000), 36);
    assert!(calc.set_julian_day(&date, None));
    assert_eq!(calc.get_julian_day_value(), calc.get_julian_day_ut_value() + 36);
}

#[test]
fn test_classify_motion() {
    let mut calc = Calculate::new();
    calc.load_resource();
    // Body 0 thresholds: stationary below 0.05, slow below 0.1, fast
    // above 1.1 degrees per day.
    assert_eq!(calc.classify_motion(0, 10_000), SPEED_STATIONARY);
    assert_eq!(calc.classify_motion(0, -10_000), SPEED_STATIONARY);
    assert_eq!(calc.classify_motion(0, -200_000), SPEED_REVERSE);
    assert_eq!(calc.classify_motion(0, 70_000), SPEED_SLOW);
    assert_eq!(calc.classify_motion(0, 2_000_000), SPEED_FAST);
    assert_eq!(calc.classify_motion(0, 500_000), SPEED_NORMAL);
}

#[test]
fn test_speed_state_names() {
    let mut calc = Calculate::new();
    calc.load_resource();
    assert_eq!(calc.get_speed_state_name(SPEED_NORMAL, "-"), "-");
    assert_eq!(calc.get_speed_state_name(SPEED_REVERSE, "-"), "Reverse");
    assert_eq!(calc.get_speed_state_name_array().len(), 7);
}

#[test]
fn test_zodiac_lookup() {
    let mut calc = Calculate::new();
    calc.load_resource();
    assert_eq!(calc.get_zodiac(0, false), "Aries");
    assert_eq!(calc.get_zodiac(45 * MICRO_DEG, false), "Taurus");
    assert_eq!(calc.get_zodiac(359 * MICRO_DEG, false), "Pisces");
    assert_eq!(calc.get_elemental_index(45 * MICRO_DEG), 1);
    assert_eq!(calc.get_elemental_state_index(45 * MICRO_DEG), 1);
}

#[test]
fn test_house_system_codes() {
    let mut calc = Calculate::new();
    assert_eq!(calc.house_system_code(), b'P');
    calc.set_house_system_index(1);
    assert_eq!(calc.house_system_code(), b'K');
    calc.set_house_system_index(13);
    assert_eq!(calc.house_system_code(), b'W');
    calc.set_house_system_index(99);
    assert_eq!(calc.house_system_code(), b'P');
}

#[test]
fn test_misc_utilities() {
    let calc = Calculate::new();
    assert_eq!(Calculate::beijing_time(0), 8 * 3600);
    assert!(Calculate::is_valid(0));
    assert!(!Calculate::is_valid(INVALID));
    assert_eq!(calc.get_chinese_year(1984), 25);
    assert_eq!(calc.get_chinese_year(1900), 1);
    assert_eq!(calc.get_chinese_year(1899), 60);
    let from = [2000, 1, 1, 0, 0];
    let to = [2000, 1, 11, 12, 0];
    assert_eq!(calc.get_difference_in_days(&from, &to), 11);
    assert_eq!(calc.get_difference_in_days(&to, &from), -11);
}

#[test]
fn test_diagnostic_decoding() {
    let raw = b"data file missing\0garbage after nul";
    let text = decode_diagnostic(raw);
    assert_eq!(text, "data file missing");
    let masked = decode_diagnostic(&[72, 105, 7, 33, 0]);
    assert_eq!(masked, "Hi?!");
    match decode_status(-1, b"bad body\0") {
        Err(SwissEphError::CalculationFailed(msg)) => assert_eq!(msg, "bad body"),
        _ => panic!("a negative status must carry its diagnostic"),
    }
    assert!(decode_status(0, b"\0").is_ok());
    assert_eq!(SEFLG_SWIEPH, 2);
}

#[test]
fn test_solar_longitude() {
    let state = BodyState {
        longitude: 280 * MICRO_DEG,
        latitude: 0,
        distance: MICRO_DEG,
        speed_longitude: MICRO_DEG,
        speed_latitude: 0,
        speed_distance: 0,
    };
    match solar_longitude(OracleReply::Computed(state)) {
        Ok(longitude) => {
            assert!(longitude >= 0 && longitude < 360 * MICRO_DEG);
        }
        Err(_) => panic!("a computed reply must yield the longitude"),
    }
    // Without the ephemeris resource the query reports its absence.
    assert!(solar_longitude(OracleReply::Absent).is_err());
    let failed = OracleReply::Failed(SwissEphError::CalculationFailed(String::from("x")));
    assert!(solar_longitude(failed).is_err());
}

#[test]
fn test_classify_visibility() {
    let mut calc = Calculate::new();
    calc.load_resource();
    // Body 0 is invisible within five degrees of the Sun.
    assert_eq!(calc.classify_visibility(0, 3 * MICRO_DEG), SPEED_INVISIBLE);
    assert_eq!(calc.classify_visibility(0, -3 * MICRO_DEG), SPEED_INVISIBLE);
    assert_eq!(calc.classify_visibility(0, 20 * MICRO_DEG), SPEED_NORMAL);
}

#[test]
fn test_normalize_is_periodic() {
    for k in -3i64..4 {
        assert_eq!(normalize_degree(10 * MICRO_DEG + k * CIRCLE_MICRO_DEG), 10 * MICRO_DEG);
    }
}

#[test]
fn test_planet_name_decoding() {
    assert_eq!(decode_planet_name(b"mean Node\0rest").unwrap(), "mean Node");
    assert_eq!(decode_planet_name(b"Sun\0").unwrap(), "Sun");
    assert_eq!(decode_planet_name(b"\0").unwrap(), "");
    match decode_planet_name(&[83, 200, 0]) {
        Err(SwissEphError::CalculationFailed(m)) => assert_eq!(m, "invalid planet name"),
        _ => panic!("a byte outside ASCII must refuse the name"),
    }
}

#[test]
fn test_reference_table_contents() {
    let mut calc = Calculate::new();
    calc.load_resource();
    assert_eq!(calc.get_zodiac(0, true), "Aries");
    assert_eq!(calc.get_zodiac(280 * MICRO_DEG, false), "Capricorn");
    assert_eq!(calc.get_speed_state_name(SPEED_SLOW, "-"), "Slow");
    assert_eq!(calc.get_mountain(0), "23");
    assert_eq!(calc.get_mountain(23 * MICRO_DEG), "1");
}
