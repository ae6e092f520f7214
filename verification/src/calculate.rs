//! The computation context and engine: one mutable state per chart.
//!
//! The engine never crosses the native boundary itself. Every oracle
//! outcome reaches it as a typed reply value ([`OracleReply`],
//! [`HousesReply`]), and each operation states exactly how the context
//! moves for every possible reply, so oracle failure and absence are
//! part of the verified state machine rather than exceptional paths.

use vstd::prelude::*;
use crate::angle::{normalize_degree, get_degree_gap, spec_degree_gap, MICRO_DEG, CIRCLE_MICRO_DEG};
use crate::calendar::{
    civil_to_julian_day_ut, julian_day_ut_to_civil, spec_valid_civil, spec_civil_to_jd_sec,
    lemma_valid_civil_in_window, MIN_JD_SEC, MAX_JD_SEC,
};
use crate::ephemeris::{SwissEphError, SEFLG_SWIEPH, SEFLG_MOSEPH, SEFLG_TOPOCTR, SEFLG_SIDEREAL};

verus! {

/// Sentinel for an angle or instant that has not been computed.
pub const INVALID: i64 = i64::MIN;

/// First body code of the synthetic-point range.
pub const SE_START: i32 = 1000;

/// Body code of the Fortune point.
pub const SE_FORTUNE: i32 = 1000;

/// Body code of the Ascendant.
pub const SE_ASC: i32 = 1001;

/// Body code of the Midheaven.
pub const SE_MC: i32 = 1002;

/// Last body code of the synthetic-point range.
pub const SE_END: i32 = 1002;

/// Motion state: ordinary direct motion.
pub const SPEED_NORMAL: i32 = 0;

/// Motion state: retrograde.
pub const SPEED_REVERSE: i32 = 1;

/// Motion state: eclipsed.
pub const SPEED_ECLIPSE: i32 = 2;

/// Motion state: stationary, inside the body's stationary gap.
pub const SPEED_STATIONARY: i32 = 3;

/// Visibility state: lost in the Sun's glare.
pub const SPEED_INVISIBLE: i32 = 4;

/// Motion state: slower than the body's slow band.
pub const SPEED_SLOW: i32 = 5;

/// Motion state: faster than the body's fast band.
pub const SPEED_FAST: i32 = 6;

/// A resolved position: longitude, latitude, distance and their
/// daily rates, in the engine's fixed-point units.
#[derive(Clone, Copy)]
pub struct BodyState {
    pub longitude: i64,
    pub latitude: i64,
    pub distance: i64,
    pub speed_longitude: i64,
    pub speed_latitude: i64,
    pub speed_distance: i64,
}

impl BodyState {
    /// A longitude handed to or out of the engine is either the
    /// invalid sentinel or normalized.
    pub open spec fn wf(self) -> bool {
        0 <= self.longitude < CIRCLE_MICRO_DEG || self.longitude == INVALID
    }

    /// The all-zero state that unknown bodies resolve to.
    pub open spec fn spec_zeroed() -> BodyState {
        BodyState {
            longitude: 0,
            latitude: 0,
            distance: 0,
            speed_longitude: 0,
            speed_latitude: 0,
            speed_distance: 0,
        }
    }
}

/// Observer position.
#[derive(Clone, Copy)]
pub struct Location {
    pub longitude: i64,
    pub latitude: i64,
    /// Meaningful only while topocentric mode is on.
    pub altitude: i64,
}

/// The ten angular points a house computation produces.
#[derive(Clone, Copy)]
pub struct AngularPoints {
    pub ascendant: i64,
    pub midheaven: i64,
    pub armc: i64,
    pub vertex: i64,
    pub equatorial_ascendant: i64,
    pub co_ascendant_koch: i64,
    pub co_ascendant_munkasey: i64,
    pub polar_ascendant: i64,
    pub nadir: i64,
    pub zenith: i64,
}

impl AngularPoints {
    pub open spec fn wf(self) -> bool {
        &&& (0 <= self.ascendant < CIRCLE_MICRO_DEG || self.ascendant == INVALID)
        &&& (0 <= self.midheaven < CIRCLE_MICRO_DEG || self.midheaven == INVALID)
    }

    /// All points unset.
    pub open spec fn spec_unset() -> AngularPoints {
        AngularPoints {
            ascendant: INVALID,
            midheaven: INVALID,
            armc: INVALID,
            vertex: INVALID,
            equatorial_ascendant: INVALID,
            co_ascendant_koch: INVALID,
            co_ascendant_munkasey: INVALID,
            polar_ascendant: INVALID,
            nadir: INVALID,
            zenith: INVALID,
        }
    }
}

/// Parameters of the linear model for bodies the oracle does not
/// carry: a constant drift from a reference position.
#[derive(Clone, Copy)]
pub struct CustomOrbitModel {
    /// Longitude drift in micro-degrees per day.
    pub rate_per_day: i64,
    /// Reference instant, seconds on the Julian-day axis (ephemeris time).
    pub reference_day: i64,
    /// Longitude at the reference instant.
    pub reference_longitude: i64,
    /// Constant latitude of the model.
    pub reference_latitude: i64,
}

/// What the oracle boundary handed back for one body query.
pub enum OracleReply {
    /// No oracle resource is available in this process.
    Absent,
    /// The oracle computed the position.
    Computed(BodyState),
    /// The oracle returned a negative status.
    Failed(SwissEphError),
}

impl OracleReply {
    pub open spec fn wf(self) -> bool {
        self matches OracleReply::Computed(b) ==> (b.wf() && b.longitude != INVALID)
    }
}

/// What the oracle boundary handed back for a house query: twelve
/// cusps (slot 0 of the buffer is unused by convention) and the ten
/// angular points.
pub enum HousesReply {
    Absent,
    Computed { cusps: [i64; 13], points: AngularPoints },
    Failed(SwissEphError),
}

impl HousesReply {
    pub open spec fn wf(self) -> bool {
        self matches HousesReply::Computed { cusps, points } ==> (points.wf()
            && points.ascendant != INVALID && points.midheaven != INVALID)
    }
}

/// The computation context: the central mutable state, one per chart.
pub struct Calculate {
    house_system_index: i32,
    julian_day_ut: i64,
    julian_day: i64,
    computed: bool,
    day_fortune_mode: bool,
    sidereal_mode: bool,
    ephe_flag: i32,
    sun_pos: i64,
    moon_pos: i64,
    location: Location,
    computation: BodyState,
    ascmc: AngularPoints,
    orbit_data: CustomOrbitModel,
    houses_degraded: bool,
    sidereal_correction: i64,
    sidereal_correction_known: bool,
    mountain_offset: i64,
    stationary_gap: Vec<i64>,
    invisible_gap: Vec<i64>,
    slow_speed: Vec<i64>,
    fast_speed: Vec<i64>,
    zodiac: Vec<String>,
    full_zodiac: Vec<String>,
    zodiac_name: Vec<String>,
    speed_state: Vec<String>,
    mountain_name: Vec<String>,
    house_system_char: Vec<u8>,
}

impl Calculate {
    /// The structural invariant every operation preserves: the
    /// ephemeris-time day is defined exactly when the universal-time
    /// day is set, the set day lies in the supported window, cached
    /// longitudes are normalized or unset, and the backend mode bits
    /// are mutually exclusive.
    pub closed spec fn wf(self) -> bool {
        &&& self.wf_core()
        &&& (self.julian_day_ut == INVALID) == (self.julian_day == INVALID)
        &&& self.julian_day_ut != INVALID ==> MIN_JD_SEC <= self.julian_day_ut <= MAX_JD_SEC
    }

    /// The part of the invariant that does not tie the two day fields
    /// together: it alone carries a body resolution, whose callers may
    /// hold a temporarily re-pointed universal-time day.
    pub closed spec fn wf_core(self) -> bool {
        &&& self.computation.wf()
        &&& self.ascmc.wf()
        &&& 0 <= self.sun_pos < CIRCLE_MICRO_DEG
        &&& 0 <= self.moon_pos < CIRCLE_MICRO_DEG
        &&& 0 <= self.sidereal_correction < CIRCLE_MICRO_DEG
        &&& 0 <= self.mountain_offset < CIRCLE_MICRO_DEG
        &&& self.julian_day != INVALID ==> MIN_JD_SEC - 86400 <= self.julian_day <= MAX_JD_SEC
            + 86400
        &&& 0 <= self.orbit_data.reference_longitude < CIRCLE_MICRO_DEG
        &&& MIN_JD_SEC <= self.orbit_data.reference_day <= MAX_JD_SEC
        &&& (self.ephe_flag & SEFLG_SWIEPH == 0) || (self.ephe_flag & SEFLG_MOSEPH == 0)
    }

    /// A well-formed context satisfies the core invariant.
    pub proof fn lemma_wf_core(self)
        requires
            self.wf(),
        ensures
            self.wf_core(),
    {
    }

    /// What well-formedness guarantees to every reader: the
    /// ephemeris-time day is defined exactly when the universal-time
    /// day is set and then carries its Delta-T offset within a day,
    /// the set day lies in the supported window, and every cached
    /// longitude is the invalid sentinel or normalized.
    pub proof fn lemma_wf_invariants(self)
        requires
            self.wf(),
        ensures
            (self.spec_julian_day_ut() == INVALID) == (self.spec_julian_day() == INVALID),
            self.spec_julian_day_ut() != INVALID ==> MIN_JD_SEC <= self.spec_julian_day_ut()
                <= MAX_JD_SEC,
            self.spec_computation().longitude == INVALID || 0 <= self.spec_computation().longitude
                < CIRCLE_MICRO_DEG,
            self.spec_angular_points().ascendant == INVALID || 0 <= self.spec_angular_points().ascendant
                < CIRCLE_MICRO_DEG,
            self.spec_angular_points().midheaven == INVALID || 0 <= self.spec_angular_points().midheaven
                < CIRCLE_MICRO_DEG,
            0 <= self.spec_sun_pos() < CIRCLE_MICRO_DEG,
            0 <= self.spec_moon_pos() < CIRCLE_MICRO_DEG,
    {
    }

    /// Whether the name tables and speed thresholds are loaded.
    pub closed spec fn resources_loaded(self) -> bool {
        &&& self.zodiac.len() == 12
        &&& self.full_zodiac.len() == 12
        &&& self.zodiac_name.len() == 12
        &&& self.speed_state.len() == 7
        &&& self.mountain_name.len() == 24
        &&& self.house_system_char.len() == 14
        &&& self.stationary_gap.len() == self.invisible_gap.len()
        &&& self.stationary_gap.len() == self.slow_speed.len()
        &&& self.stationary_gap.len() == self.fast_speed.len()
    }

    pub closed spec fn spec_julian_day_ut(self) -> i64 {
        self.julian_day_ut
    }

    pub closed spec fn spec_julian_day(self) -> i64 {
        self.julian_day
    }

    pub closed spec fn spec_computed(self) -> bool {
        self.computed
    }

    pub closed spec fn spec_computation(self) -> BodyState {
        self.computation
    }

    pub closed spec fn spec_location(self) -> Location {
        self.location
    }

    pub closed spec fn spec_angular_points(self) -> AngularPoints {
        self.ascmc
    }

    pub closed spec fn spec_orbit_model(self) -> CustomOrbitModel {
        self.orbit_data
    }

    pub closed spec fn spec_sidereal_mode(self) -> bool {
        self.sidereal_mode
    }

    pub closed spec fn spec_day_fortune_mode(self) -> bool {
        self.day_fortune_mode
    }

    pub closed spec fn spec_sun_pos(self) -> i64 {
        self.sun_pos
    }

    pub closed spec fn spec_moon_pos(self) -> i64 {
        self.moon_pos
    }

    pub closed spec fn spec_houses_degraded(self) -> bool {
        self.houses_degraded
    }

    pub closed spec fn spec_house_system_index(self) -> i32 {
        self.house_system_index
    }

    pub closed spec fn spec_ephe_flag(self) -> i32 {
        self.ephe_flag
    }

    /// A fresh context: no day set, nothing computed, tropical
    /// geocentric mode on the standard backend.
    pub fn new() -> (r: Calculate)
        ensures
            r.wf(),
            r.spec_julian_day_ut() == INVALID,
            !r.spec_computed(),
            !r.spec_sidereal_mode(),
            !r.spec_day_fortune_mode(),
            r.spec_ephe_flag() == SEFLG_SWIEPH,
            r.spec_house_system_index() == 0,
            r.spec_angular_points() == AngularPoints::spec_unset(),
            r.spec_location().longitude == 0 && r.spec_location().latitude == 0
                && r.spec_location().altitude == 0,
            !r.spec_houses_degraded(),
    {
        proof {
            assert(2i32 & 4i32 == 0) by (bit_vector);
        }
        Calculate {
            house_system_index: 0,
            julian_day_ut: INVALID,
            julian_day: INVALID,
            computed: false,
            day_fortune_mode: false,
            sidereal_mode: false,
            ephe_flag: SEFLG_SWIEPH,
            sun_pos: 0,
            moon_pos: 0,
            location: Location { longitude: 0, latitude: 0, altitude: 0 },
            computation: BodyState {
                longitude: INVALID,
                latitude: 0,
                distance: 0,
                speed_longitude: 0,
                speed_latitude: 0,
                speed_distance: 0,
            },
            ascmc: AngularPoints {
                ascendant: INVALID,
                midheaven: INVALID,
                armc: INVALID,
                vertex: INVALID,
                equatorial_ascendant: INVALID,
                co_ascendant_koch: INVALID,
                co_ascendant_munkasey: INVALID,
                polar_ascendant: INVALID,
                nadir: INVALID,
                zenith: INVALID,
            },
            orbit_data: CustomOrbitModel {
                rate_per_day: 0,
                reference_day: MIN_JD_SEC,
                reference_longitude: 0,
                reference_latitude: 0,
            },
            houses_degraded: false,
            sidereal_correction: 0,
            sidereal_correction_known: false,
            mountain_offset: 0,
            stationary_gap: Vec::new(),
            invisible_gap: Vec::new(),
            slow_speed: Vec::new(),
            fast_speed: Vec::new(),
            zodiac: Vec::new(),
            full_zodiac: Vec::new(),
            zodiac_name: Vec::new(),
            speed_state: Vec::new(),
            mountain_name: Vec::new(),
            house_system_char: Vec::new(),
        }
    }

    /// Choose between the standard and the analytic fallback backend,
    /// keeping the topocentric bit: the two backend bits never
    /// coexist. A mode change invalidates the last computation.
    pub fn set_eph_mode(&mut self, use_moseph: bool)
        requires
            old(self).wf(),
        ensures
            final(self).wf(),
            use_moseph ==> final(self).spec_ephe_flag() == SEFLG_MOSEPH | (old(self).spec_ephe_flag() & SEFLG_TOPOCTR),
            !use_moseph ==> final(self).spec_ephe_flag() == SEFLG_SWIEPH | (old(self).spec_ephe_flag() & SEFLG_TOPOCTR),
            final(self).spec_sidereal_mode() == old(self).spec_sidereal_mode(),
            !final(self).spec_computed(),
            final(self).spec_julian_day_ut() == old(self).spec_julian_day_ut(),
            final(self).spec_julian_day() == old(self).spec_julian_day(),
            final(self).spec_location() == old(self).spec_location(),
    {
        let f = self.ephe_flag;
        let topo = f & SEFLG_TOPOCTR;
        proof {
            assert((4i32 | (f & 8i32)) & 2i32 == 0) by (bit_vector);
            assert((2i32 | (f & 8i32)) & 4i32 == 0) by (bit_vector);
        }
        if use_moseph {
            self.ephe_flag = SEFLG_MOSEPH | topo;
        } else {
            self.ephe_flag = SEFLG_SWIEPH | topo;
        }
        self.computed = false;
    }

    /// Whether the analytic fallback backend is selected.
    pub fn get_eph_mode(&self) -> (r: bool)
        ensures
            r == (self.spec_ephe_flag() & SEFLG_MOSEPH == SEFLG_MOSEPH),
    {
        self.ephe_flag & SEFLG_MOSEPH == SEFLG_MOSEPH
    }

    /// Toggle topocentric mode; turning it off clears the stored
    /// altitude. A mode change invalidates the last computation.
    pub fn set_topocentric_mode(&mut self, override_val: bool, val: bool)
        requires
            old(self).wf(),
        ensures
            final(self).wf(),
            (override_val && val) ==> final(self).spec_ephe_flag() == (old(self).spec_ephe_flag()
                | SEFLG_TOPOCTR),
            !(override_val && val) ==> (final(self).spec_ephe_flag() == (old(self).spec_ephe_flag()
                & !SEFLG_TOPOCTR) && final(self).spec_location().altitude == 0),
            final(self).spec_sidereal_mode() == old(self).spec_sidereal_mode(),
            final(self).spec_location().longitude == old(self).spec_location().longitude,
            final(self).spec_location().latitude == old(self).spec_location().latitude,
            !final(self).spec_computed(),
            final(self).spec_julian_day_ut() == old(self).spec_julian_day_ut(),
            final(self).spec_julian_day() == old(self).spec_julian_day(),
    {
        let f = self.ephe_flag;
        proof {
            assert(((f & 2i32 == 0) ==> ((f | 8i32) & 2i32 == 0)) && ((f & 4i32 == 0) ==> ((f
                | 8i32) & 4i32 == 0))) by (bit_vector);
            assert(((f & 2i32 == 0) ==> ((f & !8i32) & 2i32 == 0)) && ((f & 4i32 == 0) ==> ((f
                & !8i32) & 4i32 == 0))) by (bit_vector);
        }
        if override_val && val {
            self.ephe_flag = f | SEFLG_TOPOCTR;
        } else {
            self.ephe_flag = f & !SEFLG_TOPOCTR;
            self.location.altitude = 0;
        }
        self.computed = false;
    }

    /// Toggle sidereal longitudes. A mode change invalidates the last
    /// computation.
    pub fn set_sidereal_mode(&mut self, on: bool)
        requires
            old(self).wf(),
        ensures
            final(self).wf(),
            final(self).spec_sidereal_mode() == on,
            !final(self).spec_computed(),
            final(self).spec_julian_day_ut() == old(self).spec_julian_day_ut(),
            final(self).spec_julian_day() == old(self).spec_julian_day(),
            final(self).spec_ephe_flag() == old(self).spec_ephe_flag(),
    {
        self.sidereal_mode = on;
        self.computed = false;
    }

    /// Move the observer. Moving invalidates the last computation, so
    /// a stale position can never be read against a new place.
    pub fn set_location(&mut self, longitude: i64, latitude: i64)
        requires
            old(self).wf(),
        ensures
            final(self).wf(),
            final(self).spec_location().longitude == longitude,
            final(self).spec_location().latitude == latitude,
            final(self).spec_location().altitude == old(self).spec_location().altitude,
            !final(self).spec_computed(),
            final(self).spec_julian_day_ut() == old(self).spec_julian_day_ut(),
            final(self).spec_julian_day() == old(self).spec_julian_day(),
    {
        self.location.longitude = longitude;
        self.location.latitude = latitude;
        self.computed = false;
    }

    /// Move the observer, reading longitude and latitude from a
    /// two-or-longer array; shorter input changes nothing.
    pub fn set_location_from_array(&mut self, loc: &Vec<i64>)
        requires
            old(self).wf(),
        ensures
            final(self).wf(),
            loc@.len() >= 2 ==> (final(self).spec_location().longitude == loc@[0]
                && final(self).spec_location().latitude == loc@[1] && !final(self).spec_computed()),
            loc@.len() < 2 ==> *final(self) == *old(self),
            final(self).spec_julian_day_ut() == old(self).spec_julian_day_ut(),
            final(self).spec_julian_day() == old(self).spec_julian_day(),
    {
        if loc.len() >= 2 {
            let lon = loc[0];
            let lat = loc[1];
            self.set_location(lon, lat);
        }
    }

    /// Read the observer position back into a two-or-longer buffer.
    pub fn get_location(&self, loc: &mut Vec<i64>)
        ensures
            old(loc)@.len() >= 2 ==> final(loc)@ =~= old(loc)@.update(
                0,
                self.spec_location().longitude,
            ).update(1, self.spec_location().latitude),
            old(loc)@.len() < 2 ==> final(loc)@ == old(loc)@,
    {
        if loc.len() >= 2 {
            let lon = self.location.longitude;
            let lat = self.location.latitude;
            loc[0] = lon;
            loc[1] = lat;
        }
    }

    pub fn get_longitude(&self) -> (r: i64)
        ensures
            r == self.spec_location().longitude,
    {
        self.location.longitude
    }

    pub fn get_latitude(&self) -> (r: i64)
        ensures
            r == self.spec_location().latitude,
    {
        self.location.latitude
    }

    pub fn get_julian_day_ut_value(&self) -> (r: i64)
        ensures
            r == self.spec_julian_day_ut(),
    {
        self.julian_day_ut
    }

    pub fn get_julian_day_value(&self) -> (r: i64)
        ensures
            r == self.spec_julian_day(),
    {
        self.julian_day
    }

    /// Delta T for an instant: the oracle-backed value when the
    /// boundary supplied one, else the analytic fallback for the
    /// instant's civil year (documented as lower precision).
    pub fn get_delta_t(&self, ut: i64, oracle_delta_t: Option<i64>) -> (r: i64)
        requires
            MIN_JD_SEC <= ut <= MAX_JD_SEC,
            oracle_delta_t matches Some(d) ==> -86400 <= d <= 86400,
        ensures
            oracle_delta_t matches Some(d) ==> r == d,
            oracle_delta_t is None ==> exists|y: int, m: int, d: int, h: int, mi: int|
                {
                    &&& #[trigger] spec_civil_to_jd_sec(y, m, d, h, mi) <= ut < spec_civil_to_jd_sec(
                        y,
                        m,
                        d,
                        h,
                        mi,
                    ) + 60
                    &&& spec_valid_civil(y, m, d, h, mi)
                    &&& r == crate::calendar::spec_delta_t_fallback(y)
                },
            -86400 <= r <= 86400,
    {
        match oracle_delta_t {
            Some(d) => d,
            None => crate::calendar::delta_t_fallback(ut),
        }
    }

    /// Set the universal-time day directly. An instant outside the
    /// supported window is refused without touching the ephemeris-time
    /// day; the invalid sentinel resets both days. Either way the last
    /// computation is invalidated.
    pub fn set_julian_day_value(&mut self, jd_ut: i64, oracle_delta_t: Option<i64>) -> (r: bool)
        requires
            old(self).wf(),
            oracle_delta_t matches Some(d) ==> -86400 <= d <= 86400,
        ensures
            final(self).wf(),
            !final(self).spec_computed(),
            r == (jd_ut != INVALID && MIN_JD_SEC <= jd_ut <= MAX_JD_SEC),
            r ==> final(self).spec_julian_day_ut() == jd_ut,
            r ==> (oracle_delta_t matches Some(dt) ==> final(self).spec_julian_day() == jd_ut
                + dt),
            (r && oracle_delta_t is None) ==> exists|y: int, m: int, d: int, h: int, mi: int|
                {
                    &&& #[trigger] spec_civil_to_jd_sec(y, m, d, h, mi) <= jd_ut
                        < spec_civil_to_jd_sec(y, m, d, h, mi) + 60
                    &&& spec_valid_civil(y, m, d, h, mi)
                    &&& final(self).spec_julian_day() == jd_ut
                        + crate::calendar::spec_delta_t_fallback(y)
                },
            jd_ut == INVALID ==> (final(self).spec_julian_day_ut() == INVALID && final(self).spec_julian_day() == INVALID),
            (jd_ut != INVALID && !r) ==> (final(self).spec_julian_day_ut() == old(self).spec_julian_day_ut() && final(self).spec_julian_day() == old(self).spec_julian_day()),
            final(self).spec_location() == old(self).spec_location(),
            final(self).spec_ephe_flag() == old(self).spec_ephe_flag(),
            final(self).spec_sidereal_mode() == old(self).spec_sidereal_mode(),
            final(self).spec_angular_points() == old(self).spec_angular_points(),
    {
        self.computed = false;
        if jd_ut == INVALID {
            self.julian_day_ut = INVALID;
            self.julian_day = INVALID;
            false
        } else if jd_ut < MIN_JD_SEC || jd_ut > MAX_JD_SEC {
            false
        } else {
            let dt = self.get_delta_t(jd_ut, oracle_delta_t);
            self.julian_day_ut = jd_ut;
            self.julian_day = jd_ut + dt;
            true
        }
    }

    /// Set the day from a civil date `[year, month, day, hour,
    /// minute]`. An invalid date is refused with the context
    /// unchanged.
    pub fn set_julian_day(&mut self, date: &[i32; 5], oracle_delta_t: Option<i64>) -> (r: bool)
        requires
            old(self).wf(),
            oracle_delta_t matches Some(d) ==> -86400 <= d <= 86400,
        ensures
            final(self).wf(),
            r == spec_valid_civil(
                date@[0] as int,
                date@[1] as int,
                date@[2] as int,
                date@[3] as int,
                date@[4] as int,
            ),
            r ==> final(self).spec_julian_day_ut() == spec_civil_to_jd_sec(
                date@[0] as int,
                date@[1] as int,
                date@[2] as int,
                date@[3] as int,
                date@[4] as int,
            ),
            r ==> !final(self).spec_computed(),
            r ==> (oracle_delta_t matches Some(dt) ==> final(self).spec_julian_day() == final(self).spec_julian_day_ut() + dt),
            !r ==> *final(self) == *old(self),
    {
        let y = date[0];
        let mo = date[1];
        let d = date[2];
        let h = date[3];
        let mi = date[4];
        if !crate::calendar::is_valid_civil(y, mo, d, h, mi) {
            return false;
        }
        let jd = civil_to_julian_day_ut(y, mo, d, h, mi);
        proof {
            lemma_valid_civil_in_window(y as int, mo as int, d as int, h as int, mi as int);
        }
        self.set_julian_day_value(jd, oracle_delta_t)
    }

    /// The instant of a civil date `[year, month, day, hour, minute]`,
    /// in seconds on the Julian-day axis.
    pub fn get_julian_day_ut(&self, date: &[i32; 5]) -> (r: i64)
        requires
            spec_valid_civil(
                date@[0] as int,
                date@[1] as int,
                date@[2] as int,
                date@[3] as int,
                date@[4] as int,
            ),
        ensures
            r == spec_civil_to_jd_sec(
                date@[0] as int,
                date@[1] as int,
                date@[2] as int,
                date@[3] as int,
                date@[4] as int,
            ),
    {
        civil_to_julian_day_ut(date[0], date[1], date[2], date[3], date[4])
    }

    /// Write the civil date of an instant into `[year, month, day,
    /// hour, minute]`.
    pub fn get_julian_day_ut_from_date(&self, jd_ut: i64, date: &mut [i32; 5])
        requires
            MIN_JD_SEC <= jd_ut <= MAX_JD_SEC,
        ensures
            spec_valid_civil(
                final(date)@[0] as int,
                final(date)@[1] as int,
                final(date)@[2] as int,
                final(date)@[3] as int,
                final(date)@[4] as int,
            ),
            spec_civil_to_jd_sec(
                final(date)@[0] as int,
                final(date)@[1] as int,
                final(date)@[2] as int,
                final(date)@[3] as int,
                final(date)@[4] as int,
            ) <= jd_ut < spec_civil_to_jd_sec(
                final(date)@[0] as int,
                final(date)@[1] as int,
                final(date)@[2] as int,
                final(date)@[3] as int,
                final(date)@[4] as int,
            ) + 60,
    {
        let (y, m, d, h, mi) = julian_day_ut_to_civil(jd_ut);
        date[0] = y;
        date[1] = m;
        date[2] = d;
        date[3] = h;
        date[4] = mi;
    }

    /// Whole days between two civil dates, rounded to the nearest day
    /// (halves away from zero).
    pub fn get_difference_in_days(&self, from_date: &[i32; 5], to_date: &[i32; 5]) -> (r: i32)
        requires
            spec_valid_civil(
                from_date@[0] as int,
                from_date@[1] as int,
                from_date@[2] as int,
                from_date@[3] as int,
                from_date@[4] as int,
            ),
            spec_valid_civil(
                to_date@[0] as int,
                to_date@[1] as int,
                to_date@[2] as int,
                to_date@[3] as int,
                to_date@[4] as int,
            ),
        ensures
            r == spec_round_days(
                spec_civil_to_jd_sec(
                    to_date@[0] as int,
                    to_date@[1] as int,
                    to_date@[2] as int,
                    to_date@[3] as int,
                    to_date@[4] as int,
                ) - spec_civil_to_jd_sec(
                    from_date@[0] as int,
                    from_date@[1] as int,
                    from_date@[2] as int,
                    from_date@[3] as int,
                    from_date@[4] as int,
                ),
            ),
    {
        let from_jd = self.get_julian_day_ut(from_date);
        let to_jd = self.get_julian_day_ut(to_date);
        proof {
            lemma_valid_civil_in_window(
                from_date@[0] as int,
                from_date@[1] as int,
                from_date@[2] as int,
                from_date@[3] as int,
                from_date@[4] as int,
            );
            lemma_valid_civil_in_window(
                to_date@[0] as int,
                to_date@[1] as int,
                to_date@[2] as int,
                to_date@[3] as int,
                to_date@[4] as int,
            );
        }
        if to_jd >= from_jd {
            (((to_jd - from_jd) + 43200) / 86400) as i32
        } else {
            -((((from_jd - to_jd) + 43200) / 86400) as i32)
        }
    }
}

impl Calculate {
    /// Load the reference tables: zodiac and motion-state names, the
    /// mountain ring, the house-system code table and the per-body
    /// speed thresholds. They are fixed data, never mutated afterwards.
    pub fn load_resource(&mut self)
        requires
            old(self).wf(),
        ensures
            final(self).wf(),
            final(self).resources_loaded(),
            final(self).spec_threshold_count() == 3,
            final(self).spec_zodiac_loaded(),
            final(self).spec_zodiac_codes_loaded(),
            final(self).spec_speed_names_loaded(),
            final(self).spec_mountain_ring_loaded(),
            final(self).spec_house_codes_loaded(),
            final(self).spec_stationary_gap() =~= seq![50000i64, 100000i64, 150000i64],
            final(self).spec_invisible_gap() =~= seq![5000000i64, 10000000i64, 15000000i64],
            final(self).spec_slow_speed() =~= seq![100000i64, 200000i64, 300000i64],
            final(self).spec_fast_speed() =~= seq![1100000i64, 1200000i64, 1300000i64],
            !final(self).spec_computed(),
            final(self).spec_julian_day_ut() == old(self).spec_julian_day_ut(),
            final(self).spec_julian_day() == old(self).spec_julian_day(),
    {
        self.set_topocentric_mode(false, false);
        let mut zodiac: Vec<String> = Vec::new();
        zodiac.push("Aries".to_owned());
        zodiac.push("Taurus".to_owned());
        zodiac.push("Gemini".to_owned());
        zodiac.push("Cancer".to_owned());
        zodiac.push("Leo".to_owned());
        zodiac.push("Virgo".to_owned());
        zodiac.push("Libra".to_owned());
        zodiac.push("Scorpio".to_owned());
        zodiac.push("Sagittarius".to_owned());
        zodiac.push("Capricorn".to_owned());
        zodiac.push("Aquarius".to_owned());
        zodiac.push("Pisces".to_owned());
        self.zodiac = zodiac;
        let mut fz: Vec<String> = Vec::new();
        fz.push("Aries".to_owned());
        fz.push("Taurus".to_owned());
        fz.push("Gemini".to_owned());
        fz.push("Cancer".to_owned());
        fz.push("Leo".to_owned());
        fz.push("Virgo".to_owned());
        fz.push("Libra".to_owned());
        fz.push("Scorpio".to_owned());
        fz.push("Sagittarius".to_owned());
        fz.push("Capricorn".to_owned());
        fz.push("Aquarius".to_owned());
        fz.push("Pisces".to_owned());
        self.full_zodiac = fz;
        let mut zn: Vec<String> = Vec::new();
        zn.push("AR".to_owned());
        zn.push("TA".to_owned());
        zn.push("GE".to_owned());
        zn.push("CA".to_owned());
        zn.push("LE".to_owned());
        zn.push("VI".to_owned());
        zn.push("LI".to_owned());
        zn.push("SC".to_owned());
        zn.push("SA".to_owned());
        zn.push("CP".to_owned());
        zn.push("AQ".to_owned());
        zn.push("PI".to_owned());
        self.zodiac_name = zn;
        let mut ss: Vec<String> = Vec::new();
        ss.push("Normal".to_owned());
        ss.push("Reverse".to_owned());
        ss.push("Eclipse".to_owned());
        ss.push("Stationary".to_owned());
        ss.push("Invisible".to_owned());
        ss.push("Slow".to_owned());
        ss.push("Fast".to_owned());
        self.speed_state = ss;
        let mut mn: Vec<String> = Vec::new();
        mn.push("1".to_owned());
        mn.push("2".to_owned());
        mn.push("3".to_owned());
        mn.push("4".to_owned());
        mn.push("5".to_owned());
        mn.push("6".to_owned());
        mn.push("7".to_owned());
        mn.push("8".to_owned());
        mn.push("9".to_owned());
        mn.push("10".to_owned());
        mn.push("11".to_owned());
        mn.push("12".to_owned());
        mn.push("13".to_owned());
        mn.push("14".to_owned());
        mn.push("15".to_owned());
        mn.push("16".to_owned());
        mn.push("17".to_owned());
        mn.push("18".to_owned());
        mn.push("19".to_owned());
        mn.push("20".to_owned());
        mn.push("21".to_owned());
        mn.push("22".to_owned());
        mn.push("23".to_owned());
        mn.push("24".to_owned());
        self.mountain_name = mn;
        let mut hc: Vec<u8> = Vec::new();
        hc.push(80u8);
        hc.push(75u8);
        hc.push(79u8);
        hc.push(82u8);
        hc.push(67u8);
        hc.push(69u8);
        hc.push(86u8);
        hc.push(88u8);
        hc.push(72u8);
        hc.push(84u8);
        hc.push(66u8);
        hc.push(77u8);
        hc.push(85u8);
        hc.push(87u8);
        self.house_system_char = hc;
        let mut sg: Vec<i64> = Vec::new();
        sg.push(50000);
        sg.push(100000);
        sg.push(150000);
        self.stationary_gap = sg;
        let mut ig: Vec<i64> = Vec::new();
        ig.push(5000000);
        ig.push(10000000);
        ig.push(15000000);
        self.invisible_gap = ig;
        let mut sl: Vec<i64> = Vec::new();
        sl.push(100000);
        sl.push(200000);
        sl.push(300000);
        self.slow_speed = sl;
        let mut fs: Vec<i64> = Vec::new();
        fs.push(1100000);
        fs.push(1200000);
        fs.push(1300000);
        self.fast_speed = fs;
    }


    /// The zodiac name tables hold the twelve signs in order.
    pub open spec fn spec_zodiac_loaded(self) -> bool {
        &&& self.spec_zodiac().len() == 12
        &&& self.spec_full_zodiac().len() == 12
        &&& self.spec_zodiac()[0]@ == "Aries"@
        &&& self.spec_zodiac()[1]@ == "Taurus"@
        &&& self.spec_zodiac()[2]@ == "Gemini"@
        &&& self.spec_zodiac()[3]@ == "Cancer"@
        &&& self.spec_zodiac()[4]@ == "Leo"@
        &&& self.spec_zodiac()[5]@ == "Virgo"@
        &&& self.spec_zodiac()[6]@ == "Libra"@
        &&& self.spec_zodiac()[7]@ == "Scorpio"@
        &&& self.spec_zodiac()[8]@ == "Sagittarius"@
        &&& self.spec_zodiac()[9]@ == "Capricorn"@
        &&& self.spec_zodiac()[10]@ == "Aquarius"@
        &&& self.spec_zodiac()[11]@ == "Pisces"@
        &&& self.spec_full_zodiac()[0]@ == "Aries"@
        &&& self.spec_full_zodiac()[1]@ == "Taurus"@
        &&& self.spec_full_zodiac()[2]@ == "Gemini"@
        &&& self.spec_full_zodiac()[3]@ == "Cancer"@
        &&& self.spec_full_zodiac()[4]@ == "Leo"@
        &&& self.spec_full_zodiac()[5]@ == "Virgo"@
        &&& self.spec_full_zodiac()[6]@ == "Libra"@
        &&& self.spec_full_zodiac()[7]@ == "Scorpio"@
        &&& self.spec_full_zodiac()[8]@ == "Sagittarius"@
        &&& self.spec_full_zodiac()[9]@ == "Capricorn"@
        &&& self.spec_full_zodiac()[10]@ == "Aquarius"@
        &&& self.spec_full_zodiac()[11]@ == "Pisces"@
    }

    /// The short zodiac codes, in sign order.
    pub open spec fn spec_zodiac_codes_loaded(self) -> bool {
        &&& self.spec_zodiac_codes().len() == 12
        &&& self.spec_zodiac_codes()[0]@ == "AR"@
        &&& self.spec_zodiac_codes()[1]@ == "TA"@
        &&& self.spec_zodiac_codes()[2]@ == "GE"@
        &&& self.spec_zodiac_codes()[3]@ == "CA"@
        &&& self.spec_zodiac_codes()[4]@ == "LE"@
        &&& self.spec_zodiac_codes()[5]@ == "VI"@
        &&& self.spec_zodiac_codes()[6]@ == "LI"@
        &&& self.spec_zodiac_codes()[7]@ == "SC"@
        &&& self.spec_zodiac_codes()[8]@ == "SA"@
        &&& self.spec_zodiac_codes()[9]@ == "CP"@
        &&& self.spec_zodiac_codes()[10]@ == "AQ"@
        &&& self.spec_zodiac_codes()[11]@ == "PI"@
    }

    /// The motion-state names, in state order.
    pub open spec fn spec_speed_names_loaded(self) -> bool {
        &&& self.spec_speed_state().len() == 7
        &&& self.spec_speed_state()[0]@ == "Normal"@
        &&& self.spec_speed_state()[1]@ == "Reverse"@
        &&& self.spec_speed_state()[2]@ == "Eclipse"@
        &&& self.spec_speed_state()[3]@ == "Stationary"@
        &&& self.spec_speed_state()[4]@ == "Invisible"@
        &&& self.spec_speed_state()[5]@ == "Slow"@
        &&& self.spec_speed_state()[6]@ == "Fast"@
    }

    /// The mountain ring's twenty-four labels, in ring order.
    pub open spec fn spec_mountain_ring_loaded(self) -> bool {
        &&& self.spec_mountain_name().len() == 24
        &&& self.spec_mountain_name()[0]@ == "1"@
        &&& self.spec_mountain_name()[1]@ == "2"@
        &&& self.spec_mountain_name()[2]@ == "3"@
        &&& self.spec_mountain_name()[3]@ == "4"@
        &&& self.spec_mountain_name()[4]@ == "5"@
        &&& self.spec_mountain_name()[5]@ == "6"@
        &&& self.spec_mountain_name()[6]@ == "7"@
        &&& self.spec_mountain_name()[7]@ == "8"@
        &&& self.spec_mountain_name()[8]@ == "9"@
        &&& self.spec_mountain_name()[9]@ == "10"@
        &&& self.spec_mountain_name()[10]@ == "11"@
        &&& self.spec_mountain_name()[11]@ == "12"@
        &&& self.spec_mountain_name()[12]@ == "13"@
        &&& self.spec_mountain_name()[13]@ == "14"@
        &&& self.spec_mountain_name()[14]@ == "15"@
        &&& self.spec_mountain_name()[15]@ == "16"@
        &&& self.spec_mountain_name()[16]@ == "17"@
        &&& self.spec_mountain_name()[17]@ == "18"@
        &&& self.spec_mountain_name()[18]@ == "19"@
        &&& self.spec_mountain_name()[19]@ == "20"@
        &&& self.spec_mountain_name()[20]@ == "21"@
        &&& self.spec_mountain_name()[21]@ == "22"@
        &&& self.spec_mountain_name()[22]@ == "23"@
        &&& self.spec_mountain_name()[23]@ == "24"@
    }

    /// The fourteen house-system code letters, in selector order.
    pub open spec fn spec_house_codes_loaded(self) -> bool {
        self.spec_house_codes() =~= seq![80u8, 75u8, 79u8, 82u8, 67u8, 69u8, 86u8, 88u8, 72u8, 84u8, 66u8, 77u8, 85u8, 87u8]
    }

    pub closed spec fn spec_zodiac_codes(self) -> Seq<String> {
        self.zodiac_name@
    }

    pub closed spec fn spec_house_codes(self) -> Seq<u8> {
        self.house_system_char@
    }

    /// How many bodies the speed-threshold tables cover.
    pub closed spec fn spec_threshold_count(self) -> int {
        self.stationary_gap.len() as int
    }

    pub closed spec fn spec_stationary_gap(self) -> Seq<i64> {
        self.stationary_gap@
    }

    pub closed spec fn spec_slow_speed(self) -> Seq<i64> {
        self.slow_speed@
    }

    pub closed spec fn spec_fast_speed(self) -> Seq<i64> {
        self.fast_speed@
    }

    pub closed spec fn spec_speed_state(self) -> Seq<String> {
        self.speed_state@
    }

    /// Classify a body's motion from its signed longitude speed and
    /// the body's own thresholds: stationary inside the stationary
    /// gap, retrograde when negative beyond it, then slow, fast or
    /// normal by the speed bands. Visibility is a separate
    /// classification and is not decided here.
    pub fn classify_motion(&self, body_index: usize, speed: i64) -> (r: i32)
        requires
            self.resources_loaded(),
            body_index < self.spec_threshold_count(),
            speed != i64::MIN,
        ensures
            r == spec_classify_motion(
                self.spec_stationary_gap()[body_index as int] as int,
                self.spec_slow_speed()[body_index as int] as int,
                self.spec_fast_speed()[body_index as int] as int,
                speed as int,
            ),
    {
        let mag = if speed < 0 {
            -speed
        } else {
            speed
        };
        if mag < self.stationary_gap[body_index] {
            SPEED_STATIONARY
        } else if speed < 0 {
            SPEED_REVERSE
        } else if mag < self.slow_speed[body_index] {
            SPEED_SLOW
        } else if mag > self.fast_speed[body_index] {
            SPEED_FAST
        } else {
            SPEED_NORMAL
        }
    }

    /// Classify visibility from the body's solar elongation: a body
    /// inside its invisibility gap around the Sun is invisible,
    /// independently of its speed state.
    pub fn classify_visibility(&self, body_index: usize, elongation: i64) -> (r: i32)
        requires
            self.resources_loaded(),
            body_index < self.spec_threshold_count(),
            elongation != i64::MIN,
        ensures
            ({
                let mag = if elongation < 0 { -(elongation as int) } else { elongation as int };
                (r == SPEED_INVISIBLE) == (mag < self.spec_invisible_gap()[body_index as int])
                    && (r == SPEED_INVISIBLE || r == SPEED_NORMAL)
            }),
    {
        let mag = if elongation < 0 {
            -elongation
        } else {
            elongation
        };
        if mag < self.invisible_gap[body_index] {
            SPEED_INVISIBLE
        } else {
            SPEED_NORMAL
        }
    }

    pub closed spec fn spec_invisible_gap(self) -> Seq<i64> {
        self.invisible_gap@
    }

    /// The display name of a motion state; the normal state shows as
    /// the caller's blank text.
    pub fn get_speed_state_name(&self, state: i32, blank: &str) -> (r: String)
        requires
            self.resources_loaded(),
            0 <= state < 7,
        ensures
            state == SPEED_NORMAL ==> r@ == blank@,
            state != SPEED_NORMAL ==> r@ == self.spec_speed_state()[state as int]@,
    {
        if state == SPEED_NORMAL {
            blank.to_owned()
        } else {
            self.speed_state[state as usize].clone()
        }
    }

    /// The motion-state name table.
    pub fn get_speed_state_name_array(&self) -> (r: &Vec<String>)
        ensures
            r@ == self.spec_speed_state(),
    {
        &self.speed_state
    }

    /// Select the house system for later house computations.
    pub fn set_house_system_index(&mut self, index: i32)
        requires
            old(self).wf(),
        ensures
            final(self).wf(),
            final(self).spec_house_system_index() == index,
            final(self).spec_computed() == old(self).spec_computed(),
            final(self).spec_julian_day_ut() == old(self).spec_julian_day_ut(),
            final(self).spec_julian_day() == old(self).spec_julian_day(),
            final(self).resources_loaded() == old(self).resources_loaded(),
            final(self).spec_threshold_count() == old(self).spec_threshold_count(),
    {
        self.house_system_index = index;
    }

    /// Record the ayanamsa (sidereal correction) that the oracle
    /// boundary supplied, or its absence: with no value the correction
    /// is zero and the degradation stays observable through
    /// `is_sidereal_correction_exact`.
    pub fn set_ayanamsa(&mut self, value: Option<i64>)
        requires
            old(self).wf(),
            value matches Some(v) ==> 0 <= v < CIRCLE_MICRO_DEG,
        ensures
            final(self).wf(),
            value matches Some(v) ==> (final(self).spec_sidereal_correction() == v && final(self).spec_sidereal_correction_exact()),
            value is None ==> (final(self).spec_sidereal_correction() == 0 && !final(self).spec_sidereal_correction_exact()),
            !final(self).spec_computed(),
            final(self).spec_julian_day_ut() == old(self).spec_julian_day_ut(),
            final(self).spec_julian_day() == old(self).spec_julian_day(),
    {
        match value {
            Some(v) => {
                self.sidereal_correction = v;
                self.sidereal_correction_known = true;
            },
            None => {
                self.sidereal_correction = 0;
                self.sidereal_correction_known = false;
            },
        }
        self.computed = false;
    }

    pub closed spec fn spec_sidereal_correction(self) -> i64 {
        self.sidereal_correction
    }

    pub closed spec fn spec_sidereal_correction_exact(self) -> bool {
        self.sidereal_correction_known
    }

    /// Whether the last computation cache is valid.
    pub fn is_computed(&self) -> (r: bool)
        ensures
            r == self.spec_computed(),
    {
        self.computed
    }

    /// The last computation cache; meaningful only while `is_computed`.
    pub fn get_computation(&self) -> (r: BodyState)
        ensures
            r == self.spec_computation(),
    {
        self.computation
    }

    /// The angular points of the last house computation.
    pub fn get_angular_points(&self) -> (r: AngularPoints)
        ensures
            r == self.spec_angular_points(),
    {
        self.ascmc
    }

    /// Whether the last house computation fell back to the equal-cusp
    /// placeholder layout.
    pub fn is_houses_degraded(&self) -> (r: bool)
        ensures
            r == self.spec_houses_degraded(),
    {
        self.houses_degraded
    }

    /// Civil time in Beijing for a universal-time instant.
    pub fn beijing_time(ut: i64) -> (r: i64)
        requires
            ut <= i64::MAX - 28800,
        ensures
            r == ut + 28800,
    {
        ut + 28800
    }

    /// Whether a value is a real angle or instant rather than the
    /// invalid sentinel.
    pub fn is_valid(val: i64) -> (r: bool)
        ensures
            r == (val != INVALID),
    {
        val != INVALID
    }

    /// The zodiac sign name of a normalized longitude.
    pub fn get_zodiac(&self, degree: i64, full: bool) -> (r: String)
        requires
            self.resources_loaded(),
            0 <= degree < CIRCLE_MICRO_DEG,
        ensures
            full ==> r@ == self.spec_full_zodiac()[degree as int / 30000000int]@,
            !full ==> r@ == self.spec_zodiac()[degree as int / 30000000int]@,
    {
        let index = (degree / (30 * MICRO_DEG)) as usize;
        if full {
            self.full_zodiac[index].clone()
        } else {
            self.zodiac[index].clone()
        }
    }

    pub closed spec fn spec_zodiac(self) -> Seq<String> {
        self.zodiac@
    }

    pub closed spec fn spec_full_zodiac(self) -> Seq<String> {
        self.full_zodiac@
    }

    pub closed spec fn spec_mountain_name(self) -> Seq<String> {
        self.mountain_name@
    }

    pub closed spec fn spec_mountain_offset(self) -> i64 {
        self.mountain_offset
    }

    /// The mountain (24-ring) name of a normalized longitude, under
    /// the configured ring offset.
    pub fn get_mountain(&self, degree: i64) -> (r: String)
        requires
            self.resources_loaded(),
            self.wf(),
            0 <= degree < CIRCLE_MICRO_DEG,
        ensures
            r@ == self.spec_mountain_name()[spec_mountain_index(
                degree as int,
                self.spec_mountain_offset() as int,
            )]@,
    {
        let mut val = degree - 22500000 + self.mountain_offset;
        if val < 0 {
            val = val + CIRCLE_MICRO_DEG;
        }
        let mut index = (val / 15000000) as usize;
        if index >= 24 {
            index = index - 24;
        }
        self.mountain_name[index].clone()
    }

    /// The elemental group of a normalized longitude's sign.
    pub fn get_elemental_index(&self, degree: i64) -> (r: i32)
        requires
            0 <= degree < CIRCLE_MICRO_DEG,
        ensures
            r == (degree as int / 30000000int) % 4,
            0 <= r < 4,
    {
        ((degree / (30 * MICRO_DEG)) % 4) as i32
    }

    /// The elemental state of a normalized longitude's sign.
    pub fn get_elemental_state_index(&self, degree: i64) -> (r: i32)
        requires
            0 <= degree < CIRCLE_MICRO_DEG,
        ensures
            r == (degree as int / 30000000int) % 3,
            0 <= r < 3,
    {
        ((degree / (30 * MICRO_DEG)) % 3) as i32
    }

    /// Rotate the mountain ring.
    pub fn set_mountain_offset(&mut self, val: i64)
        requires
            old(self).wf(),
            0 <= val < CIRCLE_MICRO_DEG,
        ensures
            final(self).wf(),
            final(self).spec_mountain_offset() == val,
            final(self).resources_loaded() == old(self).resources_loaded(),
    {
        self.mountain_offset = val;
    }

    /// The position of a year in the sexagesimal year cycle, starting
    /// from the traditional base year: always in `1..=60`.
    pub fn get_chinese_year(&self, year: i32) -> (r: i32)
        ensures
            1 <= r <= 60,
            ({
                let x = (year - 1899) % 60;
                (x == 0 ==> r == 60) && (x != 0 ==> r == x)
            }),
    {
        let shifted: i64 = (year as i64) - 1899 + 2160000000;
        let m = (shifted % 60) as i32;
        proof {
            vstd::arithmetic::div_mod::lemma_mod_bound(shifted as int, 60);
            vstd::arithmetic::div_mod::lemma_mod_multiples_vanish(
                36000000,
                (year - 1899) as int,
                60,
            );
        }
        if m == 0 {
            60
        } else {
            m
        }
    }
}

/// A body resolution touches nothing but the computation cache: the
/// days, the observer, the angular points, every mode and model, the
/// luminary cache and the loaded tables all stay as they were.
pub open spec fn spec_only_computation_changed(pre: Calculate, post: Calculate) -> bool {
    &&& post.spec_julian_day_ut() == pre.spec_julian_day_ut()
    &&& post.spec_julian_day() == pre.spec_julian_day()
    &&& post.spec_location() == pre.spec_location()
    &&& post.spec_angular_points() == pre.spec_angular_points()
    &&& post.spec_ephe_flag() == pre.spec_ephe_flag()
    &&& post.spec_sidereal_mode() == pre.spec_sidereal_mode()
    &&& post.spec_day_fortune_mode() == pre.spec_day_fortune_mode()
    &&& post.spec_orbit_model() == pre.spec_orbit_model()
    &&& post.spec_sun_pos() == pre.spec_sun_pos()
    &&& post.spec_moon_pos() == pre.spec_moon_pos()
    &&& post.spec_sidereal_correction() == pre.spec_sidereal_correction()
    &&& post.spec_sidereal_correction_exact() == pre.spec_sidereal_correction_exact()
    &&& post.spec_houses_degraded() == pre.spec_houses_degraded()
    &&& post.spec_house_system_index() == pre.spec_house_system_index()
    &&& post.spec_mountain_offset() == pre.spec_mountain_offset()
    &&& post.resources_loaded() == pre.resources_loaded()
    &&& post.spec_threshold_count() == pre.spec_threshold_count()
}

/// Truncating division, as the fixed-point drift computation performs
/// it: the quotient of the magnitudes, with the sign of the numerator.
pub open spec fn spec_trunc_div(x: int, d: int) -> int {
    if x >= 0 {
        x / d
    } else {
        -((-x) / d)
    }
}

/// The linear-model longitude at an ephemeris-time instant: the drift
/// since the reference day added to the reference longitude, less the
/// sidereal correction, normalized.
pub open spec fn spec_orbit_longitude(m: CustomOrbitModel, jd_et: int, corr: int) -> int {
    (m.reference_longitude - corr + spec_trunc_div(
        m.rate_per_day * (jd_et - m.reference_day),
        86400,
    )) % 360000000int
}

impl Calculate {
    /// Install the linear orbit model for negative body codes.
    pub fn set_orbit_data(&mut self, model: CustomOrbitModel)
        requires
            old(self).wf(),
            0 <= model.reference_longitude < CIRCLE_MICRO_DEG,
            MIN_JD_SEC <= model.reference_day <= MAX_JD_SEC,
        ensures
            final(self).wf(),
            final(self).spec_orbit_model() == model,
            !final(self).spec_computed(),
            final(self).spec_julian_day_ut() == old(self).spec_julian_day_ut(),
            final(self).spec_julian_day() == old(self).spec_julian_day(),
    {
        self.orbit_data = model;
        self.computed = false;
    }

    /// The oracle flag word a standard-body query should be made
    /// with: the context's mode bits, with the sidereal bit added in
    /// sidereal mode.
    pub fn compute_flags(&self) -> (r: i32)
        ensures
            self.spec_sidereal_mode() ==> r == self.spec_ephe_flag() | SEFLG_SIDEREAL,
            !self.spec_sidereal_mode() ==> r == self.spec_ephe_flag(),
    {
        if self.sidereal_mode {
            self.ephe_flag | SEFLG_SIDEREAL
        } else {
            self.ephe_flag
        }
    }

    /// The sidereal correction the resolver applies: the recorded
    /// ayanamsa in sidereal mode, zero otherwise.
    pub open spec fn spec_applied_correction(self) -> i64 {
        if self.spec_sidereal_mode() {
            self.spec_sidereal_correction()
        } else {
            0
        }
    }

    /// Resolve a custom-orbit body from the linear model. With no day
    /// set the state degrades to the invalid sentinel.
    fn compute_orbit(&mut self) -> (r: i64)
        requires
            old(self).wf_core(),
        ensures
            final(self).wf_core(),
            old(self).wf() ==> final(self).wf(),
            r == final(self).spec_computation().longitude,
            final(self).spec_computation().latitude == old(self).spec_orbit_model().reference_latitude,
            final(self).spec_computation().distance == 1_000_000,
            final(self).spec_computation().speed_longitude == old(self).spec_orbit_model().rate_per_day,
            old(self).spec_julian_day() != INVALID ==> (final(self).spec_computed() && final(self).spec_computation().longitude == spec_orbit_longitude(
                old(self).spec_orbit_model(),
                old(self).spec_julian_day() as int,
                old(self).spec_applied_correction() as int,
            )),
            old(self).spec_julian_day() == INVALID ==> (!final(self).spec_computed() && final(self).spec_computation().longitude == INVALID),
            spec_only_computation_changed(*old(self), *final(self)),
    {
        let day = self.julian_day;
        let corr = if self.sidereal_mode {
            self.sidereal_correction
        } else {
            0
        };
        let mut lon: i64 = INVALID;
        if day != INVALID {
            self.computed = true;
            let delta: i64 = day - self.orbit_data.reference_day;
            proof {
                lemma_orbit_product_bounded(
                    self.orbit_data.rate_per_day as int,
                    delta as int,
                );
            }
            let prod: i128 = (self.orbit_data.rate_per_day as i128) * (delta as i128);
            let mag: i128 = if prod < 0 {
                -prod
            } else {
                prod
            };
            let q: i128 = mag / 86400;
            let qm: i128 = q % 360000000;
            proof {
                vstd::arithmetic::div_mod::lemma_mod_bound(q as int, 360000000);
                vstd::arithmetic::div_mod::lemma_fundamental_div_mod(q as int, 360000000);
            }
            let off: i64 = if prod < 0 {
                -(qm as i64)
            } else {
                qm as i64
            };
            let base: i64 = self.orbit_data.reference_longitude - corr + off;
            proof {
                lemma_offset_congruent(
                    (self.orbit_data.reference_longitude - corr) as int,
                    q as int,
                    prod < 0,
                );
            }
            lon = normalize_degree(base);
        } else {
            self.computed = false;
        }
        self.computation = BodyState {
            longitude: lon,
            latitude: self.orbit_data.reference_latitude,
            distance: 1_000_000,
            speed_longitude: self.orbit_data.rate_per_day,
            speed_latitude: 0,
            speed_distance: 0,
        };
        lon
    }

    /// The Fortune-point longitude the context yields when its day is
    /// pointed at an instant: the ascendant moved by the arc from Sun
    /// to Moon (day charts) or Moon to Sun (night charts), from the
    /// cached luminary positions. An unset luminary counts as zero,
    /// the documented degraded path when no oracle backed
    /// `init_special`.
    pub open spec fn spec_fortune_longitude_at(self, ut: i64) -> int {
        let sun: int = if self.spec_sun_pos() != 0 && ut != INVALID {
            self.spec_sun_pos() as int
        } else {
            0
        };
        let moon: int = if self.spec_moon_pos() != 0 && ut != INVALID {
            self.spec_moon_pos() as int
        } else {
            0
        };
        let gap: int = if self.spec_day_fortune_mode() {
            moon - sun
        } else {
            sun - moon
        };
        (self.spec_angular_points().ascendant + gap) % 360000000int
    }

    /// The Fortune-point longitude at the context's own day.
    pub open spec fn spec_fortune_longitude(self) -> int {
        self.spec_fortune_longitude_at(self.spec_julian_day_ut())
    }

    /// Resolve a synthetic point: Ascendant and Midheaven read the
    /// angular points of the last house computation (the invalid
    /// sentinel when none succeeded: the prerequisite is missing), and
    /// Fortune combines the ascendant with the cached luminaries.
    fn compute_special(&mut self, body: i32) -> (r: i64)
        requires
            old(self).wf_core(),
            SE_START <= body <= SE_END,
        ensures
            final(self).wf_core(),
            old(self).wf() ==> final(self).wf(),
            r == final(self).spec_computation().longitude,
            body == SE_ASC ==> final(self).spec_computation().longitude == old(self).spec_angular_points().ascendant,
            body == SE_MC ==> final(self).spec_computation().longitude == old(self).spec_angular_points().midheaven,
            body == SE_FORTUNE ==> (old(self).spec_angular_points().ascendant != INVALID ==> final(self).spec_computation().longitude == old(self).spec_fortune_longitude()),
            body == SE_FORTUNE ==> (old(self).spec_angular_points().ascendant == INVALID ==> final(self).spec_computation().longitude == INVALID),
            final(self).spec_computation().latitude == 0,
            final(self).spec_computation().distance == 0,
            final(self).spec_computation().speed_longitude == 0,
            final(self).spec_computed() == (final(self).spec_computation().longitude != INVALID),
            spec_only_computation_changed(*old(self), *final(self)),
    {
        let mut lon: i64 = INVALID;
        if body == SE_ASC {
            lon = self.ascmc.ascendant;
        } else if body == SE_MC {
            lon = self.ascmc.midheaven;
        } else if body == SE_FORTUNE {
            if self.ascmc.ascendant != INVALID {
                let sun = if self.sun_pos != 0 && self.julian_day_ut != INVALID {
                    self.sun_pos
                } else {
                    0
                };
                let moon = if self.moon_pos != 0 && self.julian_day_ut != INVALID {
                    self.moon_pos
                } else {
                    0
                };
                let gap = if self.day_fortune_mode {
                    moon - sun
                } else {
                    sun - moon
                };
                lon = normalize_degree(self.ascmc.ascendant + gap);
            }
        }
        self.computation = BodyState {
            longitude: lon,
            latitude: 0,
            distance: 0,
            speed_longitude: 0,
            speed_latitude: 0,
            speed_distance: 0,
        };
        self.computed = lon != INVALID;
        lon
    }

    /// Resolve one body against the oracle's reply for it.
    ///
    /// Synthetic points and custom-orbit bodies ignore the reply;
    /// standard bodies store the replied position, degrade to the
    /// invalid sentinel on a failed reply, and resolve to the zeroed
    /// state when no oracle is present. Unknown codes also resolve to
    /// the zeroed state: a zero longitude from an unknown code is
    /// indistinguishable from a genuine zero except by the code.
    pub fn compute_single(&mut self, body: i32, reply: &OracleReply) -> (r: i64)
        requires
            old(self).wf_core(),
            reply.wf(),
        ensures
            final(self).wf_core(),
            old(self).wf() ==> final(self).wf(),
            r == final(self).spec_computation().longitude,
            SE_START <= body <= SE_END ==> (final(self).spec_computed() == (final(self).spec_computation().longitude != INVALID) && (body == SE_ASC ==> final(self).spec_computation().longitude == old(self).spec_angular_points().ascendant) && (body
                == SE_MC ==> final(self).spec_computation().longitude == old(self).spec_angular_points().midheaven) && (body == SE_FORTUNE ==> ((old(self).spec_angular_points().ascendant != INVALID ==> final(self).spec_computation().longitude == old(self).spec_fortune_longitude()) && (old(self).spec_angular_points().ascendant == INVALID ==> final(self).spec_computation().longitude == INVALID)))),
            body < 0 ==> (old(self).spec_julian_day() != INVALID ==> (final(self).spec_computed() && final(self).spec_computation().longitude == spec_orbit_longitude(
                old(self).spec_orbit_model(),
                old(self).spec_julian_day() as int,
                old(self).spec_applied_correction() as int,
            ))),
            body < 0 ==> (old(self).spec_julian_day() == INVALID ==> (!final(self).spec_computed() && final(self).spec_computation().longitude == INVALID)),
            0 <= body <= 11 ==> (reply matches OracleReply::Computed(b) ==> (final(self).spec_computation() == b && final(self).spec_computed())),
            0 <= body <= 11 ==> (reply is Failed ==> (final(self).spec_computation().longitude
                == INVALID && !final(self).spec_computed())),
            0 <= body <= 11 ==> (reply is Absent ==> (final(self).spec_computation()
                == BodyState::spec_zeroed() && final(self).spec_computed())),
            ((12 <= body < SE_START) || body > SE_END) ==> (final(self).spec_computation()
                == BodyState::spec_zeroed() && final(self).spec_computed()),
            body < 0 ==> (final(self).spec_computation().latitude == old(self).spec_orbit_model().reference_latitude
                && final(self).spec_computation().distance == 1_000_000 && final(self).spec_computation().speed_longitude
                == old(self).spec_orbit_model().rate_per_day),
            spec_only_computation_changed(*old(self), *final(self)),
    {
        if SE_START <= body && body <= SE_END {
            return self.compute_special(body);
        }
        if body < 0 {
            return self.compute_orbit();
        }
        if body > 11 {
            self.computation = BodyState {
                longitude: 0,
                latitude: 0,
                distance: 0,
                speed_longitude: 0,
                speed_latitude: 0,
                speed_distance: 0,
            };
            self.computed = true;
            return 0;
        }
        match reply {
            OracleReply::Computed(b) => {
                self.computation = *b;
                self.computed = true;
                self.computation.longitude
            },
            OracleReply::Failed(_) => {
                self.computation = BodyState {
                    longitude: INVALID,
                    latitude: 0,
                    distance: 0,
                    speed_longitude: 0,
                    speed_latitude: 0,
                    speed_distance: 0,
                };
                self.computed = false;
                INVALID
            },
            OracleReply::Absent => {
                self.computation = BodyState {
                    longitude: 0,
                    latitude: 0,
                    distance: 0,
                    speed_longitude: 0,
                    speed_latitude: 0,
                    speed_distance: 0,
                };
                self.computed = true;
                0
            },
        }
    }

    /// Resolve one body at a given instant, leaving the context's own
    /// day as it was.
    pub fn compute(&mut self, jd_ut: i64, body: i32, reply: &OracleReply) -> (r: i64)
        requires
            old(self).wf(),
            reply.wf(),
            jd_ut == INVALID || MIN_JD_SEC <= jd_ut <= MAX_JD_SEC,
        ensures
            final(self).wf(),
            r == final(self).spec_computation().longitude,
            0 <= body <= 11 ==> (reply matches OracleReply::Computed(b) ==> (final(self).spec_computation() == b && final(self).spec_computed())),
            0 <= body <= 11 ==> (reply is Failed ==> (final(self).spec_computation().longitude
                == INVALID && !final(self).spec_computed())),
            0 <= body <= 11 ==> (reply is Absent ==> (final(self).spec_computation()
                == BodyState::spec_zeroed() && final(self).spec_computed())),
            body < 0 ==> (old(self).spec_julian_day() != INVALID ==> final(self).spec_computation().longitude == spec_orbit_longitude(
                old(self).spec_orbit_model(),
                old(self).spec_julian_day() as int,
                old(self).spec_applied_correction() as int,
            )),
            body < 0 ==> (old(self).spec_julian_day() == INVALID ==> (!final(self).spec_computed()
                && final(self).spec_computation().longitude == INVALID)),
            SE_START <= body <= SE_END ==> (final(self).spec_computed() == (final(self).spec_computation().longitude != INVALID) && (body == SE_ASC ==> final(self).spec_computation().longitude == old(self).spec_angular_points().ascendant) && (body
                == SE_MC ==> final(self).spec_computation().longitude == old(self).spec_angular_points().midheaven) && (body == SE_FORTUNE ==> ((old(self).spec_angular_points().ascendant != INVALID ==> final(self).spec_computation().longitude == old(self).spec_fortune_longitude_at(jd_ut)) && (old(self).spec_angular_points().ascendant == INVALID ==> final(self).spec_computation().longitude == INVALID)))),
            ((12 <= body < SE_START) || body > SE_END) ==> (final(self).spec_computation()
                == BodyState::spec_zeroed() && final(self).spec_computed()),
            body < 0 ==> (final(self).spec_computation().latitude == old(self).spec_orbit_model().reference_latitude
                && final(self).spec_computation().distance == 1_000_000 && final(self).spec_computation().speed_longitude
                == old(self).spec_orbit_model().rate_per_day),
            spec_only_computation_changed(*old(self), *final(self)),
    {
        let ut_sav = self.julian_day_ut;
        self.julian_day_ut = jd_ut;
        let val = self.compute_single(body, reply);
        self.julian_day_ut = ut_sav;
        val
    }

    /// Cache the luminary positions and the day/night mode that the
    /// Fortune point combines. The invalid sentinel stands for "no
    /// oracle-backed value": the cache then falls back to zero.
    pub fn init_special(&mut self, sun_long: i64, moon_long: i64, day: bool)
        requires
            old(self).wf(),
            sun_long == INVALID || 0 <= sun_long < CIRCLE_MICRO_DEG,
            moon_long == INVALID || 0 <= moon_long < CIRCLE_MICRO_DEG,
        ensures
            final(self).wf(),
            sun_long != INVALID ==> final(self).spec_sun_pos() == sun_long,
            sun_long == INVALID ==> final(self).spec_sun_pos() == 0,
            moon_long != INVALID ==> final(self).spec_moon_pos() == moon_long,
            moon_long == INVALID ==> final(self).spec_moon_pos() == 0,
            final(self).spec_day_fortune_mode() == day,
            final(self).spec_julian_day_ut() == old(self).spec_julian_day_ut(),
            final(self).spec_julian_day() == old(self).spec_julian_day(),
            final(self).spec_angular_points() == old(self).spec_angular_points(),
            final(self).spec_computed() == old(self).spec_computed(),
    {
        if sun_long != INVALID {
            self.sun_pos = sun_long;
        } else {
            self.sun_pos = 0;
        }
        if moon_long != INVALID {
            self.moon_pos = moon_long;
        } else {
            self.moon_pos = 0;
        }
        self.day_fortune_mode = day;
    }
}

/// The drift product of the linear model stays far inside `i128`.
proof fn lemma_orbit_product_bounded(rate: int, delta: int)
    requires
        -0x8000_0000_0000_0000 <= rate < 0x8000_0000_0000_0000,
        -0x8000_0000_0000 <= delta <= 0x8000_0000_0000,
    ensures
        -0x4000_0000_0000_0000_0000_0000_0000 <= rate * delta
            <= 0x4000_0000_0000_0000_0000_0000_0000,
{
    assert(-0x4000_0000_0000_0000_0000_0000_0000 <= rate * delta
        <= 0x4000_0000_0000_0000_0000_0000_0000) by (nonlinear_arith)
        requires
            -0x8000_0000_0000_0000 <= rate < 0x8000_0000_0000_0000,
            -0x8000_0000_0000 <= delta <= 0x8000_0000_0000,
    ;
}

/// Reducing the drift magnitude modulo a full circle before applying
/// its sign does not change the longitude modulo a full circle.
proof fn lemma_offset_congruent(base: int, q: int, neg: bool)
    requires
        q >= 0,
    ensures
        neg ==> (base + -(q % 360000000)) % 360000000 == (base + -q) % 360000000,
        !neg ==> (base + q % 360000000) % 360000000 == (base + q) % 360000000,
{
    let c = 360000000;
    vstd::arithmetic::div_mod::lemma_fundamental_div_mod(q, c);
    if neg {
        vstd::arithmetic::div_mod::lemma_mod_multiples_vanish(
            -(q / c),
            base + -(q % c),
            c,
        );
    } else {
        vstd::arithmetic::div_mod::lemma_mod_multiples_vanish(q / c, base + q % c, c);
    }
}

impl Calculate {
    /// The single-letter code of the selected house system, Placidus
    /// for an index outside the table.
    pub fn house_system_code(&self) -> (r: u8)
        ensures
            r == spec_house_system_code(self.spec_house_system_index() as int),
    {
        let idx = self.house_system_index;
        if idx == 1 {
            75u8
        } else if idx == 2 {
            79u8
        } else if idx == 3 {
            82u8
        } else if idx == 4 {
            67u8
        } else if idx == 5 {
            69u8
        } else if idx == 6 {
            86u8
        } else if idx == 7 {
            88u8
        } else if idx == 8 {
            72u8
        } else if idx == 9 {
            84u8
        } else if idx == 10 {
            66u8
        } else if idx == 11 {
            77u8
        } else if idx == 12 {
            85u8
        } else if idx == 13 {
            87u8
        } else {
            80u8
        }
    }

    /// Fill the cusp buffer and angular points for the context's own
    /// instant.
    pub fn compute_houses(&mut self, cusps: &mut Vec<i64>, reply: &HousesReply)
        requires
            old(self).wf(),
            reply.wf(),
        ensures
            final(self).wf(),
            spec_houses_outcome(*old(self), *final(self), old(cusps)@, final(cusps)@, *reply),
    {
        let ut = self.julian_day_ut;
        self.compute_houses_from_jd(cusps, ut, reply);
    }

    /// Fill the cusp buffer and angular points from the oracle's
    /// house reply for an instant. On a successful reply the twelve
    /// cusps and all ten angular points are copied in; on a failed or
    /// absent oracle the documented fallback lays the cusps out every
    /// thirty degrees from zero, anchors Ascendant and Midheaven on
    /// cusps one and ten, and the result is flagged degraded.
    pub fn compute_houses_from_jd(&mut self, cusps: &mut Vec<i64>, ut: i64, reply: &HousesReply)
        requires
            old(self).wf(),
            reply.wf(),
        ensures
            final(self).wf(),
            spec_houses_outcome(*old(self), *final(self), old(cusps)@, final(cusps)@, *reply),
    {
        match reply {
            HousesReply::Computed { cusps: rc, points } => {
                let n = if cusps.len() < 13 {
                    cusps.len()
                } else {
                    13
                };
                let mut i: usize = 0;
                while i < n
                    invariant
                        0 <= i <= n,
                        n == if old(cusps)@.len() < 13 {
                            old(cusps)@.len() as int
                        } else {
                            13int
                        },
                        cusps@.len() == old(cusps)@.len(),
                        forall|k: int| 0 <= k < i ==> cusps@[k] == rc@[k],
                        forall|k: int| i <= k < cusps@.len() ==> cusps@[k] == old(cusps)@[k],
                    decreases n - i,
                {
                    let v = rc[i];
                    cusps[i] = v;
                    i = i + 1;
                }
                self.ascmc = *points;
                self.houses_degraded = false;
            },
            _ => {
                if cusps.len() >= 13 {
                    let mut i: usize = 0;
                    while i < 12
                        invariant
                            0 <= i <= 12,
                            cusps@.len() == old(cusps)@.len() >= 13,
                            forall|k: int|
                                1 <= k <= i ==> cusps@[k] == (k - 1) * (30 * 1_000_000),
                            forall|k: int|
                                (k == 0 || i < k < cusps@.len()) ==> cusps@[k] == old(cusps)@[k],
                        decreases 12 - i,
                    {
                        proof {
                            assert(0 <= i < 12);
                        }
                        let v = (i as i64) * 30000000i64;
                        cusps[i + 1] = v;
                        i = i + 1;
                    }
                    let asc = cusps[1];
                    let mc = cusps[10];
                    self.ascmc.ascendant = asc;
                    self.ascmc.midheaven = mc;
                } else {
                    self.ascmc.ascendant = INVALID;
                    self.ascmc.midheaven = INVALID;
                }
                self.houses_degraded = true;
            },
        }
    }
}

/// How a house computation moves the context and the cusp buffer.
pub open spec fn spec_houses_outcome(
    pre: Calculate,
    post: Calculate,
    cusps_pre: Seq<i64>,
    cusps_post: Seq<i64>,
    reply: HousesReply,
) -> bool {
    &&& cusps_post.len() == cusps_pre.len()
    &&& (reply matches HousesReply::Computed { cusps: rc, points } ==> {
        let n = if cusps_pre.len() < 13 {
            cusps_pre.len() as int
        } else {
            13int
        };
        &&& (forall|k: int| 0 <= k < n ==> cusps_post[k] == rc@[k])
        &&& (forall|k: int| n <= k < cusps_pre.len() ==> cusps_post[k] == cusps_pre[k])
        &&& post.spec_angular_points() == points
        &&& !post.spec_houses_degraded()
    })
    &&& ((reply is Failed || reply is Absent) ==> {
        &&& post.spec_houses_degraded()
        &&& (cusps_pre.len() >= 13 ==> {
            &&& (forall|k: int| 1 <= k <= 12 ==> cusps_post[k] == (k - 1) * (30 * 1_000_000))
            &&& (forall|k: int|
                (k == 0 || 12 < k < cusps_pre.len()) ==> cusps_post[k] == cusps_pre[k])
            &&& post.spec_angular_points().ascendant == 0
            &&& post.spec_angular_points().midheaven == 270 * 1_000_000
        })
        &&& (cusps_pre.len() < 13 ==> {
            &&& cusps_post == cusps_pre
            &&& post.spec_angular_points().ascendant == INVALID
            &&& post.spec_angular_points().midheaven == INVALID
        })
    })
    &&& post.spec_julian_day_ut() == pre.spec_julian_day_ut()
    &&& post.spec_julian_day() == pre.spec_julian_day()
    &&& post.spec_computed() == pre.spec_computed()
    &&& post.spec_location() == pre.spec_location()
}

/// The house-system code table: index zero and unknown indexes select
/// Placidus.
pub open spec fn spec_house_system_code(idx: int) -> u8 {
    if idx == 1 {
        75u8  // Koch
    } else if idx == 2 {
        79u8  // Porphyrius
    } else if idx == 3 {
        82u8  // Regiomontanus
    } else if idx == 4 {
        67u8  // Campanus
    } else if idx == 5 {
        69u8  // Equal
    } else if idx == 6 {
        86u8  // Vehlow Equal
    } else if idx == 7 {
        88u8  // Axial
    } else if idx == 8 {
        72u8  // Azimuthal
    } else if idx == 9 {
        84u8  // Polich/Page
    } else if idx == 10 {
        66u8  // Alcabitius
    } else if idx == 11 {
        77u8  // Morinus
    } else if idx == 12 {
        85u8  // Krusinski
    } else if idx == 13 {
        87u8  // Whole Sign
    } else {
        80u8  // Placidus
    }
}

/// The first aspect, in table order, that a separation matches within
/// its tolerance, one-based; zero when none matches. The first match
/// winning is the deliberate tie-break.
pub open spec fn spec_aspect_match(angle: int, deg: Seq<i64>, tol: Seq<i64>, k: int) -> int
    decreases tol.len() - k,
{
    if k < 0 || k >= tol.len() || k >= deg.len() {
        0
    } else {
        let diff = angle - deg[k];
        let ad = if diff < 0 {
            -diff
        } else {
            diff
        };
        if ad <= tol[k] {
            k + 1
        } else {
            spec_aspect_match(angle, deg, tol, k + 1)
        }
    }
}

/// One cell of the aspect matrix: zero for an invalid longitude or a
/// skipped diagonal cell, else the first matching aspect index.
pub open spec fn spec_aspect_entry(
    fi: i64,
    tj: i64,
    skip_diagonal: bool,
    deg: Seq<i64>,
    tol: Seq<i64>,
) -> int {
    if fi == INVALID || tj == INVALID || skip_diagonal {
        0
    } else {
        spec_aspect_match(spec_degree_gap(fi as int, tj as int), deg, tol, 0)
    }
}

impl Calculate {
    /// The pairwise aspect grid: for each pair of positions, the
    /// one-based index of the first aspect whose tolerance covers
    /// their separation, zero when none does. Pairs with an invalid
    /// sentinel are skipped, and so is the diagonal when the two
    /// position lists are the same sequence.
    pub fn compute_aspects(
        &self,
        f_pos: &Vec<i64>,
        t_pos: &Vec<i64>,
        aspects_degree: &Vec<i64>,
        aspects_tolerance: &Vec<i64>,
    ) -> (r: Vec<Vec<i32>>)
        requires
            forall|i: int|
                0 <= i < f_pos@.len() ==> (f_pos@[i] == INVALID || 0 <= f_pos@[i]
                    < CIRCLE_MICRO_DEG),
            forall|j: int|
                0 <= j < t_pos@.len() ==> (t_pos@[j] == INVALID || 0 <= t_pos@[j]
                    < CIRCLE_MICRO_DEG),
            aspects_degree@.len() == aspects_tolerance@.len(),
            aspects_tolerance@.len() < 0x8000_0000,
            forall|k: int|
                0 <= k < aspects_degree@.len() ==> -CIRCLE_MICRO_DEG <= #[trigger] aspects_degree@[k]
                    <= CIRCLE_MICRO_DEG,
        ensures
            r@.len() == f_pos@.len(),
            forall|i: int| 0 <= i < r@.len() ==> #[trigger] r@[i]@.len() == t_pos@.len(),
            forall|i: int, j: int|
                0 <= i < r@.len() && 0 <= j < t_pos@.len() ==> #[trigger] r@[i]@[j]
                    == spec_aspect_entry(
                    f_pos@[i],
                    t_pos@[j],
                    i == j && f_pos@ == t_pos@,
                    aspects_degree@,
                    aspects_tolerance@,
                ),
    {
        let same = position_lists_equal(f_pos, t_pos);
        let mut result: Vec<Vec<i32>> = Vec::new();
        let nf = f_pos.len();
        let nt = t_pos.len();
        let na = aspects_tolerance.len();
        let mut i: usize = 0;
        while i < nf
            invariant
                0 <= i <= nf,
                nf == f_pos@.len(),
                nt == t_pos@.len(),
                na == aspects_tolerance@.len(),
                aspects_degree@.len() == aspects_tolerance@.len(),
                aspects_tolerance@.len() < 0x8000_0000,
                same == (f_pos@ == t_pos@),
                forall|x: int|
                    0 <= x < f_pos@.len() ==> (f_pos@[x] == INVALID || 0 <= f_pos@[x]
                        < CIRCLE_MICRO_DEG),
                forall|y: int|
                    0 <= y < t_pos@.len() ==> (t_pos@[y] == INVALID || 0 <= t_pos@[y]
                        < CIRCLE_MICRO_DEG),
                forall|k: int|
                    0 <= k < aspects_degree@.len() ==> -CIRCLE_MICRO_DEG <= #[trigger] aspects_degree@[k]
                        <= CIRCLE_MICRO_DEG,
                result@.len() == i,
                forall|x: int| 0 <= x < i ==> #[trigger] result@[x]@.len() == t_pos@.len(),
                forall|x: int, y: int|
                    0 <= x < i && 0 <= y < t_pos@.len() ==> #[trigger] result@[x]@[y]
                        == spec_aspect_entry(
                        f_pos@[x],
                        t_pos@[y],
                        x == y && f_pos@ == t_pos@,
                        aspects_degree@,
                        aspects_tolerance@,
                    ),
            decreases nf - i,
        {
            let mut row: Vec<i32> = Vec::new();
            let fi = f_pos[i];
            let mut j: usize = 0;
            while j < nt
                invariant
                    0 <= j <= nt,
                    0 <= i < nf,
                    nf == f_pos@.len(),
                    nt == t_pos@.len(),
                    na == aspects_tolerance@.len(),
                    aspects_degree@.len() == aspects_tolerance@.len(),
                    aspects_tolerance@.len() < 0x8000_0000,
                    same == (f_pos@ == t_pos@),
                    fi == f_pos@[i as int],
                    fi == INVALID || 0 <= fi < CIRCLE_MICRO_DEG,
                    forall|y: int|
                        0 <= y < t_pos@.len() ==> (t_pos@[y] == INVALID || 0 <= t_pos@[y]
                            < CIRCLE_MICRO_DEG),
                    forall|k: int|
                        0 <= k < aspects_degree@.len() ==> -CIRCLE_MICRO_DEG <= #[trigger] aspects_degree@[k]
                            <= CIRCLE_MICRO_DEG,
                    row@.len() == j,
                    forall|y: int|
                        0 <= y < j ==> #[trigger] row@[y] == spec_aspect_entry(
                            f_pos@[i as int],
                            t_pos@[y],
                            i == y && f_pos@ == t_pos@,
                            aspects_degree@,
                            aspects_tolerance@,
                        ),
                decreases nt - j,
            {
                let tj = t_pos[j];
                let mut cell: i32 = 0;
                if fi != INVALID && tj != INVALID && !(i == j && same) {
                    let angle = get_degree_gap(fi, tj);
                    let mut k: usize = 0;
                    let mut found = false;
                    while k < na && !found
                        invariant
                            0 <= k <= na,
                            na == aspects_tolerance@.len(),
                            aspects_degree@.len() == aspects_tolerance@.len(),
                            aspects_tolerance@.len() < 0x8000_0000,
                            0 <= angle <= 180 * 1_000_000,
                            forall|x: int|
                                0 <= x < aspects_degree@.len() ==> -CIRCLE_MICRO_DEG
                                    <= #[trigger] aspects_degree@[x] <= CIRCLE_MICRO_DEG,
                            found ==> cell == spec_aspect_match(
                                angle as int,
                                aspects_degree@,
                                aspects_tolerance@,
                                0,
                            ),
                            !found ==> cell == 0,
                            !found ==> spec_aspect_match(
                                angle as int,
                                aspects_degree@,
                                aspects_tolerance@,
                                0,
                            ) == spec_aspect_match(
                                angle as int,
                                aspects_degree@,
                                aspects_tolerance@,
                                k as int,
                            ),
                        decreases na - k,
                    {
                        let diff = angle - aspects_degree[k];
                        let ad = if diff < 0 {
                            -diff
                        } else {
                            diff
                        };
                        if ad <= aspects_tolerance[k] {
                            cell = (k + 1) as i32;
                            found = true;
                        }
                        k = k + 1;
                    }
                }
                row.push(cell);
                j = j + 1;
            }
            result.push(row);
            i = i + 1;
        }
        result
    }
}

/// Whether two position lists hold the same sequence of values.
fn position_lists_equal(a: &Vec<i64>, b: &Vec<i64>) -> (r: bool)
    ensures
        r == (a@ == b@),
{
    if a.len() != b.len() {
        proof {
            assert(a@.len() != b@.len());
        }
        return false;
    }
    let n = a.len();
    let mut i: usize = 0;
    while i < n
        invariant
            0 <= i <= n,
            n == a@.len() == b@.len(),
            forall|k: int| 0 <= k < i ==> a@[k] == b@[k],
        decreases n - i,
    {
        if a[i] != b[i] {
            return false;
        }
        i = i + 1;
    }
    proof {
        assert(a@ =~= b@);
    }
    true
}

/// The motion-state decision tree of the classifier.
pub open spec fn spec_classify_motion(stationary: int, slow: int, fast: int, speed: int) -> int {
    let mag = if speed < 0 {
        -speed
    } else {
        speed
    };
    if mag < stationary {
        SPEED_STATIONARY as int
    } else if speed < 0 {
        SPEED_REVERSE as int
    } else if mag < slow {
        SPEED_SLOW as int
    } else if mag > fast {
        SPEED_FAST as int
    } else {
        SPEED_NORMAL as int
    }
}

/// Which mountain a longitude falls in: the ring starts 22.5 degrees
/// before the zero point, shifted by the configured offset.
pub open spec fn spec_mountain_index(degree: int, offset: int) -> int {
    let val0 = degree - 22500000 + offset;
    let val = if val0 < 0 {
        val0 + 360 * 1_000_000
    } else {
        val0
    };
    let idx = val / 15000000;
    if idx >= 24 {
        idx - 24
    } else {
        idx
    }
}

/// A difference in seconds rounded to whole days, halves away from
/// zero.
pub open spec fn spec_round_days(diff: int) -> int {
    if diff >= 0 {
        (diff + 43200) / 86400
    } else {
        -(((-diff) + 43200) / 86400)
    }
}

} // verus!
