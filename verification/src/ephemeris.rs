//! Typed boundary to the native astronomical oracle.
//!
//! The native library reports results as a signed status code, six
//! doubles, and a fixed-size diagnostic buffer of printable text. This
//! module owns the translation of that raw shape into a typed result:
//! a negative status becomes a [`SwissEphError`] carrying the decoded
//! diagnostic, and never anything stronger (no panic, no abort). The
//! numeric payload is carried in the engine's fixed-point units.

use vstd::prelude::*;

verus! {

/// Body codes of the oracle boundary, Sun through the lunar nodes.
pub const SE_SUN: i32 = 0;

pub const SE_MOON: i32 = 1;

pub const SE_MERCURY: i32 = 2;

pub const SE_VENUS: i32 = 3;

pub const SE_MARS: i32 = 4;

pub const SE_JUPITER: i32 = 5;

pub const SE_SATURN: i32 = 6;

pub const SE_URANUS: i32 = 7;

pub const SE_NEPTUNE: i32 = 8;

pub const SE_PLUTO: i32 = 9;

pub const SE_MEAN_NODE: i32 = 10;

pub const SE_TRUE_NODE: i32 = 11;

/// Flag bits of the oracle boundary: the three backends, the
/// topocentric switch and the sidereal switch.
pub const SEFLG_JPLEPH: i32 = 1;

pub const SEFLG_SWIEPH: i32 = 2;

pub const SEFLG_MOSEPH: i32 = 4;

pub const SEFLG_TOPOCTR: i32 = 8;

pub const SEFLG_SIDEREAL: i32 = 16;

/// Error model of the oracle boundary.
#[derive(Debug, Clone)]
pub enum SwissEphError {
    /// The oracle returned a negative status; carries the decoded
    /// diagnostic text.
    CalculationFailed(String),
    /// A malformed path, date or body code was handed in.
    InvalidInput(String),
    /// A required data file could not be found.
    FileNotFound(String),
    /// The oracle resource was never initialized.
    LibraryNotInitialized,
    /// The operation is not available on this build of the oracle.
    NotSupported,
}

/// Handle for the oracle resource. Constructing it configures
/// nothing by itself; the raw replies of the native library reach the
/// engine as [`crate::calculate::OracleReply`] events.
pub struct SwissEph {
    initialized: bool,
}

impl SwissEph {
    /// Acquire the oracle handle.
    pub fn new() -> (r: Result<SwissEph, SwissEphError>)
        ensures
            r is Ok,
    {
        Ok(SwissEph { initialized: true })
    }
}

/// What a diagnostic byte decodes to: printable ASCII stands for
/// itself, anything else is masked.
pub open spec fn spec_decode_byte(b: u8) -> char {
    if 32 <= b < 127 {
        b as char
    } else {
        '?'
    }
}

/// The decoded text of a raw diagnostic buffer: the bytes before the
/// first NUL, each mapped through `spec_decode_byte`.
pub open spec fn spec_decode_diagnostic(bytes: Seq<u8>) -> Seq<char>
    decreases bytes.len(),
{
    if bytes.len() == 0 || bytes[0] == 0 {
        Seq::empty()
    } else {
        seq![spec_decode_byte(bytes[0])] + spec_decode_diagnostic(bytes.skip(1))
    }
}

/// Relies on std's `String::push`: appends exactly the one character.
#[verifier::external_body]
fn push_char(s: &mut String, c: char)
    ensures
        final(s)@ == old(s)@.push(c),
{
    s.push(c);
}

/// Decode a fixed-size diagnostic buffer as the native boundary hands
/// it over: read up to the first NUL and keep printable ASCII.
pub fn decode_diagnostic(bytes: &[u8]) -> (r: String)
    ensures
        r@ == spec_decode_diagnostic(bytes@),
{
    let mut out = String::new();
    let n = bytes.len();
    let mut i: usize = 0;
    while i < n && bytes[i] != 0
        invariant
            n == bytes@.len(),
            0 <= i <= n,
            forall|k: int| 0 <= k < i ==> bytes@[k] != 0,
            out@ =~= decoded_prefix(bytes@, i as int),
        decreases n - i,
    {
        let b = bytes[i];
        if 32 <= b && b < 127 {
            push_char(&mut out, b as char);
        } else {
            push_char(&mut out, '?');
        }
        proof {
            lemma_decoded_prefix_step(bytes@, i as int);
        }
        i = i + 1;
    }
    proof {
        lemma_decoded_prefix_full(bytes@, i as int);
    }
    out
}

/// The decoding of the first `k` bytes of a buffer whose first `k`
/// bytes are not NUL.
spec fn decoded_prefix(bytes: Seq<u8>, k: int) -> Seq<char> {
    Seq::new(k as nat, |j: int| spec_decode_byte(bytes[j]))
}

proof fn lemma_decoded_prefix_step(bytes: Seq<u8>, k: int)
    requires
        0 <= k < bytes.len(),
    ensures
        decoded_prefix(bytes, k + 1) =~= decoded_prefix(bytes, k).push(spec_decode_byte(bytes[k])),
{
}

proof fn lemma_decoded_prefix_full(bytes: Seq<u8>, k: int)
    requires
        0 <= k <= bytes.len(),
        forall|j: int| 0 <= j < k ==> bytes[j] != 0,
        k == bytes.len() || bytes[k] == 0,
    ensures
        decoded_prefix(bytes, k) =~= spec_decode_diagnostic(bytes),
    decreases k,
{
    if k > 0 {
        lemma_decoded_prefix_full(bytes.skip(1), k - 1);
        assert(decoded_prefix(bytes, k) =~= seq![spec_decode_byte(bytes[0])] + decoded_prefix(
            bytes.skip(1),
            k - 1,
        ));
    }
}

/// Translate a raw oracle status and diagnostic buffer into the typed
/// result model: a negative status carries its decoded diagnostic,
/// any other status is success.
pub fn decode_status(status: i32, diagnostic: &[u8]) -> (r: Result<(), SwissEphError>)
    ensures
        status >= 0 <==> r is Ok,
        status < 0 ==> (r matches Err(e) && (e matches SwissEphError::CalculationFailed(msg)
            && msg@ == spec_decode_diagnostic(diagnostic@))),
{
    if status < 0 {
        Err(SwissEphError::CalculationFailed(decode_diagnostic(diagnostic)))
    } else {
        Ok(())
    }
}

/// How many bytes stand before the first NUL of a buffer.
pub open spec fn spec_nul_len(bytes: Seq<u8>) -> int
    decreases bytes.len(),
{
    if bytes.len() == 0 || bytes[0] == 0 {
        0
    } else {
        1 + spec_nul_len(bytes.skip(1))
    }
}

proof fn lemma_nul_len_at(bytes: Seq<u8>, i: int)
    requires
        0 <= i <= bytes.len(),
        forall|j: int| 0 <= j < i ==> bytes[j] != 0,
        i == bytes.len() || bytes[i] == 0,
    ensures
        spec_nul_len(bytes) == i,
    decreases i,
{
    if i > 0 {
        assert forall|j: int| 0 <= j < i - 1 implies bytes.skip(1)[j] != 0 by {
            assert(bytes.skip(1)[j] == bytes[j + 1]);
        }
        assert(i - 1 == bytes.skip(1).len() || bytes.skip(1)[i - 1] == 0);
        lemma_nul_len_at(bytes.skip(1), i - 1);
    }
}

proof fn lemma_nul_len_nonneg(bytes: Seq<u8>)
    ensures
        spec_nul_len(bytes) >= 0,
    decreases bytes.len(),
{
    if !(bytes.len() == 0 || bytes[0] == 0) {
        lemma_nul_len_nonneg(bytes.skip(1));
    }
}

proof fn lemma_nul_len_min(bytes: Seq<u8>, i: int)
    requires
        0 <= i < bytes.len(),
        forall|j: int| 0 <= j <= i ==> bytes[j] != 0,
    ensures
        spec_nul_len(bytes) > i,
    decreases i,
{
    if i > 0 {
        assert forall|j: int| 0 <= j <= i - 1 implies bytes.skip(1)[j] != 0 by {
            assert(bytes.skip(1)[j] == bytes[j + 1]);
        }
        lemma_nul_len_min(bytes.skip(1), i - 1);
    } else {
        lemma_nul_len_nonneg(bytes.skip(1));
    }
}

/// Decode a planet-name buffer as the native boundary hands it over:
/// the bytes before the first NUL are the name, which is plain ASCII;
/// a byte outside ASCII refuses the buffer as an invalid name.
pub fn decode_planet_name(buffer: &[u8]) -> (r: Result<String, SwissEphError>)
    ensures
        (r is Ok) == (forall|k: int|
            0 <= k < spec_nul_len(buffer@) ==> #[trigger] buffer@[k] < 128),
        r matches Ok(s) ==> s@ == Seq::new(
            spec_nul_len(buffer@) as nat,
            |j: int| buffer@[j] as char,
        ),
        r matches Err(e) ==> (e matches SwissEphError::CalculationFailed(m) && m@
            == "invalid planet name"@),
{
    let n = buffer.len();
    let mut out = String::new();
    let mut i: usize = 0;
    while i < n && buffer[i] != 0
        invariant
            n == buffer@.len(),
            0 <= i <= n,
            forall|k: int| 0 <= k < i ==> (#[trigger] buffer@[k] != 0 && buffer@[k] < 128),
            out@ =~= Seq::new(i as nat, |j: int| buffer@[j] as char),
        decreases n - i,
    {
        let b = buffer[i];
        if b >= 128 {
            proof {
                lemma_nul_len_min(buffer@, i as int);
            }
            return Err(SwissEphError::CalculationFailed("invalid planet name".to_owned()));
        }
        push_char(&mut out, b as char);
        proof {
            assert(out@ =~= Seq::new((i + 1) as nat, |j: int| buffer@[j] as char));
        }
        i = i + 1;
    }
    proof {
        lemma_nul_len_at(buffer@, i as int);
    }
    Ok(out)
}

/// Error of the one-shot ephemeris queries: the boundary's message,
/// flattened to text.
pub struct EphemerisError {
    pub message: String,
}

impl EphemerisError {
    /// Wrap a boundary error, keeping the diagnostic of the carrying
    /// variants and naming the others.
    pub fn from_swiss(err: SwissEphError) -> (r: EphemerisError)
        ensures
            err matches SwissEphError::CalculationFailed(m) ==> r.message@ == m@,
            err matches SwissEphError::InvalidInput(m) ==> r.message@ == m@,
            err matches SwissEphError::FileNotFound(m) ==> r.message@ == m@,
            err is LibraryNotInitialized ==> r.message@ == "library not initialized"@,
            err is NotSupported ==> r.message@ == "operation not supported"@,
    {
        match err {
            SwissEphError::CalculationFailed(m) => EphemerisError { message: m },
            SwissEphError::InvalidInput(m) => EphemerisError { message: m },
            SwissEphError::FileNotFound(m) => EphemerisError { message: m },
            SwissEphError::LibraryNotInitialized => EphemerisError {
                message: "library not initialized".to_owned(),
            },
            SwissEphError::NotSupported => EphemerisError {
                message: "operation not supported".to_owned(),
            },
        }
    }
}

/// The solar longitude read out of an oracle reply for the Sun: the
/// replied longitude on success, the boundary's error on failure, and
/// an unavailability error when no oracle is present.
pub fn solar_longitude(reply: crate::calculate::OracleReply) -> (r: Result<i64, EphemerisError>)
    ensures
        reply matches crate::calculate::OracleReply::Computed(b) ==> (r matches Ok(lon) && lon
            == b.longitude),
        reply is Failed ==> r is Err,
        reply is Absent ==> r is Err,
{
    match reply {
        crate::calculate::OracleReply::Computed(b) => Ok(b.longitude),
        crate::calculate::OracleReply::Failed(e) => Err(EphemerisError::from_swiss(e)),
        crate::calculate::OracleReply::Absent => Err(
            EphemerisError { message: "no ephemeris resource".to_owned() },
        ),
    }
}

} // verus!
