//! Telemetry wire protocol of the head-tracking sensor.
//!
//! One sample per line of ASCII text: a `0x` prefix, then exactly three
//! `:`-separated signed decimal numbers — yaw, pitch and roll in degrees.
//! A parsed sample is held in microradians (`i64`), converted from
//! microdegrees with the fixed ratio `17453293 / 1000000000`, which is
//! `pi / 180` scaled to nine fractional digits.

use vstd::prelude::*;
use vstd::slice::slice_index_get;
use vstd::slice::slice_subrange;
use vstd::slice::slice_to_vec;
use vstd::arithmetic::div_mod::lemma_div_is_ordered;
use crate::bus::{bus_clone, bus_send, bus_subscribe, bus_try_recv};
use crate::drivers::{DeviceDriver, DriverProcessError, DriverTick, MAX_DRAIN_PER_TICK};
use crate::messages::VrMessage;

verus! {

/// Largest magnitude a field may reach, in microdegrees: the integer part
/// of a number is capped below one million degrees.
pub const MAX_FIELD_MICRODEG: u64 = 999_999_999_999;

/// Microradians per degree, scaled: `round(pi / 180 * 10^9)`.
pub const URAD_PER_UDEG_NUM: u64 = 17_453_293;

/// Denominator of the degree-to-radian ratio.
pub const URAD_PER_UDEG_DEN: u64 = 1_000_000_000;

/// Largest magnitude of a parsed angle, in microradians.
pub const MAX_FIELD_URAD: i64 = 17_453_293_000;

// --- classification of single bytes ---------------------------------------

pub open spec fn is_ascii_digit(b: u8) -> bool {
    48 <= b <= 57
}

/// The whitespace bytes stripped around each number field.
pub open spec fn is_field_ws(b: u8) -> bool {
    b == 32 || b == 9 || b == 13 || b == 10
}

/// The line-terminator bytes stripped around a whole frame.
pub open spec fn is_line_end(b: u8) -> bool {
    b == 10 || b == 13
}

// --- generic sequence scanning ---------------------------------------------

/// Index of the first occurrence of `b` in `s`, or `s.len()` if absent.
pub open spec fn find_byte(s: Seq<u8>, b: u8) -> nat
    decreases s.len(),
{
    if s.len() == 0 {
        0
    } else if s[0] == b {
        0
    } else {
        1 + find_byte(s.skip(1), b)
    }
}

/// How often `b` occurs in `s`.
pub open spec fn count_byte(s: Seq<u8>, b: u8) -> nat
    decreases s.len(),
{
    if s.len() == 0 {
        0
    } else {
        (if s[0] == b { 1nat } else { 0nat }) + count_byte(s.skip(1), b)
    }
}

pub proof fn lemma_find_byte_bounds(s: Seq<u8>, b: u8)
    ensures
        find_byte(s, b) <= s.len(),
        forall|j: int| 0 <= j < find_byte(s, b) ==> s[j] != b,
        find_byte(s, b) < s.len() ==> s[find_byte(s, b) as int] == b,
    decreases s.len(),
{
    if s.len() > 0 && s[0] != b {
        lemma_find_byte_bounds(s.skip(1), b);
        assert forall|j: int| 0 <= j < find_byte(s, b) implies s[j] != b by {
            if j > 0 {
                assert(s.skip(1)[j - 1] == s[j]);
            }
        }
        if find_byte(s, b) < s.len() {
            assert(s.skip(1)[find_byte(s, b) - 1] == s[find_byte(s, b) as int]);
        }
    }
}

/// `find_byte` is the one index with nothing equal to `b` before it.
pub proof fn lemma_find_byte_is(s: Seq<u8>, b: u8, i: nat)
    requires
        i <= s.len(),
        forall|j: int| 0 <= j < i ==> s[j] != b,
        i < s.len() ==> s[i as int] == b,
    ensures
        find_byte(s, b) == i,
    decreases s.len(),
{
    if s.len() == 0 {
    } else if s[0] == b {
        assert(i == 0);
    } else {
        assert(i >= 1);
        assert forall|j: int| 0 <= j < i - 1 implies s.skip(1)[j] != b by {
            assert(s.skip(1)[j] == s[j + 1]);
        }
        if i < s.len() {
            assert(s.skip(1)[i - 1] == s[i as int]);
        }
        lemma_find_byte_is(s.skip(1), b, (i - 1) as nat);
    }
}

// --- trimming ----------------------------------------------------------------

/// `s` without its leading bytes matched by `ws` (a predicate on bytes,
/// encoded by a marker: 0 trims field whitespace, 1 trims line ends).
pub open spec fn trim_front(s: Seq<u8>, line_mode: bool) -> Seq<u8>
    decreases s.len(),
{
    if s.len() > 0 && (if line_mode { is_line_end(s[0]) } else { is_field_ws(s[0]) }) {
        trim_front(s.skip(1), line_mode)
    } else {
        s
    }
}

/// `s` without its trailing bytes matched by the same class.
pub open spec fn trim_back(s: Seq<u8>, line_mode: bool) -> Seq<u8>
    decreases s.len(),
{
    if s.len() > 0 && (if line_mode {
        is_line_end(s[s.len() - 1])
    } else {
        is_field_ws(s[s.len() - 1])
    }) {
        trim_back(s.take(s.len() - 1), line_mode)
    } else {
        s
    }
}

/// Whitespace stripped from both ends of a number field.
pub open spec fn trim_field(s: Seq<u8>) -> Seq<u8> {
    trim_back(trim_front(s, false), false)
}

/// Line separators stripped from both ends of a frame.
pub open spec fn trim_line(s: Seq<u8>) -> Seq<u8> {
    trim_back(trim_front(s, true), true)
}

// --- decimal numbers ---------------------------------------------------------

pub open spec fn is_digits(s: Seq<u8>) -> bool {
    forall|i: int| 0 <= i < s.len() ==> is_ascii_digit(#[trigger] s[i])
}

/// Value of a string of decimal digits, most significant first.
pub open spec fn digits_value(s: Seq<u8>) -> int
    decreases s.len(),
{
    if s.len() == 0 {
        0
    } else {
        digits_value(s.take(s.len() - 1)) * 10 + (s[s.len() - 1] - 48)
    }
}

pub open spec fn pow10(n: nat) -> int
    decreases n,
{
    if n == 0 {
        1
    } else {
        10 * pow10((n - 1) as nat)
    }
}

/// Sign byte split off the front of a trimmed field: `(negative, rest)`.
pub open spec fn sign_split(s: Seq<u8>) -> (bool, Seq<u8>) {
    if s.len() > 0 && (s[0] == 43 || s[0] == 45) {
        (s[0] == 45, s.skip(1))
    } else {
        (false, s)
    }
}

/// Integer digits of the unsigned body `t`: everything before the first dot.
pub open spec fn int_part(t: Seq<u8>) -> Seq<u8> {
    t.take(find_byte(t, 46) as int)
}

/// Fraction digits of the unsigned body `t`: everything after the first
/// dot, empty when there is none.
pub open spec fn frac_part(t: Seq<u8>) -> Seq<u8> {
    if find_byte(t, 46) == t.len() {
        Seq::empty()
    } else {
        t.skip(find_byte(t, 46) as int + 1)
    }
}

/// An unsigned decimal body: digits, an optional single dot, at least one
/// digit in all, and an integer part below one million (so that the value
/// fits the fixed-point range).
pub open spec fn valid_body(t: Seq<u8>) -> bool {
    &&& is_digits(int_part(t))
    &&& is_digits(frac_part(t))
    &&& int_part(t).len() + frac_part(t).len() > 0
    &&& (find_byte(t, 46) < t.len() ==> find_byte(t, 46) + 1 + frac_part(t).len() == t.len())
    &&& digits_value(int_part(t)) <= 999_999
}

/// The fraction digits as microdegrees: the first six digits, padded with
/// zeros on the right; digits beyond the sixth are ignored.
pub open spec fn frac_microdeg(fp: Seq<u8>) -> int {
    if fp.len() >= 6 {
        digits_value(fp.take(6))
    } else {
        digits_value(fp) * pow10((6 - fp.len()) as nat)
    }
}

/// Magnitude of the unsigned body, in microdegrees.
pub open spec fn body_microdeg(t: Seq<u8>) -> int {
    digits_value(int_part(t)) * 1_000_000 + frac_microdeg(frac_part(t))
}

/// A whole field is valid when, after trimming and the optional sign, a
/// valid unsigned body remains.
pub open spec fn field_valid(s: Seq<u8>) -> bool {
    valid_body(sign_split(trim_field(s)).1)
}

/// Microradians obtained from a microdegree magnitude, rounding down.
pub open spec fn udeg_to_urad(m: int) -> int {
    m * (URAD_PER_UDEG_NUM as int) / (URAD_PER_UDEG_DEN as int)
}

/// The signed value of a field, in microradians.
pub open spec fn field_urad(s: Seq<u8>) -> int {
    let (neg, t) = sign_split(trim_field(s));
    if neg {
        -udeg_to_urad(body_microdeg(t))
    } else {
        udeg_to_urad(body_microdeg(t))
    }
}

// --- frames -------------------------------------------------------------------

/// Errors a frame can be rejected with, classified precisely.
#[derive(Clone, Copy, Debug, PartialEq, Eq, Structural)]
pub enum GyroscopeDataframeError {
    /// The line does not begin with the `0x` prefix.
    StartInvalid,
    /// The wrong number of `:`-separated fields follows the prefix.
    LenInvalid { expected: usize, got: usize },
    /// A field is not a decimal number in range.
    NumFormat,
}

pub open spec fn has_frame_prefix(t: Seq<u8>) -> bool {
    t.len() >= 2 && t[0] == 48 && t[1] == 120
}

/// What follows the `0x` prefix of the trimmed line.
pub open spec fn frame_rest(line: Seq<u8>) -> Seq<u8> {
    trim_line(line).skip(2)
}

/// The `k`-th of the three `:`-separated fields (meaningful when the rest
/// holds exactly two colons).
pub open spec fn frame_field(line: Seq<u8>, k: int) -> Seq<u8> {
    let r = frame_rest(line);
    let p1 = find_byte(r, 58) as int;
    let p2 = p1 + 1 + find_byte(r.skip(p1 + 1), 58) as int;
    if k == 0 {
        r.take(p1)
    } else if k == 1 {
        r.subrange(p1 + 1, p2)
    } else {
        r.skip(p2 + 1)
    }
}

/// A well-formed frame: prefix, exactly three fields, each a valid number.
pub open spec fn frame_valid(line: Seq<u8>) -> bool {
    &&& has_frame_prefix(trim_line(line))
    &&& count_byte(frame_rest(line), 58) == 2
    &&& field_valid(frame_field(line, 0))
    &&& field_valid(frame_field(line, 1))
    &&& field_valid(frame_field(line, 2))
}

/// The error an ill-formed frame is rejected with: a missing prefix wins,
/// then the field count, then the shape of a field.
pub open spec fn frame_error(line: Seq<u8>) -> GyroscopeDataframeError {
    if !has_frame_prefix(trim_line(line)) {
        GyroscopeDataframeError::StartInvalid
    } else if count_byte(frame_rest(line), 58) != 2 {
        GyroscopeDataframeError::LenInvalid {
            expected: 3,
            got: (count_byte(frame_rest(line), 58) + 1) as usize,
        }
    } else {
        GyroscopeDataframeError::NumFormat
    }
}

// --- the executable field parser ------------------------------------------------

/// Strip field whitespace (or, in line mode, line separators) from both
/// ends of a slice.
fn trim_slice(s: &[u8], line_mode: bool) -> (r: &[u8])
    ensures
        r@ == (if line_mode { trim_line(s@) } else { trim_field(s@) }),
{
    let mut cur: &[u8] = s;
    loop
        invariant
            trim_front(s@, line_mode) == trim_front(cur@, line_mode),
        ensures
            cur@ == trim_front(s@, line_mode),
        decreases cur@.len(),
    {
        if cur.len() > 0 {
            let b = *slice_index_get(cur, 0);
            let ws = if line_mode {
                b == 10 || b == 13
            } else {
                b == 32 || b == 9 || b == 13 || b == 10
            };
            if ws {
                cur = slice_subrange(cur, 1, cur.len());
                continue;
            }
        }
        break;
    }
    loop
        invariant
            trim_back(trim_front(s@, line_mode), line_mode) == trim_back(cur@, line_mode),
        ensures
            cur@ == trim_back(trim_front(s@, line_mode), line_mode),
        decreases cur@.len(),
    {
        if cur.len() > 0 {
            let b = *slice_index_get(cur, cur.len() - 1);
            let ws = if line_mode {
                b == 10 || b == 13
            } else {
                b == 32 || b == 9 || b == 13 || b == 10
            };
            if ws {
                cur = slice_subrange(cur, 0, cur.len() - 1);
                continue;
            }
        }
        break;
    }
    cur
}

/// Find the first occurrence of `b` in `s`, if any.
fn find_byte_exec(s: &[u8], b: u8) -> (r: Option<usize>)
    ensures
        match r {
            Some(i) => i < s@.len() && i == find_byte(s@, b),
            None => find_byte(s@, b) == s@.len(),
        },
{
    let mut i: usize = 0;
    while i < s.len()
        invariant
            i <= s@.len(),
            forall|j: int| 0 <= j < i ==> s@[j] != b,
        decreases s@.len() - i,
    {
        if *slice_index_get(s, i) == b {
            proof {
                lemma_find_byte_is(s@, b, i as nat);
            }
            return Some(i);
        }
        i += 1;
    }
    proof {
        lemma_find_byte_is(s@, b, s@.len());
    }
    None
}

/// Parse a run of decimal digits, rejecting anything else and any value
/// above 999999. Returns the value.
fn parse_int_digits(s: &[u8]) -> (r: Option<u64>)
    ensures
        match r {
            Some(v) => is_digits(s@) && v == digits_value(s@) && v <= 999_999,
            None => !(is_digits(s@) && digits_value(s@) <= 999_999),
        },
{
    let mut i: usize = 0;
    let mut acc: u64 = 0;
    let mut too_big: bool = false;
    while i < s.len()
        invariant
            i <= s@.len(),
            forall|j: int| 0 <= j < i ==> is_ascii_digit(#[trigger] s@[j]),
            too_big <==> digits_value(s@.take(i as int)) > 999_999,
            !too_big ==> acc == digits_value(s@.take(i as int)) && acc <= 999_999,
        decreases s@.len() - i,
    {
        let b = *slice_index_get(s, i);
        if b < 48 || b > 57 {
            return None;
        }
        proof {
            assert(s@.take(i as int + 1).take(i as int) =~= s@.take(i as int));
            assert(s@.take(i as int + 1)[i as int] == s@[i as int]);
            assert(digits_value(s@.take(i as int + 1)) == digits_value(s@.take(i as int)) * 10 + (
            s@[i as int] - 48));
        }
        if too_big {
        } else {
            acc = acc * 10 + ((b - 48) as u64);
            if acc > 999_999 {
                too_big = true;
            }
        }
        i += 1;
    }
    proof {
        assert(s@.take(i as int) =~= s@);
    }
    if too_big {
        None
    } else {
        Some(acc)
    }
}

/// Parse fraction digits into microdegree units: the first six digits,
/// padded with zeros to six places; further digits only checked.
fn parse_frac_digits(s: &[u8]) -> (r: Option<u64>)
    ensures
        match r {
            Some(v) => is_digits(s@) && v == frac_microdeg(s@) && v <= 999_999,
            None => !is_digits(s@),
        },
{
    let mut i: usize = 0;
    let mut acc: u64 = 0;
    while i < s.len()
        invariant
            i <= s@.len(),
            forall|j: int| 0 <= j < i ==> is_ascii_digit(#[trigger] s@[j]),
            acc == digits_value(s@.take(if i < 6 { i as int } else { 6 })),
            acc <= 999_999,
        decreases s@.len() - i,
    {
        let b = *slice_index_get(s, i);
        if b < 48 || b > 57 {
            return None;
        }
        if i < 6 {
            proof {
                assert(s@.take(i as int + 1).take(i as int) =~= s@.take(i as int));
                assert(s@.take(i as int + 1)[i as int] == s@[i as int]);
                assert(digits_value(s@.take(i as int + 1)) == digits_value(s@.take(i as int)) * 10
                    + (s@[i as int] - 48));
                assert(digits_value(s@.take(i as int)) < pow10(i as nat)) by {
                    assert(forall|j: int|
                        0 <= j < i ==> is_ascii_digit(#[trigger] s@.take(i as int)[j]));
                    lemma_digits_value_upper(s@.take(i as int));
                }
                assert(pow10(i as nat) <= pow10(5)) by {
                    lemma_pow10_monotone(i as nat, 5);
                }
                assert(pow10(5) == 100_000) by {
                    reveal_with_fuel(pow10, 7);
                }
            }
            acc = acc * 10 + ((b - 48) as u64);
        }
        i += 1;
    }
    proof {
        if s@.len() < 6 {
            assert(s@.take(i as int) =~= s@);
        }
    }
    if s.len() >= 6 {
        Some(acc)
    } else {
        // scale what was read up to six fractional places
        let factor: u64 = pow10_exec(6 - s.len());
        proof {
            lemma_frac_scale_bound(s@);
        }
        Some(acc * factor)
    }
}

/// Small powers of ten, for padding short fractions.
fn pow10_exec(n: usize) -> (r: u64)
    requires
        n <= 6,
    ensures
        r as int == pow10(n as nat),
{
    proof {
        assert(pow10(0) == 1 && pow10(1) == 10 && pow10(2) == 100 && pow10(3) == 1000 && pow10(4)
            == 10000 && pow10(5) == 100000 && pow10(6) == 1000000) by {
            reveal_with_fuel(pow10, 7);
        }
    }
    if n == 0 {
        1
    } else if n == 1 {
        10
    } else if n == 2 {
        100
    } else if n == 3 {
        1_000
    } else if n == 4 {
        10_000
    } else if n == 5 {
        100_000
    } else {
        1_000_000
    }
}

/// Digit strings are bounded by the power of ten of their length.
proof fn lemma_digits_value_upper(s: Seq<u8>)
    requires
        is_digits(s),
    ensures
        0 <= digits_value(s) < pow10(s.len()),
    decreases s.len(),
{
    if s.len() > 0 {
        assert(forall|i: int| 0 <= i < s.len() - 1 ==> is_ascii_digit(
            #[trigger] s.take(s.len() - 1)[i],
        ));
        lemma_digits_value_upper(s.take(s.len() - 1));
    }
}

proof fn lemma_pow10_monotone(a: nat, b: nat)
    requires
        a <= b,
    ensures
        pow10(a) <= pow10(b),
        pow10(a) >= 1,
    decreases b,
{
    if a == b {
        lemma_pow10_positive(a);
    } else {
        lemma_pow10_monotone(a, (b - 1) as nat);
    }
}

proof fn lemma_pow10_positive(n: nat)
    ensures
        pow10(n) >= 1,
    decreases n,
{
    if n > 0 {
        lemma_pow10_positive((n - 1) as nat);
    }
}

/// A short fraction scaled to six places stays below one microdegree unit
/// of the next integer: at most 999999.
proof fn lemma_frac_scale_bound(s: Seq<u8>)
    requires
        is_digits(s),
        s.len() < 6,
    ensures
        digits_value(s) * pow10((6 - s.len()) as nat) <= 999_999,
{
    lemma_digits_value_upper(s);
    lemma_pow10_positive((6 - s.len()) as nat);
    assert(digits_value(s) <= pow10(s.len()) - 1);
    assert((pow10(s.len()) - 1) * pow10((6 - s.len()) as nat) == pow10(s.len()) * pow10(
        (6 - s.len()) as nat,
    ) - pow10((6 - s.len()) as nat)) by (nonlinear_arith);
    lemma_pow10_mul(s.len() as nat, (6 - s.len()) as nat);
    assert(pow10(s.len()) * pow10((6 - s.len()) as nat) == pow10(6));
    assert(pow10(6) == 1_000_000) by {
        reveal_with_fuel(pow10, 7);
    }
    assert(digits_value(s) * pow10((6 - s.len()) as nat) <= (pow10(s.len()) - 1) * pow10(
        (6 - s.len()) as nat,
    )) by (nonlinear_arith)
        requires
            digits_value(s) <= pow10(s.len()) - 1,
            pow10((6 - s.len()) as nat) >= 1,
    ;
}

proof fn lemma_pow10_mul(a: nat, b: nat)
    ensures
        pow10(a) * pow10(b) == pow10(a + b),
    decreases a,
{
    if a == 0 {
    } else {
        lemma_pow10_mul((a - 1) as nat, b);
        assert(pow10(a) * pow10(b) == 10 * pow10((a - 1) as nat) * pow10(b));
        assert(10 * pow10((a - 1) as nat) * pow10(b) == 10 * (pow10((a - 1) as nat) * pow10(b)))
            by (nonlinear_arith);
        assert((a - 1) as nat + b == (a + b - 1) as nat);
    }
}

/// Parse one trimmed-and-signed field into signed microradians.
fn parse_field(s: &[u8]) -> (r: Option<i64>)
    ensures
        match r {
            Some(v) => field_valid(s@) && v == field_urad(s@) && -MAX_FIELD_URAD <= v
                <= MAX_FIELD_URAD,
            None => !field_valid(s@),
        },
{
    let t = trim_slice(s, false);
    let (neg, body): (bool, &[u8]) = if t.len() > 0 && (*slice_index_get(t, 0) == 43
        || *slice_index_get(t, 0) == 45) {
        (*slice_index_get(t, 0) == 45, slice_subrange(t, 1, t.len()))
    } else {
        (false, t)
    };
    proof {
        assert(sign_split(trim_field(s@)).0 == neg);
        assert(sign_split(trim_field(s@)).1 == body@);
    }
    let dot = find_byte_exec(body, 46);
    let (ip, fp): (&[u8], &[u8]) = match dot {
        Some(d) => (slice_subrange(body, 0, d), slice_subrange(body, d + 1, body.len())),
        None => (body, slice_subrange(body, 0, 0)),
    };
    proof {
        assert(ip@ == int_part(body@));
        assert(fp@ =~= frac_part(body@));
    }
    if ip.len() == 0 && fp.len() == 0 {
        return None;
    }
    let iv = match parse_int_digits(ip) {
        Some(v) => v,
        None => {
            return None;
        },
    };
    let fv = match parse_frac_digits(fp) {
        Some(v) => v,
        None => {
            return None;
        },
    };
    let udeg: u64 = iv * 1_000_000 + fv;
    proof {
        assert(udeg <= MAX_FIELD_MICRODEG);
        assert(udeg == body_microdeg(body@));
        assert(udeg * URAD_PER_UDEG_NUM <= 999_999_999_999 * 17_453_293) by (nonlinear_arith)
            requires
                udeg <= 999_999_999_999u64,
        ;
        assert(999_999_999_999 * 17_453_293 < u64::MAX);
    }
    let urad: u64 = (udeg * URAD_PER_UDEG_NUM) / URAD_PER_UDEG_DEN;
    proof {
        assert(urad == udeg_to_urad(body_microdeg(body@)));
        lemma_div_is_ordered(
            (udeg * URAD_PER_UDEG_NUM) as int,
            999_999_999_999int * 17_453_293,
            1_000_000_000,
        );
        assert(999_999_999_999 * 17_453_293 / 1_000_000_000 <= MAX_FIELD_URAD);
    }
    if neg {
        Some(0i64 - (urad as i64))
    } else {
        Some(urad as i64)
    }
}

// --- parsed samples -------------------------------------------------------------

/// One orientation sample: yaw, pitch and roll in microradians.
#[derive(Clone, Copy, Debug, PartialEq, Eq, Structural)]
pub struct GyroscopeDataframe {
    pub yaw: i64,
    pub pitch: i64,
    pub roll: i64,
}

/// Every component within `[-b, b]`.
pub open spec fn df_bounded(d: GyroscopeDataframe, b: int) -> bool {
    &&& -b <= d.yaw <= b
    &&& -b <= d.pitch <= b
    &&& -b <= d.roll <= b
}

/// The all-zero sample.
pub open spec fn df_zero() -> GyroscopeDataframe {
    GyroscopeDataframe { yaw: 0, pitch: 0, roll: 0 }
}

/// The sample a frame parses to (meaningful when the frame is valid).
pub open spec fn frame_sample(line: Seq<u8>) -> GyroscopeDataframe {
    GyroscopeDataframe {
        yaw: field_urad(frame_field(line, 0)) as i64,
        pitch: field_urad(frame_field(line, 1)) as i64,
        roll: field_urad(frame_field(line, 2)) as i64,
    }
}

/// A raw sample calibrated against an optional zero offset: the offset is
/// subtracted componentwise; with no offset the raw sample stands.
pub open spec fn calibrate_spec(
    raw: GyroscopeDataframe,
    off: Option<GyroscopeDataframe>,
) -> GyroscopeDataframe {
    match off {
        Option::None => raw,
        Option::Some(o) => GyroscopeDataframe {
            yaw: (raw.yaw - o.yaw) as i64,
            pitch: (raw.pitch - o.pitch) as i64,
            roll: (raw.roll - o.roll) as i64,
        },
    }
}

/// Zero calibration is idempotent: a raw sample calibrated against itself
/// is the all-zero sample, so feeding the frame that set the offset again
/// yields (0, 0, 0).
pub proof fn lemma_zero_calibration_idempotent(raw: GyroscopeDataframe)
    ensures
        calibrate_spec(raw, Some(raw)) == df_zero(),
{
}

impl Default for GyroscopeDataframe {
    /// The all-zero sample.
    fn default() -> (r: GyroscopeDataframe)
        ensures
            r == df_zero(),
    {
        GyroscopeDataframe { yaw: 0, pitch: 0, roll: 0 }
    }
}

impl GyroscopeDataframe {
    /// Componentwise difference, as used by calibration.
    pub fn minus(self, rhs: GyroscopeDataframe) -> (r: GyroscopeDataframe)
        requires
            i64::MIN <= self.yaw - rhs.yaw <= i64::MAX,
            i64::MIN <= self.pitch - rhs.pitch <= i64::MAX,
            i64::MIN <= self.roll - rhs.roll <= i64::MAX,
        ensures
            r.yaw == self.yaw - rhs.yaw,
            r.pitch == self.pitch - rhs.pitch,
            r.roll == self.roll - rhs.roll,
    {
        GyroscopeDataframe {
            yaw: self.yaw - rhs.yaw,
            pitch: self.pitch - rhs.pitch,
            roll: self.roll - rhs.roll,
        }
    }

    /// Parse one line: `0x`, then yaw, pitch and roll as `:`-separated
    /// signed decimal degrees. The error states exactly what was wrong.
    pub fn try_from(value: &[u8]) -> (r: Result<GyroscopeDataframe, GyroscopeDataframeError>)
        ensures
            match r {
                Ok(df) => frame_valid(value@) && df == frame_sample(value@) && df_bounded(
                    df,
                    MAX_FIELD_URAD as int,
                ),
                Err(e) => !frame_valid(value@) && e == frame_error(value@),
            },
    {
        let t = trim_slice(value, true);
        if !(t.len() >= 2 && *slice_index_get(t, 0) == 48 && *slice_index_get(t, 1) == 120) {
            return Err(GyroscopeDataframeError::StartInvalid);
        }
        let rest = slice_subrange(t, 2, t.len());
        proof {
            assert(rest@ =~= frame_rest(value@));
        }
        let mut i: usize = 0;
        let mut count: usize = 0;
        let mut p1: usize = 0;
        let mut p2: usize = 0;
        proof {
            assert(rest@.skip(0) =~= rest@);
        }
        while i < rest.len()
            invariant
                i <= rest@.len(),
                count <= i,
                count as nat + count_byte(rest@.skip(i as int), 58) == count_byte(rest@, 58),
                count >= 1 ==> p1 < i && rest@[p1 as int] == 58,
                count >= 1 ==> forall|j: int| 0 <= j < p1 ==> rest@[j] != 58,
                count >= 2 ==> p1 < p2 < i && rest@[p2 as int] == 58,
                count >= 2 ==> forall|j: int| p1 < j < p2 ==> rest@[j] != 58,
                count == 0 ==> forall|j: int| 0 <= j < i ==> rest@[j] != 58,
                count == 1 ==> forall|j: int| p1 < j < i ==> rest@[j] != 58,
                count == 2 ==> forall|j: int| p2 < j < i ==> rest@[j] != 58,
            decreases rest@.len() - i,
        {
            proof {
                assert(rest@.skip(i as int)[0] == rest@[i as int]);
                assert(rest@.skip(i as int).skip(1) =~= rest@.skip(i as int + 1));
            }
            if *slice_index_get(rest, i) == 58 {
                if count == 0 {
                    p1 = i;
                } else if count == 1 {
                    p2 = i;
                }
                count += 1;
            }
            i += 1;
        }
        proof {
            assert(rest@.skip(rest@.len() as int) =~= Seq::<u8>::empty());
            assert(count as nat == count_byte(rest@, 58));
        }
        if count != 2 {
            return Err(
                GyroscopeDataframeError::LenInvalid { expected: 3, got: count + 1 },
            );
        }
        proof {
            lemma_find_byte_is(rest@, 58, p1 as nat);
            assert forall|j: int| 0 <= j < p2 - p1 - 1 implies #[trigger] rest@.skip(
                p1 as int + 1,
            )[j] != 58 by {
                assert(rest@.skip(p1 as int + 1)[j] == rest@[p1 + 1 + j]);
            }
            assert(rest@.skip(p1 as int + 1)[p2 - p1 - 1] == rest@[p2 as int]);
            lemma_find_byte_is(rest@.skip(p1 as int + 1), 58, (p2 - p1 - 1) as nat);
        }
        let f0 = slice_subrange(rest, 0, p1);
        let f1 = slice_subrange(rest, p1 + 1, p2);
        let f2 = slice_subrange(rest, p2 + 1, rest.len());
        proof {
            assert(f0@ =~= frame_field(value@, 0));
            assert(f1@ =~= frame_field(value@, 1));
            assert(f2@ =~= frame_field(value@, 2));
        }
        let yaw = match parse_field(f0) {
            Some(v) => v,
            None => {
                return Err(GyroscopeDataframeError::NumFormat);
            },
        };
        let pitch = match parse_field(f1) {
            Some(v) => v,
            None => {
                return Err(GyroscopeDataframeError::NumFormat);
            },
        };
        let roll = match parse_field(f2) {
            Some(v) => v,
            None => {
                return Err(GyroscopeDataframeError::NumFormat);
            },
        };
        Ok(GyroscopeDataframe { yaw, pitch, roll })
    }
}

// --- the driver -------------------------------------------------------------------

/// What draining all complete lines out of a byte buffer leaves behind:
/// the last raw and calibrated samples, the remaining partial line, and
/// the first parse failure, if one stopped the drain.
pub ghost struct LineDrainOutcome {
    pub raw: GyroscopeDataframe,
    pub data: GyroscopeDataframe,
    pub rest: Seq<u8>,
    pub err: Option<GyroscopeDataframeError>,
}

/// Drain complete lines from `buf` front to back: each valid frame becomes
/// the new raw sample and, calibrated against `off`, the new reading; an
/// invalid frame stops the drain (its line is consumed); the trailing
/// partial line stays.
pub open spec fn drain_lines(
    raw: GyroscopeDataframe,
    data: GyroscopeDataframe,
    off: Option<GyroscopeDataframe>,
    buf: Seq<u8>,
) -> LineDrainOutcome
    decreases buf.len(),
{
    let nl = find_byte(buf, 10);
    if nl >= buf.len() {
        LineDrainOutcome { raw, data, rest: buf, err: None }
    } else {
        let line = buf.take(nl as int);
        let tail = buf.skip(nl as int + 1);
        if frame_valid(line) {
            drain_lines(frame_sample(line), calibrate_spec(frame_sample(line), off), off, tail)
        } else {
            LineDrainOutcome { raw, data, rest: tail, err: Some(frame_error(line)) }
        }
    }
}

/// Driver of the head-tracking sensor: parses its line protocol, owns the
/// zero-offset calibration, and publishes one calibrated reading per tick.
/// The caller reads the serial port and hands the bytes in.
pub struct HeadsetGyroscopeDeviceDriver {
    /// The last calibrated sample.
    pub last_data: GyroscopeDataframe,
    last_raw_data: GyroscopeDataframe,
    line_buffer: Vec<u8>,
    zero_offset: Option<GyroscopeDataframe>,
    bus: pub_sub::PubSub<VrMessage>,
    subscription: pub_sub::Subscription<VrMessage>,
}

impl HeadsetGyroscopeDeviceDriver {
    /// The latest calibrated sample, as contracts see it.
    pub closed spec fn data_view(&self) -> GyroscopeDataframe {
        self.last_data
    }

    /// The latest raw (uncalibrated) sample.
    pub closed spec fn raw_view(&self) -> GyroscopeDataframe {
        self.last_raw_data
    }

    /// The zero offset, if a zero command has set one.
    pub closed spec fn offset_view(&self) -> Option<GyroscopeDataframe> {
        self.zero_offset
    }

    /// The partial line retained across ticks.
    pub closed spec fn buffer_view(&self) -> Seq<u8> {
        self.line_buffer@
    }

    pub fn new(bus: &pub_sub::PubSub<VrMessage>) -> (d: HeadsetGyroscopeDeviceDriver)
        ensures
            d.wf(),
            d.data_view() == df_zero(),
            d.raw_view() == df_zero(),
            d.offset_view() is None,
            d.buffer_view() == Seq::<u8>::empty(),
    {
        HeadsetGyroscopeDeviceDriver {
            last_data: GyroscopeDataframe { yaw: 0, pitch: 0, roll: 0 },
            last_raw_data: GyroscopeDataframe { yaw: 0, pitch: 0, roll: 0 },
            line_buffer: Vec::new(),
            zero_offset: None,
            bus: bus_clone(bus),
            subscription: bus_subscribe(bus),
        }
    }

    /// Take the current raw sample as the new zero offset, so that the next
    /// identical raw sample calibrates to (0, 0, 0).
    pub fn zero(&mut self)
        ensures
            final(self).offset_view() == Some(old(self).raw_view()),
            final(self).data_view() == old(self).data_view(),
            final(self).raw_view() == old(self).raw_view(),
            final(self).buffer_view() == old(self).buffer_view(),
            old(self).wf() ==> final(self).wf(),
    {
        self.zero_offset = Some(self.last_raw_data);
    }

    /// Split the first complete line off the buffer, keeping the rest.
    fn take_line(&mut self) -> (r: Option<Vec<u8>>)
        ensures
            final(self).last_data == old(self).last_data,
            final(self).last_raw_data == old(self).last_raw_data,
            final(self).zero_offset == old(self).zero_offset,
            final(self).bus == old(self).bus,
            final(self).subscription == old(self).subscription,
            match r {
                Some(l) => {
                    let nl = find_byte(old(self).line_buffer@, 10);
                    &&& nl < old(self).line_buffer@.len()
                    &&& l@ == old(self).line_buffer@.take(nl as int)
                    &&& final(self).line_buffer@ == old(self).line_buffer@.skip(nl as int + 1)
                },
                None => find_byte(old(self).line_buffer@, 10) == old(self).line_buffer@.len()
                    && final(self).line_buffer == old(self).line_buffer,
            },
    {
        match find_byte_exec(self.line_buffer.as_slice(), 10) {
            Some(i) => {
                proof {
                    assert(i < self.line_buffer@.len());
                }
                let line = slice_to_vec(slice_subrange(self.line_buffer.as_slice(), 0, i));
                let end = self.line_buffer.len();
                proof {
                    assert(i + 1 <= end);
                }
                let rest = slice_to_vec(slice_subrange(self.line_buffer.as_slice(), i + 1, end));
                self.line_buffer = rest;
                Some(line)
            },
            None => None,
        }
    }

    /// Parse one complete line and update the raw and calibrated samples.
    fn process_available_line(&mut self, line: &[u8]) -> (r: Result<(), GyroscopeDataframeError>)
        requires
            old(self).wf(),
        ensures
            final(self).wf(),
            final(self).zero_offset == old(self).zero_offset,
            final(self).line_buffer == old(self).line_buffer,
            final(self).bus == old(self).bus,
            final(self).subscription == old(self).subscription,
            match r {
                Ok(_) => frame_valid(line@) && final(self).last_raw_data == frame_sample(line@)
                    && final(self).last_data == calibrate_spec(
                    frame_sample(line@),
                    old(self).zero_offset,
                ),
                Err(e) => !frame_valid(line@) && e == frame_error(line@) && final(self).last_data
                    == old(self).last_data && final(self).last_raw_data == old(
                    self,
                ).last_raw_data,
            },
    {
        let df = match GyroscopeDataframe::try_from(line) {
            Ok(df) => df,
            Err(e) => {
                return Err(e);
            },
        };
        self.last_raw_data = df;
        let calibrated = match self.zero_offset {
            Some(o) => df.minus(o),
            None => df,
        };
        self.last_data = calibrated;
        Ok(())
    }

    /// One tick: apply pending zero commands from the bus, drain every
    /// complete line out of the buffered serial input, then publish the
    /// latest calibrated reading. A tick without new bytes is not an error.
    pub fn process_tick(&mut self, input: &[u8]) -> (r: Result<(), DriverProcessError>)
        requires
            old(self).wf(),
        ensures
            final(self).wf(),
            final(self).offset_view() == old(self).offset_view() || final(self).offset_view()
                == Some(old(self).raw_view()),
            ({
                let o = drain_lines(
                    old(self).raw_view(),
                    old(self).data_view(),
                    final(self).offset_view(),
                    old(self).buffer_view() + input@,
                );
                &&& final(self).raw_view() == o.raw
                &&& final(self).data_view() == o.data
                &&& final(self).buffer_view() == o.rest
                &&& match r {
                    Ok(_) => o.err is None,
                    Err(DriverProcessError::DataframeError(e)) => o.err == Some(e),
                    Err(DriverProcessError::BusError) => o.err is None,
                    Err(_) => false,
                }
            }),
    {
        // apply pending zero commands first
        let mut k: u64 = 0;
        while k < MAX_DRAIN_PER_TICK
            invariant
                self.wf(),
                self.last_data == old(self).last_data,
                self.last_raw_data == old(self).last_raw_data,
                self.line_buffer == old(self).line_buffer,
                self.bus == old(self).bus,
                self.subscription == old(self).subscription,
                self.zero_offset == old(self).zero_offset || self.zero_offset == Some(
                    old(self).last_raw_data,
                ),
            decreases MAX_DRAIN_PER_TICK - k,
        {
            match bus_try_recv(&self.subscription) {
                Some(m) => {
                    match m {
                        VrMessage::SetGyroscopeZero {  } => {
                            self.zero_offset = Some(self.last_raw_data);
                        },
                        _ => {},
                    }
                },
                None => {
                    break ;
                },
            }
            k += 1;
        }
        // buffer the new bytes
        let mut incoming = slice_to_vec(input);
        self.line_buffer.append(&mut incoming);
        let ghost off = self.zero_offset;
        let ghost target = drain_lines(
            self.last_raw_data,
            self.last_data,
            off,
            self.line_buffer@,
        );
        proof {
            assert(self.line_buffer@ == old(self).line_buffer@ + input@);
        }
        // drain complete lines
        loop
            invariant
                self.wf(),
                self.zero_offset == off,
                self.bus == old(self).bus,
                self.subscription == old(self).subscription,
                drain_lines(self.last_raw_data, self.last_data, off, self.line_buffer@) == target,
                off == old(self).offset_view() || off == Some(old(self).raw_view()),
                target == drain_lines(
                    old(self).raw_view(),
                    old(self).data_view(),
                    off,
                    old(self).buffer_view() + input@,
                ),
            ensures
                self.wf(),
                self.zero_offset == off,
                self.bus == old(self).bus,
                self.subscription == old(self).subscription,
                drain_lines(self.last_raw_data, self.last_data, off, self.line_buffer@) == target,
                find_byte(self.line_buffer@, 10) == self.line_buffer@.len(),
            decreases self.line_buffer@.len(),
        {
            let line = match self.take_line() {
                Some(l) => l,
                None => {
                    break ;
                },
            };
            match self.process_available_line(line.as_slice()) {
                Ok(_) => {},
                Err(e) => {
                    return Err(DriverProcessError::DataframeError(e));
                },
            }
        }
        // publish the latest calibrated reading: exactly one per tick, and
        // none at all when a line failed to parse (the error returned above)
        let message = self.as_state_transfer();
        if bus_send(&self.bus, message) {
            Ok(())
        } else {
            Err(DriverProcessError::BusError)
        }
    }

    /// The reading this driver reports: the latest calibrated sample, with
    /// the unused temperature channel fixed at zero.
    pub fn as_state_transfer(&self) -> (m: VrMessage)
        ensures
            m == (VrMessage::GyroscopeReading {
                yaw: self.data_view().yaw,
                pitch: self.data_view().pitch,
                roll: self.data_view().roll,
                temperature: 0,
            }),
    {
        VrMessage::GyroscopeReading {
            yaw: self.last_data.yaw,
            pitch: self.last_data.pitch,
            roll: self.last_data.roll,
            temperature: 0,
        }
    }
}

impl DeviceDriver for HeadsetGyroscopeDeviceDriver {
    /// Samples parsed from the wire are bounded; the calibrated sample is a
    /// difference of two of them.
    closed spec fn wf(&self) -> bool {
        &&& df_bounded(self.last_raw_data, MAX_FIELD_URAD as int)
        &&& df_bounded(self.last_data, 2 * MAX_FIELD_URAD as int)
        &&& match self.zero_offset {
            Option::Some(o) => df_bounded(o, MAX_FIELD_URAD as int),
            Option::None => true,
        }
    }

    /// One tick over the bytes the caller read from the port; the tick
    /// itself is only read. The publish happens once per tick, through
    /// `as_state_transfer`, and not at all when a line failed to parse.
    fn process(&mut self, tick: &mut DriverTick) -> (r: Result<(), DriverProcessError>)
        ensures
            *final(tick) == *old(tick),
            final(self).offset_view() == old(self).offset_view() || final(self).offset_view()
                == Some(old(self).raw_view()),
            ({
                let o = drain_lines(
                    old(self).raw_view(),
                    old(self).data_view(),
                    final(self).offset_view(),
                    old(self).buffer_view() + old(tick).serial_input@,
                );
                &&& final(self).raw_view() == o.raw
                &&& final(self).data_view() == o.data
                &&& final(self).buffer_view() == o.rest
                &&& match r {
                    Ok(_) => o.err is None,
                    Err(DriverProcessError::DataframeError(e)) => o.err == Some(e),
                    Err(DriverProcessError::BusError) => o.err is None,
                    Err(_) => false,
                }
            }),
    {
        self.process_tick(tick.serial_input.as_slice())
    }
}

} // verus!
