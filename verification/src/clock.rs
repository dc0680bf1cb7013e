//! Points in time, as they are written down.
use vstd::prelude::*;
use vstd::string::*;

use crate::text;

verus! {

broadcast use vstd::string::group_string_axioms;

/// The point in time that a text in the format of RFC 3339 stands for: the seconds since
/// 1970 in UTC, and the nanoseconds behind them.
pub uninterp spec fn rfc3339_instant(text: Seq<char>) -> Option<(i64, u32)>;

/// Calls `chrono::DateTime::parse_from_rfc3339`, and hands out `timestamp` and
/// `timestamp_subsec_nanos` of the time that was read. The point in time is a function of
/// the text alone.
#[verifier::external_body]
pub(crate) fn read_instant(text: &str) -> (res: Option<(i64, u32)>)
    ensures
        res == rfc3339_instant(text@),
{
    let read = chrono::DateTime::parse_from_rfc3339(text).ok()?;
    Some((read.timestamp(), read.timestamp_subsec_nanos()))
}

/// Calls `chrono::Utc::now` and `to_rfc3339_opts`: the present time, with milliseconds.
/// Nothing is promised of it.
#[verifier::external_body]
pub(crate) fn now_iso() -> (res: String) {
    chrono::Utc::now().to_rfc3339_opts(chrono::SecondsFormat::Millis, true)
}

/// Whether a point in time is later than another.
pub open spec fn is_later(a: (i64, u32), b: (i64, u32)) -> bool {
    a.0 > b.0 || (a.0 == b.0 && a.1 > b.1)
}

/// Whether a written time is after another: by the points in time that they stand for, or, where
/// one of them stands for none, by the order of the texts.
pub open spec fn is_after(
    candidate: Seq<char>,
    candidate_instant: Option<(i64, u32)>,
    watermark: Seq<char>,
    watermark_instant: Option<(i64, u32)>,
) -> bool {
    match (candidate_instant, watermark_instant) {
        (Some(a), Some(b)) => is_later(a, b),
        _ => text::text_before(watermark, candidate),
    }
}

/// Whether a written time is after another, given the points in time that they stand for.
pub fn instant_is_after(
    candidate: &str,
    candidate_instant: Option<(i64, u32)>,
    watermark: &str,
    watermark_instant: Option<(i64, u32)>,
) -> (res: bool)
    ensures
        res == is_after(candidate@, candidate_instant, watermark@, watermark_instant),
{
    match (candidate_instant, watermark_instant) {
        (Some(a), Some(b)) => a.0 > b.0 || (a.0 == b.0 && a.1 > b.1),
        _ => text::comes_before(watermark, candidate),
    }
}

/// Whether a written time is after another.
pub fn timestamp_is_after(candidate: &str, watermark: &str) -> (res: bool)
    ensures
        res == is_after(
            candidate@,
            rfc3339_instant(candidate@),
            watermark@,
            rfc3339_instant(watermark@),
        ),
{
    instant_is_after(candidate, read_instant(candidate), watermark, read_instant(watermark))
}

/// No time is after itself, and of two times at most one is after the other.
pub proof fn law_after_is_strict(
    a: Seq<char>,
    a_instant: Option<(i64, u32)>,
    b: Seq<char>,
    b_instant: Option<(i64, u32)>,
)
    ensures
        !is_after(a, a_instant, a, a_instant),
        !(is_after(a, a_instant, b, b_instant) && is_after(b, b_instant, a, a_instant)),
{
    text::lemma_text_order(a, a);
    text::lemma_text_order(a, b);
}

/// Of two times that can be read the points in time decide: the seconds first, and within a second
/// the nanoseconds, however the times are written. Where one cannot be read, the order of the texts
/// decides.
pub proof fn law_points_in_time_decide(
    a: Seq<char>,
    b: Seq<char>,
    seconds: (i64, i64),
    nanos: (u32, u32),
    instant: Option<(i64, u32)>,
)
    ensures
        ({
            let later = is_after(a, Some((seconds.0, nanos.0)), b, Some((seconds.1, nanos.1)));
            &&& seconds.0 > seconds.1 ==> later
            &&& seconds.0 < seconds.1 ==> !later
            &&& seconds.0 == seconds.1 ==> (later <==> nanos.0 > nanos.1)
        }),
        is_after(a, None, b, instant) <==> text::text_before(b, a),
        is_after(a, instant, b, None) <==> text::text_before(b, a),
{
}

} // verus!
