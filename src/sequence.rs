//! Integer and rule parts of the sequence-quality analysis: splitting a
//! time-ordered run of exposures into sessions, the ordered rule table that
//! names a degradation, the gradual-change test, and the summary buckets.
use vstd::prelude::*;
use crate::refresh::{metadata_string, metadata_text};

verus! {

/// Whether a new session begins at position `i`: the gap to the previous
/// exposure exceeds the session gap.
pub open spec fn starts_session(ts: Seq<i64>, i: int, gap_secs: int) -> bool {
    i == 0 || ts[i] - ts[i - 1] > gap_secs
}

/// Positions at which sessions begin, in order.
pub open spec fn session_starts(ts: Seq<i64>, gap_secs: int) -> Seq<usize>
    decreases ts.len(),
{
    if ts.len() == 0 {
        Seq::empty()
    } else if starts_session(ts, ts.len() - 1, gap_secs) {
        session_starts(ts.drop_last(), gap_secs).push((ts.len() - 1) as usize)
    } else {
        session_starts(ts.drop_last(), gap_secs)
    }
}

/// Sessions partition the run: the first begins at the first exposure,
/// starts are in increasing order, and a position starts a session exactly
/// when the gap before it exceeds the session gap.
pub proof fn lemma_session_starts_shape(ts: Seq<i64>, gap_secs: int)
    requires
        ts.len() <= usize::MAX,
    ensures
        ts.len() > 0 ==> session_starts(ts, gap_secs).len() > 0 && session_starts(ts, gap_secs)[0] == 0,
        ts.len() == 0 ==> session_starts(ts, gap_secs).len() == 0,
        forall|a: int, b: int|
            0 <= a < b < session_starts(ts, gap_secs).len() ==> session_starts(ts, gap_secs)[a]
                < session_starts(ts, gap_secs)[b],
        forall|i: int|
            0 <= i < ts.len() ==> (session_starts(ts, gap_secs).contains(i as usize) <==> starts_session(
                ts,
                i,
                gap_secs,
            )),
        forall|a: int|
            0 <= a < session_starts(ts, gap_secs).len() ==> session_starts(ts, gap_secs)[a] < ts.len(),
    decreases ts.len(),
{
    if ts.len() > 0 {
        let prev = ts.drop_last();
        lemma_session_starts_shape(prev, gap_secs);
        let n = ts.len() - 1;
        assert forall|i: int| 0 <= i < n implies starts_session(prev, i, gap_secs) == starts_session(
            ts,
            i,
            gap_secs,
        ) by {}
        let st = session_starts(ts, gap_secs);
        let ps = session_starts(prev, gap_secs);
        assert forall|i: int| 0 <= i < ts.len() implies (st.contains(i as usize) <==> starts_session(
            ts,
            i,
            gap_secs,
        )) by {
            if i < n {
                if st.contains(i as usize) {
                    let j = choose|j: int| 0 <= j < st.len() && st[j] == i as usize;
                    if j < ps.len() {
                        assert(ps[j] == i as usize);
                    }
                }
                if ps.contains(i as usize) {
                    let j = choose|j: int| 0 <= j < ps.len() && ps[j] == i as usize;
                    assert(st[j] == i as usize);
                }
            } else {
                if starts_session(ts, n, gap_secs) {
                    assert(st[st.len() - 1] == n as usize);
                } else if st.contains(i as usize) {
                    let j = choose|j: int| 0 <= j < st.len() && st[j] == i as usize;
                    assert(ps[j] < prev.len());
                }
            }
        }
        if n == 0 {
            assert(starts_session(ts, 0, gap_secs));
        }
    }
}

proof fn lemma_starts_prefix(ts: Seq<i64>, gap_secs: int, i: int)
    requires
        0 <= i < ts.len(),
    ensures
        starts_session(ts.subrange(0, i + 1), i, gap_secs) == starts_session(ts, i, gap_secs),
        ts.subrange(0, i + 1).drop_last() == ts.subrange(0, i),
{
    assert(ts.subrange(0, i + 1).drop_last() =~= ts.subrange(0, i));
}

/// Where sessions begin in a run of acquisition times (Unix seconds, in the
/// order given, normally ascending): at the first exposure, and wherever the
/// gap to the previous one exceeds `gap_minutes` minutes.
pub fn split_sessions(timestamps: &Vec<i64>, gap_minutes: u64) -> (r: Vec<usize>)
    ensures
        r@ == session_starts(timestamps@, gap_minutes * 60),
{
    let gap: i128 = gap_minutes as i128 * 60;
    let mut r: Vec<usize> = Vec::new();
    let mut i: usize = 0;
    while i < timestamps.len()
        invariant
            gap == gap_minutes * 60,
            i <= timestamps@.len(),
            r@ == session_starts(timestamps@.subrange(0, i as int), gap_minutes * 60),
        decreases timestamps@.len() - i,
    {
        proof {
            lemma_starts_prefix(timestamps@, gap_minutes * 60, i as int);
        }
        if i == 0 || (timestamps[i] as i128) - (timestamps[i - 1] as i128) > gap {
            r.push(i);
        }
        i = i + 1;
    }
    assert(timestamps@.subrange(0, i as int) =~= timestamps@);
    r
}

/// The time an exposure is ordered by: its timestamp, or zero without one.
pub open spec fn order_key(t: Option<i64>) -> int {
    match t {
        Some(v) => v as int,
        None => 0,
    }
}

/// `order` lists each position of `ts` once, by ascending time, and
/// positions of equal time in their original order.
pub open spec fn is_time_order(ts: Seq<Option<i64>>, order: Seq<usize>) -> bool {
    &&& order.len() == ts.len()
    &&& forall|a: int| 0 <= a < order.len() ==> order[a] < ts.len()
    &&& forall|a: int, b: int| 0 <= a < b < order.len() ==> order[a] != order[b]
    &&& forall|a: int, b: int|
        0 <= a < b < order.len() ==> order_key(ts[order[a] as int]) < order_key(ts[order[b] as int])
            || (order_key(ts[order[a] as int]) == order_key(ts[order[b] as int]) && order[a] < order[b])
}

fn key_at(ts: &Vec<Option<i64>>, j: usize) -> (r: i64)
    requires
        j < ts@.len(),
    ensures
        r == order_key(ts@[j as int]),
{
    match ts[j] {
        Some(v) => v,
        None => 0,
    }
}

/// Positions of the exposures in time order (stable: equal times keep their
/// given order); an exposure without a timestamp counts as time zero.
pub fn order_by_time(ts: &Vec<Option<i64>>) -> (r: Vec<usize>)
    ensures
        is_time_order(ts@, r@),
{
    let mut r: Vec<usize> = Vec::new();
    let mut i: usize = 0;
    while i < ts.len()
        invariant
            i <= ts@.len(),
            r@.len() == i,
            forall|a: int| 0 <= a < r@.len() ==> r@[a] < i,
            forall|a: int, b: int| 0 <= a < b < r@.len() ==> r@[a] != r@[b],
            forall|a: int, b: int|
                0 <= a < b < r@.len() ==> order_key(ts@[r@[a] as int]) < order_key(ts@[r@[b] as int])
                    || (order_key(ts@[r@[a] as int]) == order_key(ts@[r@[b] as int]) && r@[a] < r@[b]),
        decreases ts@.len() - i,
    {
        let k = key_at(ts, i);
        let mut p: usize = 0;
        while p < r.len() && key_at(ts, r[p]) <= k
            invariant
                i < ts@.len(),
                k == order_key(ts@[i as int]),
                p <= r@.len(),
                forall|a: int| 0 <= a < r@.len() ==> r@[a] < i,
                forall|a: int| 0 <= a < p ==> order_key(ts@[r@[a] as int]) <= k,
            decreases r@.len() - p,
        {
            p = p + 1;
        }
        let ghost old_r = r@;
        proof {
            assert forall|a: int| p <= a < old_r.len() implies order_key(ts@[old_r[a] as int]) > k by {
                if p < old_r.len() {
                    assert(order_key(ts@[old_r[p as int] as int]) > k);
                    if a > p {
                        assert(order_key(ts@[old_r[p as int] as int]) <= order_key(ts@[old_r[a] as int]));
                    }
                }
            }
        }
        r.insert(p, i);
        proof {
            let n = r@;
            assert forall|a: int| 0 <= a < n.len() implies n[a] < i + 1 by {
                if a < p { assert(n[a] == old_r[a]); } else if a > p { assert(n[a] == old_r[a - 1]); }
            }
            assert forall|a: int, b: int| 0 <= a < b < n.len() implies n[a] != n[b] && (order_key(
                ts@[n[a] as int],
            ) < order_key(ts@[n[b] as int]) || (order_key(ts@[n[a] as int]) == order_key(
                ts@[n[b] as int],
            ) && n[a] < n[b])) by {
                if b < p {
                    assert(n[a] == old_r[a] && n[b] == old_r[b]);
                } else if b == p {
                    assert(n[a] == old_r[a]);
                    assert(n[b] == i);
                } else if a < p {
                    assert(n[a] == old_r[a] && n[b] == old_r[b - 1]);
                } else if a == p {
                    assert(n[a] == i && n[b] == old_r[b - 1]);
                } else {
                    assert(n[a] == old_r[a - 1] && n[b] == old_r[b - 1]);
                }
            }
        }
        i = i + 1;
    }
    r
}

/// Kinds of degradation that the rules can name.
#[derive(Clone, Copy, Debug, PartialEq, Eq, Structural)]
pub enum IssueCategory {
    LikelyClouds,
    PossibleObstruction,
    FocusDrift,
    TrackingError,
    WindShake,
    SkyBrightening,
    UnknownDegradation,
}

impl IssueCategory {
    /// The category's name on the wire.
    pub fn as_str(&self) -> (r: &'static str)
        ensures
            *self == IssueCategory::LikelyClouds ==> r@ == "likely_clouds"@,
            *self == IssueCategory::PossibleObstruction ==> r@ == "possible_obstruction"@,
            *self == IssueCategory::FocusDrift ==> r@ == "focus_drift"@,
            *self == IssueCategory::TrackingError ==> r@ == "tracking_error"@,
            *self == IssueCategory::WindShake ==> r@ == "wind_shake"@,
            *self == IssueCategory::SkyBrightening ==> r@ == "sky_brightening"@,
            *self == IssueCategory::UnknownDegradation ==> r@ == "unknown_degradation"@,
    {
        match self {
            IssueCategory::LikelyClouds => "likely_clouds",
            IssueCategory::PossibleObstruction => "possible_obstruction",
            IssueCategory::FocusDrift => "focus_drift",
            IssueCategory::TrackingError => "tracking_error",
            IssueCategory::WindShake => "wind_shake",
            IssueCategory::SkyBrightening => "sky_brightening",
            IssueCategory::UnknownDegradation => "unknown_degradation",
        }
    }
}

/// The comparisons of an image's deltas against the thresholds, as the rule
/// table reads them.
#[derive(Clone, Copy, Debug, PartialEq, Eq, Structural)]
pub struct IssueSignals {
    /// Star-count drop above its threshold.
    pub star_drop_above: bool,
    /// Star-count drop below its threshold.
    pub star_drop_below: bool,
    /// Background rise above its threshold.
    pub bg_rise_above: bool,
    /// HFR rise above its threshold.
    pub hfr_rise_above: bool,
    /// Eccentricity rise above its threshold.
    pub ecc_rise_above: bool,
    /// Eccentricity rise below its threshold.
    pub ecc_rise_below: bool,
    /// HFR changed gradually over the recent window.
    pub hfr_gradual: bool,
    /// Background changed gradually over the recent window.
    pub bg_gradual: bool,
    /// The image's score is below one half.
    pub score_below_half: bool,
}

/// The rule table, first match wins.
pub open spec fn category_for(s: IssueSignals) -> Option<IssueCategory> {
    if s.star_drop_above && s.bg_rise_above {
        Some(IssueCategory::LikelyClouds)
    } else if s.star_drop_above && !s.bg_rise_above {
        Some(IssueCategory::PossibleObstruction)
    } else if s.hfr_rise_above && s.hfr_gradual && s.ecc_rise_below {
        Some(IssueCategory::FocusDrift)
    } else if s.ecc_rise_above && s.star_drop_below {
        Some(IssueCategory::TrackingError)
    } else if s.hfr_rise_above && s.star_drop_above && !s.ecc_rise_below {
        Some(IssueCategory::WindShake)
    } else if s.bg_rise_above && s.bg_gradual && s.star_drop_below {
        Some(IssueCategory::SkyBrightening)
    } else if s.score_below_half {
        Some(IssueCategory::UnknownDegradation)
    } else {
        None
    }
}

/// Names the degradation of a poorly scored image from its signals: clouds,
/// obstruction, focus drift, tracking, wind, sky brightening, unknown, or
/// nothing, tried in that order.
pub fn classify(s: IssueSignals) -> (r: Option<IssueCategory>)
    ensures
        r == category_for(s),
{
    if s.star_drop_above && s.bg_rise_above {
        Some(IssueCategory::LikelyClouds)
    } else if s.star_drop_above && !s.bg_rise_above {
        Some(IssueCategory::PossibleObstruction)
    } else if s.hfr_rise_above && s.hfr_gradual && s.ecc_rise_below {
        Some(IssueCategory::FocusDrift)
    } else if s.ecc_rise_above && s.star_drop_below {
        Some(IssueCategory::TrackingError)
    } else if s.hfr_rise_above && s.star_drop_above && !s.ecc_rise_below {
        Some(IssueCategory::WindShake)
    } else if s.bg_rise_above && s.bg_gradual && s.star_drop_below {
        Some(IssueCategory::SkyBrightening)
    } else if s.score_below_half {
        Some(IssueCategory::UnknownDegradation)
    } else {
        None
    }
}

/// Number of `true` entries.
pub open spec fn count_true(s: Seq<bool>) -> nat
    decreases s.len(),
{
    if s.len() == 0 {
        0
    } else {
        count_true(s.drop_last()) + if s.last() { 1nat } else { 0nat }
    }
}

/// A change is gradual over a window of `window` steps when at least
/// `window - 1` of its step-to-step ratios were small; `small` holds one entry
/// per step of the window.
pub fn is_gradual(small: &Vec<bool>, window: usize) -> (r: bool)
    ensures
        r == (count_true(small@) + 1 >= window),
{
    let mut n: usize = 0;
    let mut i: usize = 0;
    while i < small.len()
        invariant
            i <= small@.len(),
            n == count_true(small@.subrange(0, i as int)),
            n <= i,
        decreases small@.len() - i,
    {
        assert(small@.subrange(0, i + 1).drop_last() =~= small@.subrange(0, i as int));
        if small[i] {
            n = n + 1;
        }
        i = i + 1;
    }
    assert(small@.subrange(0, i as int) =~= small@);
    n >= window || window - n <= 1
}

/// The bucket of a quality score: at least 0.9, 0.7, 0.5, 0.3, or lower.
#[derive(Clone, Copy, Debug, PartialEq, Eq, Structural)]
pub enum QualityBand {
    Excellent,
    Good,
    Fair,
    Poor,
    Bad,
}

/// Counts of a scored session by bucket, and the issues it showed.
#[derive(Clone, Copy, Debug, PartialEq, Eq, Structural)]
pub struct SequenceSummary {
    pub excellent_count: usize,
    pub good_count: usize,
    pub fair_count: usize,
    pub poor_count: usize,
    pub bad_count: usize,
    pub cloud_events_detected: usize,
    pub focus_drift_detected: bool,
    pub tracking_issues_detected: bool,
}

/// Number of images in bucket `b`.
pub open spec fn band_count(items: Seq<(QualityBand, Option<IssueCategory>)>, b: QualityBand) -> nat
    decreases items.len(),
{
    if items.len() == 0 {
        0
    } else {
        band_count(items.drop_last(), b) + if items.last().0 == b { 1nat } else { 0nat }
    }
}

/// Number of images given category `c`.
pub open spec fn category_count(items: Seq<(QualityBand, Option<IssueCategory>)>, c: IssueCategory) -> nat
    decreases items.len(),
{
    if items.len() == 0 {
        0
    } else {
        category_count(items.drop_last(), c) + if items.last().1 == Some(c) { 1nat } else { 0nat }
    }
}

/// The five bucket counts of a session add up to its number of images.
pub proof fn lemma_band_counts_sum(items: Seq<(QualityBand, Option<IssueCategory>)>)
    ensures
        band_count(items, QualityBand::Excellent) + band_count(items, QualityBand::Good)
            + band_count(items, QualityBand::Fair) + band_count(items, QualityBand::Poor)
            + band_count(items, QualityBand::Bad) == items.len(),
    decreases items.len(),
{
    if items.len() > 0 {
        lemma_band_counts_sum(items.drop_last());
    }
}

/// Summary of a session from each image's bucket and category.
pub fn build_summary(items: &Vec<(QualityBand, Option<IssueCategory>)>) -> (r: SequenceSummary)
    ensures
        r.excellent_count == band_count(items@, QualityBand::Excellent),
        r.good_count == band_count(items@, QualityBand::Good),
        r.fair_count == band_count(items@, QualityBand::Fair),
        r.poor_count == band_count(items@, QualityBand::Poor),
        r.bad_count == band_count(items@, QualityBand::Bad),
        r.cloud_events_detected == category_count(items@, IssueCategory::LikelyClouds),
        r.focus_drift_detected == (category_count(items@, IssueCategory::FocusDrift) > 0),
        r.tracking_issues_detected == (category_count(items@, IssueCategory::TrackingError) > 0),
        r.excellent_count + r.good_count + r.fair_count + r.poor_count + r.bad_count == items@.len(),
{
    let mut s = SequenceSummary {
        excellent_count: 0,
        good_count: 0,
        fair_count: 0,
        poor_count: 0,
        bad_count: 0,
        cloud_events_detected: 0,
        focus_drift_detected: false,
        tracking_issues_detected: false,
    };
    let mut i: usize = 0;
    while i < items.len()
        invariant
            i <= items@.len(),
            s.excellent_count == band_count(items@.subrange(0, i as int), QualityBand::Excellent),
            s.good_count == band_count(items@.subrange(0, i as int), QualityBand::Good),
            s.fair_count == band_count(items@.subrange(0, i as int), QualityBand::Fair),
            s.poor_count == band_count(items@.subrange(0, i as int), QualityBand::Poor),
            s.bad_count == band_count(items@.subrange(0, i as int), QualityBand::Bad),
            s.cloud_events_detected == category_count(items@.subrange(0, i as int), IssueCategory::LikelyClouds),
            s.focus_drift_detected == (category_count(items@.subrange(0, i as int), IssueCategory::FocusDrift) > 0),
            s.tracking_issues_detected == (category_count(items@.subrange(0, i as int), IssueCategory::TrackingError) > 0),
            s.excellent_count + s.good_count + s.fair_count + s.poor_count + s.bad_count == i,
            s.cloud_events_detected <= i,
        decreases items@.len() - i,
    {
        assert(items@.subrange(0, i + 1).drop_last() =~= items@.subrange(0, i as int));
        let (band, category) = items[i];
        match band {
            QualityBand::Excellent => s.excellent_count = s.excellent_count + 1,
            QualityBand::Good => s.good_count = s.good_count + 1,
            QualityBand::Fair => s.fair_count = s.fair_count + 1,
            QualityBand::Poor => s.poor_count = s.poor_count + 1,
            QualityBand::Bad => s.bad_count = s.bad_count + 1,
        }
        match category {
            Some(IssueCategory::LikelyClouds) => s.cloud_events_detected = s.cloud_events_detected + 1,
            Some(IssueCategory::FocusDrift) => s.focus_drift_detected = true,
            Some(IssueCategory::TrackingError) => s.tracking_issues_detected = true,
            _ => {},
        }
        i = i + 1;
    }
    assert(items@.subrange(0, i as int) =~= items@);
    s
}

/// Whether a session is too short to score: every image then scores 1.
pub fn is_short_session(image_count: usize, min_sequence_length: usize) -> (r: bool)
    ensures
        r == (image_count < min_sequence_length),
{
    image_count < min_sequence_length
}

/// Unix seconds of an RFC 3339 time such as `2024-01-15T21:00:00Z`; none
/// when the text is not one.
pub uninterp spec fn rfc3339_seconds(text: Seq<char>) -> Option<i64>;

/// Relies on `chrono::DateTime::parse_from_rfc3339` and `DateTime::timestamp`.
#[verifier::external_body]
fn parse_rfc3339_seconds(text: &str) -> (r: Option<i64>)
    ensures
        r == rfc3339_seconds(text@),
{
    chrono::DateTime::parse_from_rfc3339(text).ok().map(|d| d.timestamp())
}

/// When an exposure was taken, for ordering: the catalog's acquisition time,
/// else the `ExposureStartTime` of its metadata.
pub open spec fn sort_time(acquired_date: Option<i64>, metadata: Seq<char>) -> Option<i64> {
    match acquired_date {
        Some(t) => Some(t),
        None => match metadata_text(metadata, "ExposureStartTime"@) {
            Some(s) => rfc3339_seconds(s),
            None => None,
        },
    }
}

/// When an exposure was taken, for ordering: the catalog's acquisition time,
/// else the `ExposureStartTime` of its metadata.
pub fn image_timestamp(acquired_date: Option<i64>, metadata: &str) -> (r: Option<i64>)
    ensures
        r == sort_time(acquired_date, metadata@),
{
    match acquired_date {
        Some(t) => Some(t),
        None => match metadata_string(metadata, "ExposureStartTime") {
            Some(s) => parse_rfc3339_seconds(s.as_str()),
            None => None,
        },
    }
}

} // verus!
