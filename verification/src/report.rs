//! Progress reports handed to the caller's callback.
//!
//! Each report carries its kind as a code, the strip width and the density.
//! Reports of the improving kinds may also carry the layout as JSON; to keep
//! the callback cheap, that happens at most once per interval, except for the
//! final report, which always carries it.
use vstd::prelude::*;

verus! {

/// The kinds of progress report.
#[derive(Clone, Copy, Debug, PartialEq, Eq, Structural)]
pub enum ReportType {
    /// A feasible layout found during exploration.
    ExplFeas,
    /// An attempt during exploration that stayed infeasible.
    ExplInfeas,
    /// An improvement during exploration.
    ExplImproving,
    /// A feasible layout found during compression.
    CmprFeas,
    /// The final layout.
    Final,
}

/// The code of a kind of report on the C interface.
pub open spec fn spec_report_code(report: ReportType) -> i32 {
    match report {
        ReportType::ExplFeas => 0i32,
        ReportType::ExplInfeas => 1i32,
        ReportType::ExplImproving => 2i32,
        ReportType::CmprFeas => 3i32,
        ReportType::Final => 4i32,
    }
}

/// Reports of these kinds may carry the layout; the others are feasibility
/// probes and never do.
pub open spec fn spec_improving(report: ReportType) -> bool {
    match report {
        ReportType::ExplImproving | ReportType::CmprFeas | ReportType::Final => true,
        _ => false,
    }
}

/// The time since the last report that carried a layout is shorter than the
/// interval (no such report yet means: not throttled).
pub open spec fn spec_throttled(since_last_emit: Option<u128>, min_interval: u128) -> bool {
    match since_last_emit {
        Some(elapsed) => elapsed < min_interval,
        None => false,
    }
}

/// Whether a report carries the layout.
pub open spec fn spec_attaches_json(
    report: ReportType,
    emit_json: bool,
    since_last_emit: Option<u128>,
    min_interval: u128,
) -> bool {
    emit_json && spec_improving(report) && (report == ReportType::Final || !spec_throttled(
        since_last_emit,
        min_interval,
    ))
}

/// The code of a kind of report: 0 to 4 in the order of the kinds.
pub fn report_code(report: ReportType) -> (code: i32)
    ensures
        code == spec_report_code(report),
        0 <= code <= 4,
        report == ReportType::ExplFeas ==> code == 0,
        report == ReportType::ExplInfeas ==> code == 1,
        report == ReportType::ExplImproving ==> code == 2,
        report == ReportType::CmprFeas ==> code == 3,
        report == ReportType::Final ==> code == 4,
{
    match report {
        ReportType::ExplFeas => 0,
        ReportType::ExplInfeas => 1,
        ReportType::ExplImproving => 2,
        ReportType::CmprFeas => 3,
        ReportType::Final => 4,
    }
}

/// Whether reports of this kind may carry the layout.
pub fn is_improving(report: ReportType) -> (b: bool)
    ensures
        b == spec_improving(report),
        b <==> (report == ReportType::ExplImproving || report == ReportType::CmprFeas || report
            == ReportType::Final),
{
    match report {
        ReportType::ExplImproving | ReportType::CmprFeas | ReportType::Final => true,
        _ => false,
    }
}

/// The smallest time between two reports that carry a layout, in
/// nanoseconds, for the one-call interface.
pub const ONE_CALL_MIN_INTERVAL_NANOS: u128 = 150_000_000u128;

/// The same for the step interface.
pub const STEP_MIN_INTERVAL_NANOS: u128 = 500_000_000u128;

/// What decides whether a report carries the layout.
#[derive(Clone, Copy, Debug, PartialEq, Eq, Structural)]
pub struct ReportPolicy {
    /// The caller asked for layouts at all.
    pub emit_json: bool,
    /// The smallest time between two reports that carry a layout, in nanoseconds.
    pub min_interval_nanos: u128,
}

impl ReportPolicy {
    /// The policy of the one-call interface.
    pub fn for_one_call(emit_json: bool) -> (policy: Self)
        ensures
            policy.emit_json == emit_json,
            policy.min_interval_nanos == ONE_CALL_MIN_INTERVAL_NANOS,
            policy.min_interval_nanos == 150_000_000,
    {
        ReportPolicy { emit_json, min_interval_nanos: ONE_CALL_MIN_INTERVAL_NANOS }
    }

    /// The policy of the step interface.
    pub fn for_steps(emit_json: bool) -> (policy: Self)
        ensures
            policy.emit_json == emit_json,
            policy.min_interval_nanos == STEP_MIN_INTERVAL_NANOS,
            policy.min_interval_nanos == 500_000_000,
    {
        ReportPolicy { emit_json, min_interval_nanos: STEP_MIN_INTERVAL_NANOS }
    }

    /// Whether `report` carries the layout, given the time in nanoseconds
    /// since the last report that did (`None` if none did yet): only when
    /// layouts were asked for, only for the improving kinds, and only once
    /// the interval has passed, except for the final report.
    pub fn attaches_json(&self, report: ReportType, since_last_emit: Option<u128>) -> (b: bool)
        ensures
            b == spec_attaches_json(
                report,
                self.emit_json,
                since_last_emit,
                self.min_interval_nanos,
            ),
            !self.emit_json ==> !b,
            report == ReportType::ExplFeas || report == ReportType::ExplInfeas ==> !b,
            self.emit_json && report == ReportType::Final ==> b,
            self.emit_json && (report == ReportType::ExplImproving || report == ReportType::CmprFeas)
                ==> (b <==> match since_last_emit {
                Some(elapsed) => elapsed >= self.min_interval_nanos,
                None => true,
            }),
    {
        let improving = is_improving(report);
        let is_final = match report {
            ReportType::Final => true,
            _ => false,
        };
        let throttled = match since_last_emit {
            Some(elapsed) => elapsed < self.min_interval_nanos,
            None => false,
        };
        self.emit_json && improving && (is_final || !throttled)
    }
}

/// The time from `last_emit` to `now`, none before anything was emitted; a
/// clock that went backwards counts as no time at all.
pub open spec fn spec_since(last_emit: Option<u128>, now: u128) -> Option<u128> {
    match last_emit {
        Some(t) => Some(if now >= t {
            (now - t) as u128
        } else {
            0u128
        }),
        None => None,
    }
}

/// The listener's memory of when it last delivered a layout, with the policy
/// that decides about the next ones.  Times are nanoseconds on a clock that
/// the caller reads.
#[derive(Clone, Copy, Debug, PartialEq, Eq, Structural)]
pub struct ReportThrottle {
    pub policy: ReportPolicy,
    pub last_emit: Option<u128>,
}

impl ReportThrottle {
    /// A listener that has not delivered a layout yet.
    pub fn new(policy: ReportPolicy) -> (t: Self)
        ensures
            t.policy == policy,
            t.last_emit is None,
    {
        ReportThrottle { policy, last_emit: None }
    }

    /// Whether `report`, made at time `now`, carries the layout.
    pub fn attaches_json(&self, report: ReportType, now: u128) -> (b: bool)
        ensures
            b == spec_attaches_json(
                report,
                self.policy.emit_json,
                spec_since(self.last_emit, now),
                self.policy.min_interval_nanos,
            ),
            !self.policy.emit_json ==> !b,
            report == ReportType::ExplFeas || report == ReportType::ExplInfeas ==> !b,
            self.policy.emit_json && report == ReportType::Final ==> b,
            self.policy.emit_json && (report == ReportType::ExplImproving || report
                == ReportType::CmprFeas) ==> (b <==> match self.last_emit {
                Some(t) => now >= t && now - t >= self.policy.min_interval_nanos
                    || now < t && self.policy.min_interval_nanos == 0,
                None => true,
            }),
    {
        let since = match self.last_emit {
            Some(t) => Some(
                if now >= t {
                    now - t
                } else {
                    0
                },
            ),
            None => None,
        };
        self.policy.attaches_json(report, since)
    }

    /// A layout was delivered at time `now`.  (A report whose layout could not
    /// be serialized goes out without it and is not recorded.)
    pub fn record_emission(&mut self, now: u128)
        ensures
            final(self).policy == old(self).policy,
            final(self).last_emit == Some(now),
    {
        self.last_emit = Some(now);
    }
}

/// After a layout was delivered, no improving report short of the final one
/// carries another until the interval has passed.
pub proof fn lemma_no_second_layout_within_interval(
    policy: ReportPolicy,
    report: ReportType,
    emitted_at: u128,
    now: u128,
)
    requires
        report != ReportType::Final,
        emitted_at <= now,
        now - emitted_at < policy.min_interval_nanos,
    ensures
        !spec_attaches_json(
            report,
            policy.emit_json,
            spec_since(Some(emitted_at), now),
            policy.min_interval_nanos,
        ),
{
}

/// The time since the last delivered layout is the whole difference of the
/// two clock readings (none before anything was delivered, and none at all
/// when the clock went backwards); an improving, non-final report carries the
/// layout, when layouts are asked for, exactly when that time is at least the
/// interval.
pub proof fn lemma_elapsed_time_is_the_difference(
    last: u128,
    now: u128,
    min_interval: u128,
    report: ReportType,
)
    requires
        now >= last,
        report == ReportType::ExplImproving || report == ReportType::CmprFeas,
    ensures
        spec_since(Some(last), now) == Some((now - last) as u128),
        spec_since(None, now) is None,
        spec_attaches_json(report, true, spec_since(Some(last), now), min_interval) <==> now - last
            >= min_interval,
        spec_attaches_json(report, true, None, min_interval),
{
}

/// Distinct kinds of report have distinct codes.
pub proof fn lemma_report_codes_distinct(a: ReportType, b: ReportType)
    requires
        a != b,
    ensures
        spec_report_code(a) != spec_report_code(b),
{
}

/// When layouts are asked for, the final report always carries one,
/// whatever the time since the last; feasibility probes never carry one;
/// and nothing carries one when layouts were not asked for.
pub proof fn lemma_json_attachment(
    emit_json: bool,
    since_last_emit: Option<u128>,
    min_interval: u128,
)
    ensures
        emit_json ==> spec_attaches_json(
            ReportType::Final,
            emit_json,
            since_last_emit,
            min_interval,
        ),
        !spec_attaches_json(ReportType::ExplFeas, emit_json, since_last_emit, min_interval),
        !spec_attaches_json(ReportType::ExplInfeas, emit_json, since_last_emit, min_interval),
        forall|r: ReportType| !spec_attaches_json(r, false, since_last_emit, min_interval),
{
}

/// An improving report that is not final carries the layout exactly when
/// layouts are asked for and no report carried one within the interval.
pub proof fn lemma_throttle(report: ReportType, since_last_emit: Option<u128>, min_interval: u128)
    requires
        spec_improving(report),
        report != ReportType::Final,
    ensures
        spec_attaches_json(report, true, since_last_emit, min_interval) <==> match since_last_emit {
            Some(elapsed) => elapsed >= min_interval,
            None => true,
        },
{
}

} // verus!
