use vstd::prelude::*;
use vstd::string::StringExecFns;

verus! {

/// The shortest gap, in milliseconds, between two preview frames (at most 8
/// per second).
pub const PREVIEW_INTERVAL_MS: u64 = 125;

/// A frame whose capture and analysis took this long is too old to steer by.
pub const SLOW_FRAME_MS: u64 = 250;

/// What the tracking loop does in one round, before any capture.
#[derive(Clone, Copy, Debug, PartialEq, Eq, Structural)]
pub enum Gate {
    /// Tracking is off or the overlay hidden: forget everything and poll again.
    Idle,
    /// The settings, mode or geometry changed: forget everything and give the
    /// WebView time to clear the scan area before the next round.
    Restart,
    /// Capture and analyse a frame.
    Run,
}

/// Loop state of the tracker, apart from the angle filter: the revision of
/// the state it last started on, and when it last sent a preview.
///
/// Times are milliseconds on a monotonic clock.
pub struct Tracker {
    last_revision: u64,
    last_preview: Option<u64>,
}

/// The revision the tracker holds while it is not working on any state.
pub open spec fn no_revision() -> u64 {
    u64::MAX
}

/// One round's decision and the tracker's state after it, from the state
/// before it (see [`Tracker::gate`]).
pub open spec fn gated(t: (u64, Option<u64>), enabled: bool, visible: bool, revision: u64) -> (
    Gate,
    (u64, Option<u64>),
) {
    if !enabled || !visible {
        (Gate::Idle, (no_revision(), None))
    } else if t.0 != revision {
        (Gate::Restart, (revision, None))
    } else {
        (Gate::Run, t)
    }
}

/// Whether a round at `now` renders a preview (see [`Tracker::wants_preview`]).
pub open spec fn preview_due(t: (u64, Option<u64>), now: u64) -> bool {
    match t.1 {
        None => true,
        Some(sent) => now >= sent + PREVIEW_INTERVAL_MS,
    }
}

impl View for Tracker {
    type V = (u64, Option<u64>);

    closed spec fn view(&self) -> (u64, Option<u64>) {
        (self.last_revision, self.last_preview)
    }
}

impl Tracker {
    /// A tracker that has neither run nor sent a preview.
    pub fn new() -> (t: Tracker)
        ensures
            t@ == (no_revision(), None::<u64>),
    {
        Tracker { last_revision: u64::MAX, last_preview: None }
    }

    /// Decides one round from the published state: `enabled` and `visible`
    /// are the tracking switch and the overlay's visibility, `revision` the
    /// state's revision. Tracking off or the overlay hidden: idle and forget
    /// the revision. A revision not seen before: restart on it. Otherwise run.
    pub fn gate(&mut self, enabled: bool, visible: bool, revision: u64) -> (g: Gate)
        ensures
            (g, final(self)@) == gated(old(self)@, enabled, visible, revision),
    {
        if !enabled || !visible {
            self.last_revision = u64::MAX;
            self.last_preview = None;
            Gate::Idle
        } else if self.last_revision != revision {
            self.last_revision = revision;
            self.last_preview = None;
            Gate::Restart
        } else {
            Gate::Run
        }
    }

    /// Whether this round should also render a preview for the panel: none was
    /// sent since the last restart, or the last one is at least
    /// [`PREVIEW_INTERVAL_MS`] old (a send time in the future counts as just now).
    pub fn wants_preview(&self, now: u64) -> (b: bool)
        ensures
            b == preview_due(self@, now),
    {
        match self.last_preview {
            None => true,
            Some(t) => now.saturating_sub(t) >= PREVIEW_INTERVAL_MS,
        }
    }

    /// Records that a preview went out at `now`.
    pub fn preview_sent(&mut self, now: u64)
        ensures
            final(self)@ == (old(self)@.0, Some(now)),
    {
        self.last_preview = Some(now);
    }
}

/// The tracker only analyses frames while tracking is on and the overlay
/// shown, and only for a state whose revision it already restarted on.
pub proof fn run_needs_known_revision(
    t: (u64, Option<u64>),
    enabled: bool,
    visible: bool,
    revision: u64,
)
    ensures
        gated(t, enabled, visible, revision).0 == Gate::Run ==> enabled && visible && t.0
            == revision,
{
}

/// A round that analyses leaves the tracker exactly as it was: in
/// particular it keeps the time of the last preview, so however many rounds
/// run after a preview sent at `sent`, the next one is due only
/// [`PREVIEW_INTERVAL_MS`] after it (at most 8 previews per second).
pub proof fn run_round_keeps_state(t: (u64, Option<u64>), sent: u64, now: u64)
    ensures
        gated(t, true, true, t.0) == (Gate::Run, t),
        gated((t.0, Some(sent)), true, true, t.0).1 == (t.0, Some(sent)),
        preview_due(gated((t.0, Some(sent)), true, true, t.0).1, now) == (now >= sent
            + PREVIEW_INTERVAL_MS),
        preview_due(
            gated(gated((t.0, Some(sent)), true, true, t.0).1, true, true, t.0).1,
            now,
        ) == (now >= sent + PREVIEW_INTERVAL_MS),
{
}

/// Tracking off or the overlay hidden always idles and forgets both the
/// revision and the last preview; a revision not seen before always
/// restarts on it with no preview on record.
pub proof fn idle_and_restart_forget(t: (u64, Option<u64>), enabled: bool, visible: bool, revision: u64)
    ensures
        !enabled || !visible ==> gated(t, enabled, visible, revision) == (
            Gate::Idle,
            (u64::MAX, None::<u64>),
        ),
        enabled && visible && t.0 != revision ==> gated(t, enabled, visible, revision) == (
            Gate::Restart,
            (revision, None::<u64>),
        ),
{
}

/// A new revision is never analysed in the round that first sees it: that
/// round restarts, and the next round on the same revision runs, provided
/// tracking is still on and the overlay shown.
pub proof fn new_revision_restarts_then_runs(t: (u64, Option<u64>), revision: u64)
    requires
        t.0 != revision,
    ensures
        gated(t, true, true, revision).0 == Gate::Restart,
        gated(gated(t, true, true, revision).1, true, true, revision).0 == Gate::Run,
{
}

/// Previews go out at most every [`PREVIEW_INTERVAL_MS`]: after one is sent
/// at `sent`, a round wants the next exactly from `sent` plus the interval on,
/// until a restart or idle round clears the record and makes one due at once.
pub proof fn previews_are_paced(
    t: (u64, Option<u64>),
    sent: u64,
    now: u64,
    enabled: bool,
    visible: bool,
    revision: u64,
)
    ensures
        preview_due((t.0, Some(sent)), now) == (now >= sent + PREVIEW_INTERVAL_MS),
        gated(t, enabled, visible, revision).0 != Gate::Run ==> preview_due(
            gated(t, enabled, visible, revision).1,
            now,
        ),
{
}

/// Holds back detected angles until they are confirmed: a line is only drawn
/// for a detection that follows a consistent one, so two consistent
/// detections acquire the claw and every miss or jump forces reacquisition.
/// `A` is an angle, `T` a point in time.
pub struct Filter<A, T> {
    previous: Option<A>,
    last_time: Option<T>,
}

/// The filter's memory after a push (see [`Filter::push`]).
pub open spec fn remembered<A, T>(angle: Option<A>, now: T) -> (Option<A>, Option<T>) {
    match angle {
        None => (None, None),
        Some(next) => (Some(next), Some(now)),
    }
}

impl<A, T> View for Filter<A, T> {
    type V = (Option<A>, Option<T>);

    closed spec fn view(&self) -> (Option<A>, Option<T>) {
        (self.previous, self.last_time)
    }
}

impl<A: Copy, T: Copy> Filter<A, T> {
    /// A filter that remembers nothing.
    pub fn new() -> (f: Filter<A, T>)
        ensures
            f@ == (None::<A>, None::<T>),
    {
        Filter { previous: None, last_time: None }
    }

    /// Forgets the last detection.
    pub fn reset(&mut self)
        ensures
            final(self)@ == (None::<A>, None::<T>),
    {
        self.previous = None;
        self.last_time = None;
    }

    /// Offers the angle detected at `now`, or a miss. A miss clears the
    /// memory and draws nothing. A detection is remembered in any case, and is
    /// let through exactly when the previous round also detected and
    /// `consistent(previous, previous_time, next, now)` accepts the step.
    pub fn push<F: Fn(A, T, A, T) -> bool>(&mut self, angle: Option<A>, now: T, consistent: F) -> (r:
        Option<A>)
        requires
            forall|a: A, t: T, b: A, u: T| #[trigger] call_requires(consistent, (a, t, b, u)),
        ensures
            final(self)@ == remembered(angle, now),
            angle is None ==> r is None,
            (old(self)@.0 is None || old(self)@.1 is None) ==> r is None,
            r is Some ==> r == angle,
            (angle is Some && old(self)@.0 is Some && old(self)@.1 is Some) ==> call_ensures(
                consistent,
                (old(self)@.0->0, old(self)@.1->0, angle->0, now),
                r is Some,
            ),
    {
        let next = match angle {
            None => {
                self.reset();
                return None;
            },
            Some(next) => next,
        };
        let result = match (self.previous, self.last_time) {
            (Some(previous), Some(time)) => {
                if consistent(previous, time, next, now) {
                    Some(next)
                } else {
                    None
                }
            },
            _ => None,
        };
        self.previous = Some(next);
        self.last_time = Some(now);
        result
    }
}

/// A miss forces reacquisition: it leaves nothing for the next detection to
/// be checked against, so that detection is held back whatever its angle.
pub proof fn miss_forces_reacquisition<A, T>(now: T)
    ensures
        remembered::<A, T>(None, now) == (None::<A>, None::<T>),
{
}

/// Every detection becomes the reference for the next one, whether or not it
/// was let through; a held-back jump is thus accepted once it repeats.
pub proof fn detection_becomes_reference<A, T>(next: A, now: T)
    ensures
        remembered(Some(next), now) == (Some(next), Some(now)),
{
}

/// What one push answers, for a step test that is a function of its
/// arguments: the detection, if the memory holds a previous detection and the
/// test accepts the step from it, nothing otherwise.
pub open spec fn filter_step<A, T>(
    memory: (Option<A>, Option<T>),
    angle: Option<A>,
    now: T,
    ok: spec_fn(A, T, A, T) -> bool,
) -> Option<A> {
    match (angle, memory.0, memory.1) {
        (Some(next), Some(previous), Some(time)) => if ok(previous, time, next, now) {
            Some(next)
        } else {
            None
        },
        _ => None,
    }
}

/// The answers of a run of pushes from a memory. A reset is the same to the
/// memory as a miss, so it counts as a push of `None` here.
pub open spec fn filter_run<A, T>(
    memory: (Option<A>, Option<T>),
    pushes: Seq<(Option<A>, T)>,
    ok: spec_fn(A, T, A, T) -> bool,
) -> Seq<Option<A>>
    decreases pushes.len(),
{
    if pushes.len() == 0 {
        Seq::empty()
    } else {
        seq![filter_step(memory, pushes[0].0, pushes[0].1, ok)] + filter_run(
            remembered(pushes[0].0, pushes[0].1),
            pushes.drop_first(),
            ok,
        )
    }
}

/// A push follows [`filter_step`] whenever the step test it is given answers
/// as `ok` does.
pub proof fn push_is_a_step<A, T, F: Fn(A, T, A, T) -> bool>(
    consistent: F,
    ok: spec_fn(A, T, A, T) -> bool,
    memory: (Option<A>, Option<T>),
    angle: Option<A>,
    now: T,
    r: Option<A>,
)
    requires
        forall|a: A, t: T, b: A, u: T, x: bool| #[trigger]
            call_ensures(consistent, (a, t, b, u), x) ==> x == ok(a, t, b, u),
        angle is None ==> r is None,
        (memory.0 is None || memory.1 is None) ==> r is None,
        r is Some ==> r == angle,
        (angle is Some && memory.0 is Some && memory.1 is Some) ==> call_ensures(
            consistent,
            (memory.0->0, memory.1->0, angle->0, now),
            r is Some,
        ),
    ensures
        r == filter_step(memory, angle, now, ok),
{
}

/// In a run of pushes each answer depends on the push before it alone: the
/// first answers from the starting memory, every later one from the memory of
/// the push just before.
pub proof fn run_answers_from_previous_push<A, T>(
    memory: (Option<A>, Option<T>),
    pushes: Seq<(Option<A>, T)>,
    ok: spec_fn(A, T, A, T) -> bool,
)
    ensures
        filter_run(memory, pushes, ok).len() == pushes.len(),
        pushes.len() > 0 ==> filter_run(memory, pushes, ok)[0] == filter_step(
            memory,
            pushes[0].0,
            pushes[0].1,
            ok,
        ),
        forall|i: int|
            1 <= i < pushes.len() ==> #[trigger] filter_run(memory, pushes, ok)[i] == filter_step(
                remembered(pushes[i - 1].0, pushes[i - 1].1),
                pushes[i].0,
                pushes[i].1,
                ok,
            ),
    decreases pushes.len(),
{
    if pushes.len() > 0 {
        let rest = pushes.drop_first();
        let next = remembered(pushes[0].0, pushes[0].1);
        run_answers_from_previous_push(next, rest, ok);
        assert forall|i: int| 1 <= i < pushes.len() implies #[trigger] filter_run(
            memory,
            pushes,
            ok,
        )[i] == filter_step(remembered(pushes[i - 1].0, pushes[i - 1].1), pushes[i].0, pushes[i].1, ok) by {
            if i > 1 {
                assert(rest[i - 1] == pushes[i]);
                assert(rest[i - 2] == pushes[i - 1]);
            }
        }
    }
}

/// Over any run of pushes from a fresh or reset filter, every answer is
/// nothing or exactly the angle pushed (never a held or interpolated one); an
/// angle is let through only when the push just before detected, and the
/// step test accepts the step from that detection; the first push, and every
/// push right after a miss or reset, answers nothing.
pub proof fn runs_need_two_consistent_detections<A, T>(
    pushes: Seq<(Option<A>, T)>,
    ok: spec_fn(A, T, A, T) -> bool,
)
    ensures
        ({
            let answers = filter_run((None::<A>, None::<T>), pushes, ok);
            &&& answers.len() == pushes.len()
            &&& pushes.len() > 0 ==> answers[0] is None
            &&& forall|i: int|
                0 <= i < pushes.len() && (#[trigger] answers[i]) is Some ==> {
                    &&& answers[i] == pushes[i].0
                    &&& i >= 1
                    &&& pushes[i - 1].0 is Some
                    &&& ok(pushes[i - 1].0->0, pushes[i - 1].1, pushes[i].0->0, pushes[i].1)
                }
            &&& forall|i: int|
                1 <= i < pushes.len() && pushes[i - 1].0 is None ==> (#[trigger] answers[i]) is None
        }),
{
    run_answers_from_previous_push((None::<A>, None::<T>), pushes, ok);
}

/// What the claw analysis reported for one frame.
#[derive(Clone, Copy, Debug, PartialEq, Eq, Structural)]
pub enum Status {
    /// The recognition box is too small.
    Invalid,
    /// Not enough gray pixels in the box.
    NoMetal,
    /// Gray pixels, but no complete pair of jaws.
    NoMatch,
    /// Several jaw candidates that cannot be told apart.
    Ambiguous,
    /// The claw was found.
    Detected,
}

/// The state of one tracking round as shown to the user.
#[derive(Clone, Copy, Debug, PartialEq, Eq, Structural)]
pub enum Phase {
    CaptureError,
    Invalid,
    NoMetal,
    NoMatch,
    Ambiguous,
    Detected,
    Slow,
    Confirming,
    PreviewError,
}

/// The code the panel receives for a phase.
pub open spec fn phase_code(p: Phase) -> Seq<char> {
    match p {
        Phase::CaptureError => "captureError"@,
        Phase::Invalid => "invalid"@,
        Phase::NoMetal => "noMetal"@,
        Phase::NoMatch => "noMatch"@,
        Phase::Ambiguous => "ambiguous"@,
        Phase::Detected => "detected"@,
        Phase::Slow => "slow"@,
        Phase::Confirming => "confirming"@,
        Phase::PreviewError => "previewError"@,
    }
}

/// The phase that reports an analysis status.
pub open spec fn status_phase(s: Status) -> Phase {
    match s {
        Status::Invalid => Phase::Invalid,
        Status::NoMetal => Phase::NoMetal,
        Status::NoMatch => Phase::NoMatch,
        Status::Ambiguous => Phase::Ambiguous,
        Status::Detected => Phase::Detected,
    }
}

/// The message shown for an analysis status.
pub open spec fn status_message(s: Status) -> Seq<char> {
    match s {
        Status::Invalid => "识别框过小，请扩大范围，完整包含两侧夹爪。"@,
        Status::NoMetal => "未找到足够的灰色像素，请检查识别框位置或灰色容差。"@,
        Status::NoMatch => "找到灰色区域，但未匹配完整双爪；请检查遮挡、夹子是否张开和识别框范围。"@,
        Status::Ambiguous => "多个夹口候选无法区分，请缩小识别框，排除其他灰色物体。"@,
        Status::Detected => "正在跟随夹口中垂线"@,
    }
}

pub open spec fn moving_message() -> Seq<char> {
    "覆盖窗口正在移动，请稍候。"@
}

pub open spec fn slow_message() -> Seq<char> {
    "画面采集或识别过慢，已暂停方向线；可缩小识别框。"@
}

pub open spec fn calibrating_message() -> Seq<char> {
    "已识别夹口，锁定后在游戏上绘制方向线。"@
}

pub open spec fn confirming_message() -> Seq<char> {
    "正在确认夹口方向…"@
}

pub open spec fn preview_failure_prefix() -> Seq<char> {
    "无法生成识别预览："@
}

impl Phase {
    /// The code the panel receives for this phase.
    pub fn code(self) -> (c: &'static str)
        ensures
            c@ == phase_code(self),
    {
        let c = match self {
            Phase::CaptureError => "captureError",
            Phase::Invalid => "invalid",
            Phase::NoMetal => "noMetal",
            Phase::NoMatch => "noMatch",
            Phase::Ambiguous => "ambiguous",
            Phase::Detected => "detected",
            Phase::Slow => "slow",
            Phase::Confirming => "confirming",
            Phase::PreviewError => "previewError",
        };
        c
    }
}

/// A phase with the message that explains it.
pub struct Report {
    pub phase: Phase,
    pub message: String,
}

/// The report of a round whose capture failed with `error`.
pub fn capture_failed(error: String) -> (r: Report)
    ensures
        r.phase == Phase::CaptureError,
        r.message@ == error@,
{
    Report { phase: Phase::CaptureError, message: error }
}

/// Judges a captured and analysed frame. `moved` says whether the overlay's
/// geometry changed since the capture, `elapsed_ms` how long capture and
/// analysis took. The flag says whether the frame's detection may be used.
pub fn assess(status: Status, moved: bool, elapsed_ms: u64) -> (r: (Report, bool))
    ensures
        moved ==> r.0.phase == Phase::CaptureError && r.0.message@ == moving_message() && !r.1,
        !moved && elapsed_ms >= SLOW_FRAME_MS ==> r.0.phase == Phase::Slow && r.0.message@
            == slow_message() && !r.1,
        !moved && elapsed_ms < SLOW_FRAME_MS ==> r.0.phase == status_phase(status)
            && r.0.message@ == status_message(status) && r.1,
{
    if moved {
        (Report { phase: Phase::CaptureError, message: String::from_str("覆盖窗口正在移动，请稍候。") }, false)
    } else if elapsed_ms >= SLOW_FRAME_MS {
        (Report { phase: Phase::Slow, message: String::from_str("画面采集或识别过慢，已暂停方向线；可缩小识别框。") }, false)
    } else {
        let report = match status {
            Status::Invalid => Report {
                phase: Phase::Invalid,
                message: String::from_str("识别框过小，请扩大范围，完整包含两侧夹爪。"),
            },
            Status::NoMetal => Report {
                phase: Phase::NoMetal,
                message: String::from_str("未找到足够的灰色像素，请检查识别框位置或灰色容差。"),
            },
            Status::NoMatch => Report {
                phase: Phase::NoMatch,
                message: String::from_str("找到灰色区域，但未匹配完整双爪；请检查遮挡、夹子是否张开和识别框范围。"),
            },
            Status::Ambiguous => Report {
                phase: Phase::Ambiguous,
                message: String::from_str("多个夹口候选无法区分，请缩小识别框，排除其他灰色物体。"),
            },
            Status::Detected => Report {
                phase: Phase::Detected,
                message: String::from_str("正在跟随夹口中垂线"),
            },
        };
        (report, true)
    }
}

/// The phase and message of a round once the angle filter has run (see
/// [`settle`]).
pub open spec fn settled(
    phase: Phase,
    message: Seq<char>,
    detected: bool,
    calibrating: bool,
    confirmed: bool,
) -> (Phase, Seq<char>) {
    if detected && calibrating {
        (phase, calibrating_message())
    } else if detected && !confirmed {
        (Phase::Confirming, confirming_message())
    } else {
        (phase, message)
    }
}

/// Settling changes a report only for a kept detection: while calibrating it
/// keeps the phase and says the claw was found; while locked and not yet
/// confirmed it reports confirming. A round without a detection, or with a
/// confirmed one while locked, keeps its report as it was.
pub proof fn settling_changes_only_detections(
    phase: Phase,
    message: Seq<char>,
    detected: bool,
    calibrating: bool,
    confirmed: bool,
)
    ensures
        !detected ==> settled(phase, message, detected, calibrating, confirmed) == (phase, message),
        detected && !calibrating && confirmed ==> settled(
            phase,
            message,
            detected,
            calibrating,
            confirmed,
        ) == (phase, message),
        detected && calibrating ==> settled(phase, message, detected, calibrating, confirmed).0
            == phase,
        settled(phase, message, detected, calibrating, confirmed).0 == Phase::Confirming
            ==> phase == Phase::Confirming || (detected && !calibrating && !confirmed),
        detected && !calibrating && !confirmed ==> settled(
            phase,
            message,
            detected,
            calibrating,
            confirmed,
        ).0 == Phase::Confirming,
{
}

/// Different analysis statuses are reported as different phases, and
/// different phases reach the panel under different codes.
pub proof fn reports_tell_statuses_apart(s1: Status, s2: Status, p1: Phase, p2: Phase)
    ensures
        s1 != s2 ==> status_phase(s1) != status_phase(s2),
        p1 != p2 ==> phase_code(p1) != phase_code(p2),
{
    reveal_strlit("captureError");
    reveal_strlit("invalid");
    reveal_strlit("noMetal");
    reveal_strlit("noMatch");
    reveal_strlit("ambiguous");
    reveal_strlit("detected");
    reveal_strlit("slow");
    reveal_strlit("confirming");
    reveal_strlit("previewError");
    if p1 != p2 {
        assert(phase_code(p1).len() != phase_code(p2).len() || phase_code(p1)[0] != phase_code(p2)[0]
            || phase_code(p1)[3] != phase_code(p2)[3]);
    }
}

/// The outcome of one tracking round: its report, the detection it kept
/// (angle, origin and confidence), the angle it draws and the origin sent
/// with that angle.
pub struct Round<A, P, C> {
    pub report: Report,
    pub kept: Option<(A, P, C)>,
    pub angle: Option<A>,
    pub origin: Option<P>,
}

/// Concludes a round from its assessment (the report, and whether the frame's
/// detection may be used) and the analysis' detection `found`. A detection is
/// kept only where the assessment allows it. While calibrating the filter is
/// reset and nothing is drawn; while locked the kept angle, or the miss, goes
/// through the filter at `now` with the step test `consistent`. The report is
/// then settled, and the origin is sent only together with a drawn angle.
pub fn conclude<A: Copy, T: Copy, P: Copy, C: Copy, F: Fn(A, T, A, T) -> bool>(
    filter: &mut Filter<A, T>,
    assessed: (Report, bool),
    found: Option<(A, P, C)>,
    calibrating: bool,
    now: T,
    consistent: F,
) -> (r: Round<A, P, C>)
    requires
        forall|a: A, t: T, b: A, u: T| #[trigger] call_requires(consistent, (a, t, b, u)),
    ensures
        r.kept == (if assessed.1 {
            found
        } else {
            None
        }),
        calibrating ==> final(filter)@ == (None::<A>, None::<T>) && r.angle is None,
        !calibrating ==> final(filter)@ == remembered(
            match r.kept {
                Some(k) => Some(k.0),
                None => None,
            },
            now,
        ),
        r.kept is None ==> r.angle is None,
        (old(filter)@.0 is None || old(filter)@.1 is None) ==> r.angle is None,
        r.angle is Some ==> r.kept is Some && r.angle == Some((r.kept->0).0),
        (!calibrating && r.kept is Some && old(filter)@.0 is Some && old(filter)@.1 is Some)
            ==> call_ensures(
            consistent,
            (old(filter)@.0->0, old(filter)@.1->0, (r.kept->0).0, now),
            r.angle is Some,
        ),
        (r.report.phase, r.report.message@) == settled(
            assessed.0.phase,
            assessed.0.message@,
            r.kept is Some,
            calibrating,
            r.angle is Some,
        ),
        r.origin == (if r.angle is Some {
            Some((r.kept->0).1)
        } else {
            None
        }),
{
    let kept = if assessed.1 {
        found
    } else {
        None
    };
    let angle = if calibrating {
        filter.reset();
        None
    } else {
        let offered = match kept {
            Some(k) => Some(k.0),
            None => None,
        };
        filter.push(offered, now, consistent)
    };
    let report = settle(assessed.0, kept.is_some(), calibrating, angle.is_some());
    let origin = match (angle, kept) {
        (Some(_), Some(k)) => Some(k.1),
        _ => None,
    };
    Round { report, kept, angle, origin }
}

/// Whether a round renders a preview: one is wanted and the overlay did not
/// move during the capture.
pub fn renders_preview(moved: bool, wants_preview: bool) -> (b: bool)
    ensures
        b == (!moved && wants_preview),
{
    !moved && wants_preview
}

/// What a round delivers: the tracking update only while the state it started
/// on (`started_on`) is still the current one (`current`), so work from
/// before a mode, geometry or parameter change is dropped; the preview only
/// together with the update and where one was wanted.
pub fn deliveries(started_on: u64, current: u64, wants_preview: bool) -> (r: (bool, bool))
    ensures
        r.0 == (started_on == current),
        r.1 == (started_on == current && wants_preview),
{
    let update = started_on == current;
    (update, update && wants_preview)
}

/// Completes the report of a round once the angle filter has run. `detected`
/// says whether the round kept a detection, `confirmed` whether the filter let
/// its angle through. While calibrating no angle is drawn: a detection only
/// changes the message. While locked, a detection the filter has not yet
/// confirmed is reported as being confirmed.
pub fn settle(report: Report, detected: bool, calibrating: bool, confirmed: bool) -> (r: Report)
    ensures
        (r.phase, r.message@) == settled(
            report.phase,
            report.message@,
            detected,
            calibrating,
            confirmed,
        ),
        !detected || (!calibrating && confirmed) ==> r == report,
{
    if detected && calibrating {
        Report { phase: report.phase, message: String::from_str("已识别夹口，锁定后在游戏上绘制方向线。") }
    } else if detected && !confirmed {
        Report { phase: Phase::Confirming, message: String::from_str("正在确认夹口方向…") }
    } else {
        report
    }
}

/// The message that replaces the round's report in the panel when the preview
/// could not be rendered.
pub fn preview_failure(error: &str) -> (m: String)
    ensures
        m@ == preview_failure_prefix() + error@,
{
    let m = String::from_str("无法生成识别预览：");
    m.concat(error)
}

/// What the panel's preview shows for a round: the failure to render the
/// preview if there was one, the round's report otherwise.
pub fn preview_report(report: Report, failure: Option<String>) -> (r: Report)
    ensures
        failure is Some ==> r.phase == Phase::PreviewError && r.message@ == failure->0@,
        failure is None ==> r == report,
{
    match failure {
        Some(message) => Report { phase: Phase::PreviewError, message },
        None => report,
    }
}

} // verus!
