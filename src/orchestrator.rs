use vstd::prelude::*;

verus! {

/// The tools a run provisions, in the order the run handles them.
#[derive(Clone, Copy, Debug, PartialEq, Eq, Structural)]
pub enum DependencyKind {
    ScriptRuntime,
    ManagedRuntime,
    VersionControl,
    AgentCli,
}

pub open spec fn kind_at(i: int) -> DependencyKind {
    if i == 0 {
        DependencyKind::ScriptRuntime
    } else if i == 1 {
        DependencyKind::ManagedRuntime
    } else if i == 2 {
        DependencyKind::VersionControl
    } else {
        DependencyKind::AgentCli
    }
}

pub fn kind_at_index(i: usize) -> (r: DependencyKind)
    requires
        i < 4,
    ensures
        r == kind_at(i as int),
{
    if i == 0 {
        DependencyKind::ScriptRuntime
    } else if i == 1 {
        DependencyKind::ManagedRuntime
    } else if i == 2 {
        DependencyKind::VersionControl
    } else {
        DependencyKind::AgentCli
    }
}

/// What detection found for one tool: a descriptor of the usable tool, or nothing.
#[derive(Clone, Debug)]
pub enum DependencyStatus {
    Found(String),
    NotFound,
}

/// Detection outcome for the four tools.
#[derive(Clone, Debug)]
pub struct DetectionResults {
    pub python: DependencyStatus,
    pub nodejs: DependencyStatus,
    pub git: DependencyStatus,
    pub agent: DependencyStatus,
}

impl DetectionResults {
    /// Which tools are missing, in run order.
    pub open spec fn missing(&self) -> Seq<bool> {
        seq![
            self.python is NotFound,
            self.nodejs is NotFound,
            self.git is NotFound,
            self.agent is NotFound,
        ]
    }
}

/// The steps that progress is reported for.
#[derive(Clone, Copy, Debug, PartialEq, Eq, Structural)]
pub enum Step {
    Dependency(DependencyKind),
    Payload,
    Shortcuts,
}

#[derive(Clone, Copy, Debug, PartialEq, Eq, Structural)]
pub enum StepStatus {
    Pending,
    Active,
    Completed,
    Failed,
}

/// One progress report; `percent` never decreases over a run.
#[derive(Clone, Copy, Debug, PartialEq, Eq, Structural)]
pub struct ProgressEvent {
    pub step: Step,
    pub status: StepStatus,
    pub percent: u8,
}

#[derive(Clone, Copy, Debug, PartialEq, Eq, Structural)]
pub enum Phase {
    Acquiring,
    InstallingPayload,
    Finalizing,
    Done,
    Failed,
}

/// The work a run asks its driver to do next.
#[derive(Clone, Copy, Debug, PartialEq, Eq, Structural)]
pub enum RunAction {
    Acquire(DependencyKind),
    InstallPayload,
    Finalize,
    Stop,
}

/// What the driver reports back after doing the requested work.
#[derive(Clone, Debug)]
pub enum RunEvent {
    Acquired,
    AcquisitionFailed(String),
    PayloadInstalled,
    PayloadFailed(String),
    /// Cosmetic finishing work ended; its failures are warnings only.
    Finalized,
}

/// The first step that failed, with its cause.
#[derive(Clone, Debug)]
pub struct RunFailure {
    pub step: Step,
    pub cause: String,
}

#[derive(Clone, Debug)]
pub enum InstallationResult {
    Success,
    Failure(RunFailure),
}

pub open spec fn start_percent(i: int) -> u8 {
    if i == 0 {
        22
    } else if i == 1 {
        35
    } else if i == 2 {
        50
    } else {
        65
    }
}

pub open spec fn done_percent(i: int) -> u8 {
    if i == 0 {
        25
    } else if i == 1 {
        40
    } else if i == 2 {
        55
    } else {
        75
    }
}

pub const PAYLOAD_START: u8 = 80;

pub const PAYLOAD_DONE: u8 = 90;

pub const SHORTCUTS_START: u8 = 95;

pub const SHORTCUTS_DONE: u8 = 100;

fn start_percent_of(i: usize) -> (r: u8)
    requires
        i < 4,
    ensures
        r == start_percent(i as int),
{
    if i == 0 {
        22
    } else if i == 1 {
        35
    } else if i == 2 {
        50
    } else {
        65
    }
}

fn done_percent_of(i: usize) -> (r: u8)
    requires
        i < 4,
    ensures
        r == done_percent(i as int),
{
    if i == 0 {
        25
    } else if i == 1 {
        40
    } else if i == 2 {
        55
    } else {
        75
    }
}

/// First index at or after `from` of a missing tool, or the length when none is left.
pub open spec fn next_missing(missing: Seq<bool>, from: int) -> int
    decreases missing.len() - from,
{
    if from >= missing.len() {
        missing.len() as int
    } else if missing[from] {
        from
    } else {
        next_missing(missing, from + 1)
    }
}

/// The state a run enters on reaching tool `from` of the acquisition order.
pub open spec fn enter(missing: Seq<bool>, from: int) -> (Phase, int) {
    let c = next_missing(missing, from);
    if c < missing.len() {
        (Phase::Acquiring, c)
    } else {
        (Phase::InstallingPayload, c)
    }
}

/// The state at the start of a run: the first missing tool is acquired, or the
/// payload installed when nothing is missing.
pub open spec fn start_state(missing: Seq<bool>) -> (Phase, int) {
    enter(missing, 0)
}

/// One transition of the run; an event that does not fit the phase changes nothing.
pub open spec fn step(missing: Seq<bool>, s: (Phase, int), ev: RunEvent) -> (Phase, int) {
    match (s.0, ev) {
        (Phase::Acquiring, RunEvent::Acquired) => enter(missing, s.1 + 1),
        (Phase::Acquiring, RunEvent::AcquisitionFailed(_)) => (Phase::Failed, s.1),
        (Phase::InstallingPayload, RunEvent::PayloadInstalled) => (Phase::Finalizing, s.1),
        (Phase::InstallingPayload, RunEvent::PayloadFailed(_)) => (Phase::Failed, s.1),
        (Phase::Finalizing, RunEvent::Finalized) => (Phase::Done, s.1),
        _ => s,
    }
}

/// The state after a sequence of events.
pub open spec fn run_events(missing: Seq<bool>, s: (Phase, int), evs: Seq<RunEvent>) -> (
    Phase,
    int,
)
    decreases evs.len(),
{
    if evs.len() == 0 {
        s
    } else {
        run_events(missing, step(missing, s, evs[0]), evs.drop_first())
    }
}

/// The work a state asks for.
pub open spec fn action_of(s: (Phase, int)) -> RunAction {
    match s.0 {
        Phase::Acquiring => RunAction::Acquire(kind_at(s.1)),
        Phase::InstallingPayload => RunAction::InstallPayload,
        Phase::Finalizing => RunAction::Finalize,
        _ => RunAction::Stop,
    }
}

pub open spec fn nondecreasing_from(evs: Seq<ProgressEvent>, p: u8) -> bool {
    &&& forall|i: int| 0 <= i < evs.len() ==> p <= (#[trigger] evs[i]).percent
    &&& forall|i: int, j: int| 0 <= i <= j < evs.len() ==> evs[i].percent <= evs[j].percent
}

/// One installation run, from detection results to its outcome.
pub struct Orchestrator {
    pub missing: Vec<bool>,
    pub phase: Phase,
    pub cursor: usize,
    pub percent: u8,
    pub failure: Option<RunFailure>,
}

impl Orchestrator {
    pub open spec fn state(&self) -> (Phase, int) {
        (self.phase, self.cursor as int)
    }

    pub open spec fn wf(&self) -> bool {
        &&& self.missing@.len() == 4
        &&& self.cursor <= 4
        &&& self.percent <= 100
        &&& self.phase == Phase::Acquiring ==> self.cursor < 4 && self.missing@[self.cursor as int]
            && self.percent == start_percent(self.cursor as int)
        &&& self.phase == Phase::InstallingPayload ==> self.percent == PAYLOAD_START
        &&& self.phase == Phase::Finalizing ==> self.percent == SHORTCUTS_START
        &&& self.phase == Phase::Done ==> self.percent == SHORTCUTS_DONE
        &&& (self.phase == Phase::Failed) == (self.failure is Some)
    }

    /// Moves on from tool `from`: reports tools found by detection as completed,
    /// then starts the next missing one, or the payload when none is left.
    fn enter_from(&mut self, from: usize, events: &mut Vec<ProgressEvent>)
        requires
            old(self).missing@.len() == 4,
            from <= 4,
            old(self).failure is None,
            from < 4 ==> old(self).percent <= start_percent(from as int),
            from == 4 ==> old(self).percent <= PAYLOAD_START,
        ensures
            final(self).missing == old(self).missing,
            final(self).state() == enter(old(self).missing@, from as int),
            final(self).wf(),
            final(events)@.len() > old(events)@.len(),
            final(events)@.take(old(events)@.len() as int) == old(events)@,
            nondecreasing_from(
                final(events)@.skip(old(events)@.len() as int),
                old(self).percent,
            ),
            final(events)@.len() > old(events)@.len() ==> final(self).percent
                == final(events)@.last().percent,
            final(self).percent >= old(self).percent,
    {
        let ghost e0 = events@;
        let ghost p0 = self.percent;
        let mut i = from;
        while i < 4 && !self.missing[i]
            invariant
                self.missing@.len() == 4,
                self.missing == old(self).missing,
                self.failure is None,
                from <= i <= 4,
                next_missing(self.missing@, from as int) == next_missing(self.missing@, i as int),
                events@.len() >= e0.len(),
                events@.take(e0.len() as int) == e0,
                nondecreasing_from(events@.skip(e0.len() as int), p0),
                self.percent >= p0,
                i < 4 ==> self.percent <= start_percent(i as int),
                i == 4 ==> self.percent <= PAYLOAD_START,
                events@.len() > e0.len() ==> self.percent == events@.last().percent,
                forall|k: int| 0 <= k < events@.len() - e0.len() ==> (#[trigger] events@.skip(
                    e0.len() as int,
                )[k]).percent <= self.percent,
            decreases 4 - i,
        {
            let pct = done_percent_of(i);
            let ev = ProgressEvent {
                step: Step::Dependency(kind_at_index(i)),
                status: StepStatus::Completed,
                percent: pct,
            };
            let ghost before = events@;
            events.push(ev);
            assert(events@.skip(e0.len() as int) =~= before.skip(e0.len() as int).push(ev));
            assert(events@.take(e0.len() as int) =~= before.take(e0.len() as int));
            self.percent = pct;
            i = i + 1;
        }
        let (pct, step) = if i < 4 {
            (start_percent_of(i), Step::Dependency(kind_at_index(i)))
        } else {
            (PAYLOAD_START, Step::Payload)
        };
        let ev = ProgressEvent { step, status: StepStatus::Active, percent: pct };
        let ghost before = events@;
        events.push(ev);
        assert(events@.skip(e0.len() as int) =~= before.skip(e0.len() as int).push(ev));
        assert(events@.take(e0.len() as int) =~= before.take(e0.len() as int));
        self.percent = pct;
        if i < 4 {
            self.phase = Phase::Acquiring;
        } else {
            self.phase = Phase::InstallingPayload;
        }
        self.cursor = i;
    }

    /// Starts a run on detection results. Tools found are reported completed;
    /// the first missing tool is to be acquired, or the payload installed when
    /// none is missing.
    pub fn start(results: &DetectionResults) -> (r: (Self, Vec<ProgressEvent>))
        ensures
            r.0.wf(),
            r.0.missing@ == results.missing(),
            r.0.state() == start_state(results.missing()),
            nondecreasing_from(r.1@, 0),
            r.1@.len() > 0 && r.0.percent == r.1@.last().percent,
    {
        let mut missing: Vec<bool> = Vec::new();
        missing.push(matches!(results.python, DependencyStatus::NotFound));
        missing.push(matches!(results.nodejs, DependencyStatus::NotFound));
        missing.push(matches!(results.git, DependencyStatus::NotFound));
        missing.push(matches!(results.agent, DependencyStatus::NotFound));
        assert(missing@ =~= results.missing());
        let mut run = Orchestrator {
            missing,
            phase: Phase::Acquiring,
            cursor: 0,
            percent: 0,
            failure: None,
        };
        let mut events: Vec<ProgressEvent> = Vec::new();
        run.enter_from(0, &mut events);
        assert(events@.skip(0) =~= events@);
        (run, events)
    }

    /// The work this run asks for now.
    pub fn action(&self) -> (r: RunAction)
        requires
            self.wf(),
        ensures
            r == action_of(self.state()),
    {
        match self.phase {
            Phase::Acquiring => RunAction::Acquire(kind_at_index(self.cursor)),
            Phase::InstallingPayload => RunAction::InstallPayload,
            Phase::Finalizing => RunAction::Finalize,
            _ => RunAction::Stop,
        }
    }

    /// Applies the driver's report and returns the progress events it causes.
    pub fn advance(&mut self, ev: RunEvent) -> (r: Vec<ProgressEvent>)
        requires
            old(self).wf(),
        ensures
            final(self).wf(),
            final(self).missing == old(self).missing,
            final(self).state() == step(old(self).missing@, old(self).state(), ev),
            nondecreasing_from(r@, old(self).percent),
            r@.len() > 0 ==> final(self).percent == r@.last().percent,
            r@.len() == 0 ==> final(self).percent == old(self).percent,
            old(self).phase == Phase::Failed ==> final(self).failure == old(self).failure,
            old(self).phase == Phase::Acquiring ==> (ev matches RunEvent::AcquisitionFailed(
                cause,
            ) ==> final(self).failure matches Some(f) && f.step == Step::Dependency(
                kind_at(old(self).cursor as int),
            ) && f.cause@ == cause@),
            old(self).phase == Phase::InstallingPayload ==> (ev matches RunEvent::PayloadFailed(
                cause,
            ) ==> final(self).failure matches Some(f) && f.step == Step::Payload && f.cause@
                == cause@),
    {
        let mut events: Vec<ProgressEvent> = Vec::new();
        match (self.phase, ev) {
            (Phase::Acquiring, RunEvent::Acquired) => {
                let c = self.cursor;
                let pct = done_percent_of(c);
                events.push(
                    ProgressEvent {
                        step: Step::Dependency(kind_at_index(c)),
                        status: StepStatus::Completed,
                        percent: pct,
                    },
                );
                self.percent = pct;
                let ghost e1 = events@;
                self.enter_from(c + 1, &mut events);
                let ghost tail = events@.skip(1);
                assert(events@.take(1)[0] == events@[0]);
                assert(events@[0] == e1[0]);
                assert(events@[0].percent == pct);
                assert forall|i: int, j: int| 0 <= i <= j < events@.len() implies events@[i].percent
                    <= events@[j].percent by {
                    if i == 0 && j > 0 {
                        assert(events@[j] == tail[j - 1]);
                    } else if i > 0 {
                        assert(events@[i] == tail[i - 1]);
                        assert(events@[j] == tail[j - 1]);
                    }
                }
                assert(events@.last() == tail.last());
            },
            (Phase::Acquiring, RunEvent::AcquisitionFailed(cause)) => {
                let c = self.cursor;
                events.push(
                    ProgressEvent {
                        step: Step::Dependency(kind_at_index(c)),
                        status: StepStatus::Failed,
                        percent: self.percent,
                    },
                );
                self.phase = Phase::Failed;
                self.failure = Some(RunFailure { step: Step::Dependency(kind_at_index(c)), cause });
            },
            (Phase::InstallingPayload, RunEvent::PayloadInstalled) => {
                events.push(
                    ProgressEvent {
                        step: Step::Payload,
                        status: StepStatus::Completed,
                        percent: PAYLOAD_DONE,
                    },
                );
                events.push(
                    ProgressEvent {
                        step: Step::Shortcuts,
                        status: StepStatus::Active,
                        percent: SHORTCUTS_START,
                    },
                );
                self.percent = SHORTCUTS_START;
                self.phase = Phase::Finalizing;
            },
            (Phase::InstallingPayload, RunEvent::PayloadFailed(cause)) => {
                events.push(
                    ProgressEvent { step: Step::Payload, status: StepStatus::Failed, percent: self.percent },
                );
                self.phase = Phase::Failed;
                self.failure = Some(RunFailure { step: Step::Payload, cause });
            },
            (Phase::Finalizing, RunEvent::Finalized) => {
                events.push(
                    ProgressEvent {
                        step: Step::Shortcuts,
                        status: StepStatus::Completed,
                        percent: SHORTCUTS_DONE,
                    },
                );
                self.percent = SHORTCUTS_DONE;
                self.phase = Phase::Done;
            },
            _ => {},
        }
        events
    }

    /// The run's outcome once it has ended.
    pub fn outcome(&self) -> (r: Option<InstallationResult>)
        requires
            self.wf(),
        ensures
            self.phase == Phase::Done <==> r matches Some(InstallationResult::Success),
            self.phase == Phase::Failed <==> r matches Some(InstallationResult::Failure(_)),
            r matches Some(InstallationResult::Failure(f)) ==> self.failure matches Some(g)
                && f.step == g.step && f.cause@ == g.cause@,
    {
        match self.phase {
            Phase::Done => Some(InstallationResult::Success),
            Phase::Failed => match &self.failure {
                Some(f) => Some(
                    InstallationResult::Failure(
                        RunFailure { step: f.step, cause: f.cause.clone() },
                    ),
                ),
                None => None,
            },
            _ => None,
        }
    }
}

/// With every tool found by detection, a run acquires nothing: it starts
/// directly with payload installation.
pub proof fn lemma_all_found_skips_acquisition(missing: Seq<bool>)
    requires
        missing.len() == 4,
        forall|i: int| 0 <= i < 4 ==> !missing[i],
    ensures
        start_state(missing) == (Phase::InstallingPayload, 4int),
        action_of(start_state(missing)) == RunAction::InstallPayload,
{
    assert(next_missing(missing, 4) == 4);
    assert(next_missing(missing, 3) == 4);
    assert(next_missing(missing, 2) == 4);
    assert(next_missing(missing, 1) == 4);
    assert(next_missing(missing, 0) == 4);
}

/// Once a run has failed, no event moves it: it stays failed at the same step
/// and asks for nothing more, so no later tool is acquired.
pub proof fn lemma_failed_is_final(missing: Seq<bool>, c: int, evs: Seq<RunEvent>)
    ensures
        run_events(missing, (Phase::Failed, c), evs) == (Phase::Failed, c),
        action_of(run_events(missing, (Phase::Failed, c), evs)) == RunAction::Stop,
    decreases evs.len(),
{
    if evs.len() > 0 {
        lemma_failed_is_final(missing, c, evs.drop_first());
    }
}

/// A failed acquisition of a tool ends the run failed at that tool; no event
/// after it leads to the acquisition of any later tool.
pub proof fn lemma_acquisition_failure_halts(
    missing: Seq<bool>,
    c: int,
    cause: String,
    evs: Seq<RunEvent>,
)
    ensures
        step(missing, (Phase::Acquiring, c), RunEvent::AcquisitionFailed(cause)) == (
            Phase::Failed,
            c,
        ),
        forall|k: int|
            0 <= k <= evs.len() ==> #[trigger] action_of(
                run_events(
                    missing,
                    step(missing, (Phase::Acquiring, c), RunEvent::AcquisitionFailed(cause)),
                    evs.take(k),
                ),
            ) == RunAction::Stop,
{
    assert forall|k: int| 0 <= k <= evs.len() implies #[trigger] action_of(
        run_events(
            missing,
            step(missing, (Phase::Acquiring, c), RunEvent::AcquisitionFailed(cause)),
            evs.take(k),
        ),
    ) == RunAction::Stop by {
        lemma_failed_is_final(missing, c, evs.take(k));
    }
}

} // verus!
