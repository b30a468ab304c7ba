//! The restart-policy engine: a per-command state machine that decides,
//! after each attempt, whether to relaunch the command, run an escalation
//! remedy, or stop supervising it. The surrounding runtime performs the
//! launches and reports each attempt's outcome back through
//! [`Supervision::record_outcome`].

use vstd::prelude::*;
use vstd::string::StringExecFns;

use crate::attempt::AttemptOutcome;
use crate::descriptor::CommandDescriptor;
use crate::descriptor::DescriptorView;
use crate::descriptor::RestartMode;
use crate::descriptor::safe_mode_remedy;
use crate::descriptor::script_remedy;
use crate::ledger::CrashLedger;
use crate::ledger::window_count;
use crate::tui_state::TuiEvent;

verus! {

/// Where a command's supervision stands.
#[derive(Debug, Clone, Copy, PartialEq, Eq, Structural)]
pub enum Phase {
    /// The next launch runs the command itself.
    Primary,
    /// The next launch runs the escalation script.
    Script,
    /// The next launch reruns the command with its safe-mode arguments.
    SafeMode,
    /// The task finished normally; nothing more is launched.
    Done,
    /// Escalation found no remedy; the command is abandoned for good.
    GivenUp,
}

/// The supervision state for one command: its descriptor, its event id,
/// its crash ledger, and the phase the restart loop is in.
pub struct Supervision {
    pub descriptor: CommandDescriptor,
    pub id: usize,
    pub ledger: CrashLedger,
    pub phase: Phase,
}

/// Mathematical image of a [`Supervision`].
pub struct SupervisionView {
    pub descriptor: DescriptorView,
    pub id: usize,
    pub ledger: Seq<i64>,
    pub phase: Phase,
}

impl View for Supervision {
    type V = SupervisionView;

    open spec fn view(&self) -> SupervisionView {
        SupervisionView {
            descriptor: self.descriptor@,
            id: self.id,
            ledger: self.ledger@,
            phase: self.phase,
        }
    }
}

impl SupervisionView {
    /// A remedy phase is only reachable when the descriptor actually
    /// carries that remedy.
    pub open spec fn wf(self) -> bool {
        &&& self.phase is Script ==> (self.descriptor.backup_strategy matches Some(st)
            && st.script is Some)
        &&& self.phase is SafeMode ==> (self.descriptor.backup_strategy matches Some(st)
            && st.safe_mode is Some)
    }

    /// The task still has something to launch.
    pub open spec fn running(self) -> bool {
        self.phase is Primary || self.phase is Script || self.phase is SafeMode
    }

    /// What the task launches next: the command itself, one of the two
    /// remedies, or nothing once it has finished or given up.
    pub open spec fn launch(self) -> Option<DescriptorView> {
        match self.phase {
            Phase::Primary => Some(self.descriptor),
            Phase::Script => Some(script_remedy(self.descriptor)),
            Phase::SafeMode => Some(safe_mode_remedy(self.descriptor)),
            Phase::Done => None,
            Phase::GivenUp => None,
        }
    }
}

/// The modes whose supervision loop can run the command again; only these
/// keep a crash ledger.
pub open spec fn mode_retries(m: RestartMode) -> bool {
    m is RunUntilSuccess || m is RunUntilSuccessAndWait || m is KeepAlive
}

/// The ledger after one reported outcome: a failed primary attempt of a
/// retrying mode appends its time; nothing else changes the ledger.
pub open spec fn step_ledger(s: SupervisionView, outcome: AttemptOutcome, now: i64) -> Seq<i64> {
    if s.phase is Primary && outcome is Failure && mode_retries(s.descriptor.mode) {
        s.ledger.push(now)
    } else {
        s.ledger
    }
}

/// Where a failed primary attempt sends the loop: when more than `times`
/// ledger entries fall inside the sliding window ending at `now`, the
/// remedies begin (script first) or, with no remedy at all, the command is
/// abandoned; otherwise the command is simply relaunched.
pub open spec fn failure_phase(d: DescriptorView, ledger: Seq<i64>, now: i64) -> Phase {
    match d.backup_strategy {
        None => Phase::Primary,
        Some(st) => if window_count(ledger, now - st.period_secs) > st.times {
            if !st.has_remedy() {
                Phase::GivenUp
            } else if st.script is Some {
                Phase::Script
            } else {
                Phase::SafeMode
            }
        } else {
            Phase::Primary
        },
    }
}

/// The phase after one reported outcome.
pub open spec fn step_phase(s: SupervisionView, outcome: AttemptOutcome, now: i64) -> Phase {
    match s.phase {
        Phase::Primary => match s.descriptor.mode {
            RestartMode::RunOnce => Phase::Done,
            RestartMode::RunOnceAndWait => Phase::Done,
            RestartMode::RunUntilSuccess | RestartMode::RunUntilSuccessAndWait => {
                if outcome is Success {
                    Phase::Done
                } else {
                    failure_phase(s.descriptor, step_ledger(s, outcome, now), now)
                }
            },
            RestartMode::KeepAlive => {
                if outcome is Success {
                    Phase::Primary
                } else {
                    failure_phase(s.descriptor, step_ledger(s, outcome, now), now)
                }
            },
        },
        Phase::Script => {
            if s.descriptor.backup_strategy->0.safe_mode is Some {
                Phase::SafeMode
            } else {
                Phase::Primary
            }
        },
        Phase::SafeMode => Phase::Primary,
        Phase::Done => Phase::Done,
        Phase::GivenUp => Phase::GivenUp,
    }
}

/// The whole state after one reported outcome. A remedy's own outcome is
/// not judged: after the script comes the safe-mode relaunch if one is
/// configured, and then the normal restart loop resumes.
pub open spec fn step(s: SupervisionView, outcome: AttemptOutcome, now: i64) -> SupervisionView {
    SupervisionView {
        phase: step_phase(s, outcome, now),
        ledger: step_ledger(s, outcome, now),
        ..s
    }
}

/// The supervisor notice sent when escalation has no remedy.
pub open spec fn giveup_message() -> Seq<char> {
    "Crash limit reached with no handling strategy, giving up!"@
}

impl Supervision {
    /// Fresh supervision for one command, ready to launch it.
    pub fn new(descriptor: CommandDescriptor, id: usize) -> (r: Supervision)
        ensures
            r@.descriptor == descriptor@,
            r@.id == id,
            r@.ledger == Seq::<i64>::empty(),
            r@.phase == Phase::Primary,
            r@.wf(),
    {
        Supervision { descriptor, id, ledger: CrashLedger::new(), phase: Phase::Primary }
    }

    pub fn phase(&self) -> (r: Phase)
        ensures
            r == self@.phase,
    {
        self.phase
    }

    /// The descriptor to launch next: the command itself, one of the two
    /// remedies, or nothing once the task has finished or given up.
    pub fn next_launch(&self) -> (r: Option<CommandDescriptor>)
        requires
            self@.wf(),
        ensures
            match r {
                Some(d) => self@.running() && self@.launch() == Some(d@),
                None => !self@.running() && self@.launch() is None,
            },
    {
        match self.phase {
            Phase::Primary => Some(self.descriptor.duplicate()),
            Phase::Script => Some(self.descriptor.script_descriptor()),
            Phase::SafeMode => Some(self.descriptor.safe_mode_descriptor()),
            Phase::Done => None,
            Phase::GivenUp => None,
        }
    }

    /// Reports how the attempt just launched ended, at time `now`, and
    /// moves the state machine one step. Yields the supervisor notice to
    /// display exactly when the command is abandoned.
    pub fn record_outcome(&mut self, outcome: AttemptOutcome, now: i64) -> (r: Option<TuiEvent>)
        requires
            old(self)@.wf(),
            old(self)@.running(),
        ensures
            final(self)@ == step(old(self)@, outcome, now),
            final(self)@.wf(),
            match r {
                Some(e) => final(self)@.phase is GivenUp && (e matches TuiEvent::System(eid, msg)
                    && eid == old(self)@.id && msg@ == giveup_message()),
                None => !(final(self)@.phase is GivenUp),
            },
    {
        match self.phase {
            Phase::Primary => {
                match self.descriptor.mode {
                    RestartMode::RunOnce | RestartMode::RunOnceAndWait => {
                        self.phase = Phase::Done;
                        None
                    },
                    RestartMode::RunUntilSuccess
                    | RestartMode::RunUntilSuccessAndWait
                    | RestartMode::KeepAlive => {
                        match outcome {
                            AttemptOutcome::Success => {
                                if matches!(self.descriptor.mode, RestartMode::KeepAlive) {
                                    // a KeepAlive command is relaunched even
                                    // after a clean exit
                                } else {
                                    self.phase = Phase::Done;
                                }
                                None
                            },
                            AttemptOutcome::Failure => {
                                self.ledger.record(now);
                                match &self.descriptor.backup_strategy {
                                    None => None,
                                    Some(st) => {
                                        let count = self.ledger.count_recent(now, st.period_secs);
                                        if count > st.times {
                                            if st.script.is_some() {
                                                self.phase = Phase::Script;
                                                None
                                            } else if st.safe_mode.is_some() {
                                                self.phase = Phase::SafeMode;
                                                None
                                            } else {
                                                self.phase = Phase::GivenUp;
                                                Some(
                                                    TuiEvent::System(
                                                        self.id,
                                                        String::from_str(
                                                            "Crash limit reached with no handling strategy, giving up!",
                                                        ),
                                                    ),
                                                )
                                            }
                                        } else {
                                            None
                                        }
                                    },
                                }
                            },
                        }
                    },
                }
            },
            Phase::Script => {
                let has_safe = match &self.descriptor.backup_strategy {
                    Some(st) => st.safe_mode.is_some(),
                    None => vstd::pervasive::unreached(),
                };
                if has_safe {
                    self.phase = Phase::SafeMode;
                } else {
                    self.phase = Phase::Primary;
                }
                None
            },
            Phase::SafeMode => {
                self.phase = Phase::Primary;
                None
            },
            Phase::Done => vstd::pervasive::unreached(),
            Phase::GivenUp => vstd::pervasive::unreached(),
        }
    }
}

/// Runs a supervision state through a whole sequence of reported
/// outcomes, each tagged with the time it was reported.
pub open spec fn run_steps(s: SupervisionView, reports: Seq<(AttemptOutcome, i64)>) -> SupervisionView
    decreases reports.len(),
{
    if reports.len() == 0 {
        s
    } else {
        run_steps(step(s, reports[0].0, reports[0].1), reports.drop_first())
    }
}

/// Once a supervision task has finished or given up, no report moves it:
/// its state, and in particular its empty launch, are final.
pub proof fn lemma_terminal_stays(s: SupervisionView, reports: Seq<(AttemptOutcome, i64)>)
    requires
        !s.running(),
    ensures
        run_steps(s, reports) == s,
    decreases reports.len(),
{
    if reports.len() > 0 {
        assert(step(s, reports[0].0, reports[0].1) == s);
        lemma_terminal_stays(s, reports.drop_first());
    }
}

/// A `KeepAlive` supervision task never finishes: whatever outcomes its
/// attempts report, it never reaches the `Done` phase — in particular a
/// successful exit never terminates it. (It can still be abandoned by a
/// remedy-less escalation.)
pub proof fn lemma_keep_alive_never_done(s: SupervisionView, reports: Seq<(AttemptOutcome, i64)>)
    requires
        s.descriptor.mode is KeepAlive,
        !(s.phase is Done),
    ensures
        !(run_steps(s, reports).phase is Done),
    decreases reports.len(),
{
    if reports.len() > 0 {
        let t = step(s, reports[0].0, reports[0].1);
        assert(!(t.phase is Done));
        lemma_keep_alive_never_done(t, reports.drop_first());
    }
}

/// A `KeepAlive` command is relaunched after a successful attempt: the
/// task stays in its primary phase.
pub proof fn lemma_keep_alive_success_relaunches(s: SupervisionView, now: i64)
    requires
        s.descriptor.mode is KeepAlive,
        s.phase is Primary,
    ensures
        step(s, AttemptOutcome::Success, now).phase is Primary,
        step(s, AttemptOutcome::Success, now).launch() is Some,
{
}

/// Under `RunUntilSuccess` (waiting or not), the first successful attempt
/// ends the loop: the task is done, launches nothing, and no later report
/// changes that.
pub proof fn lemma_until_success_stops(
    s: SupervisionView,
    now: i64,
    reports: Seq<(AttemptOutcome, i64)>,
)
    requires
        s.descriptor.mode is RunUntilSuccess || s.descriptor.mode is RunUntilSuccessAndWait,
        s.phase is Primary,
    ensures
        ({
            let t = step(s, AttemptOutcome::Success, now);
            &&& t.phase is Done
            &&& t.launch() is None
            &&& run_steps(t, reports) == t
        }),
{
    let t = step(s, AttemptOutcome::Success, now);
    lemma_terminal_stays(t, reports);
}

/// Escalation idempotence: a command that has been given up launches
/// nothing, and stays given up through any further reports.
pub proof fn lemma_given_up_is_final(s: SupervisionView, reports: Seq<(AttemptOutcome, i64)>)
    requires
        s.phase is GivenUp,
    ensures
        s.launch() is None,
        run_steps(s, reports) == s,
        run_steps(s, reports).launch() is None,
{
    lemma_terminal_stays(s, reports);
}

/// Builds the dashboard's initial tab list: one title per command, in
/// list order.
pub fn tab_titles(commands: &Vec<CommandDescriptor>) -> (r: Vec<String>)
    ensures
        r.deep_view() == commands@.map_values(|c: CommandDescriptor| c@.name),
{
    let mut r: Vec<String> = Vec::new();
    let mut i: usize = 0;
    while i < commands.len()
        invariant
            0 <= i <= commands@.len(),
            r.deep_view() =~= commands@.map_values(|c: CommandDescriptor| c@.name).take(i as int),
        decreases commands@.len() - i,
    {
        let ghost pre = r@;
        let ghost predeep = r.deep_view();
        let name = commands[i].name.clone();
        r.push(name);
        proof {
            assert(predeep.len() == pre.len());
            assert(r@ == pre.push(name));
            assert forall|j: int| 0 <= j < r@.len() implies r.deep_view()[j] == commands@.map_values(
                |c: CommandDescriptor| c@.name,
            ).take(i as int + 1)[j] by {
                assert(r.deep_view()[j] == r@[j].deep_view());
                if j < i as int {
                    assert(r@[j] == pre[j]);
                    assert(predeep[j] == pre[j].deep_view());
                } else {
                    assert(r@[j] == name);
                }
            }
            assert(r.deep_view() =~= commands@.map_values(|c: CommandDescriptor| c@.name).take(
                i as int + 1,
            ));
        }
        i += 1;
    }
    proof {
        assert(r.deep_view() =~= commands@.map_values(|c: CommandDescriptor| c@.name));
    }
    r
}

} // verus!
