//! The release run: phases of commands, each bracketed by start and end
//! markers, driven one action at a time by the caller.
use vstd::prelude::*;
use vstd::string::*;
use crate::dry_run::DryRunFlag;
use crate::git::{push_tags_command, tag_command};
use crate::publish::{publish_command, with_simulate};
use crate::text::{argv, views};

verus! {

/// A named phase of a release run.
#[derive(Clone, Copy, Debug, PartialEq, Eq, Structural)]
pub enum Phase {
    Build,
    Test,
    Publish,
}

/// The name a phase is shown under.
pub open spec fn phase_label(p: Phase) -> Seq<char> {
    match p {
        Phase::Build => "BUILD"@,
        Phase::Test => "TEST"@,
        Phase::Publish => "PUBLISH"@,
    }
}

impl Phase {
    /// The name the phase is shown under.
    pub fn name(&self) -> (r: &'static str)
        ensures
            r@ == phase_label(*self),
    {
        match self {
            Phase::Build => "BUILD",
            Phase::Test => "TEST",
            Phase::Publish => "PUBLISH",
        }
    }
}

/// The line that opens a phase named `name` in a CI log.
pub fn start_marker(name: &str) -> (r: String)
    ensures
        r@ == "::group::"@ + name@,
{
    String::from_str("::group::").concat(name)
}

/// The line that closes the open phase in a CI log.
pub fn end_marker() -> (r: String)
    ensures
        r@ == "::endgroup::"@,
{
    "::endgroup::".to_owned()
}

/// A phase and the commands run in it, in order.
pub struct PhasePlan {
    /// The phase.
    pub phase: Phase,
    /// Its commands, each an argument vector whose first item is the program.
    pub commands: Vec<Vec<String>>,
}

/// Where a `Pipeline` stands.
pub enum Stage {
    /// No phase was begun yet.
    Opening,
    /// The current phase is open; `next_cmd` of its commands were asked for.
    Running,
    /// The current phase was closed, after a failed command or not.
    Closing { failed: bool },
    /// The run is over, with this exit code.
    Done { code: u8 },
}

/// What the caller of `Pipeline::next` does next.
#[derive(Clone, Copy, Debug, PartialEq, Eq, Structural)]
pub enum PipelineAction {
    /// Open `phase`: show its start marker and start its clock.
    Begin { phase: Phase },
    /// Run command `index` of phase number `at`.
    Run { at: usize, index: usize },
    /// Close `phase`: show the time it took and its end marker.
    End { phase: Phase },
    /// Stop the process with this exit code.
    Exit { code: u8 },
}

/// A run through phases in order. A command that fails closes its phase and
/// ends the run with exit code 1; when every command succeeded the run ends
/// with 0.
pub struct Pipeline {
    /// The phases, in order.
    pub plan: Vec<PhasePlan>,
    /// The number of the current phase.
    pub at: usize,
    /// How many commands of the current phase were asked for.
    pub next_cmd: usize,
    /// What was asked for last.
    pub stage: Stage,
}

impl Pipeline {
    /// The position fits the plan.
    pub open spec fn wf(&self) -> bool {
        match self.stage {
            Stage::Opening => self.at == 0 && self.next_cmd == 0,
            Stage::Running => self.at < self.plan@.len() && self.next_cmd
                <= self.plan@[self.at as int].commands@.len(),
            Stage::Closing { .. } => self.at < self.plan@.len(),
            Stage::Done { .. } => true,
        }
    }

    /// Whether a phase is open: its start marker was shown and its end
    /// marker not yet.
    pub open spec fn section_open(&self) -> bool {
        self.stage is Running
    }

    /// The phase at the current position.
    pub open spec fn current_phase(&self) -> Phase {
        self.plan@[self.at as int].phase
    }
}

/// The state after asking to begin phase number `at`, or to exit with 0
/// where no phase is left.
pub open spec fn enter_phase(s: Pipeline, at: usize) -> (Pipeline, PipelineAction) {
    if at < s.plan@.len() {
        (
            Pipeline { at, next_cmd: 0, stage: Stage::Running, ..s },
            PipelineAction::Begin { phase: s.plan@[at as int].phase },
        )
    } else {
        (Pipeline { stage: Stage::Done { code: 0 }, ..s }, PipelineAction::Exit { code: 0 })
    }
}

/// One step: the next state and action, given the state and whether the
/// last action succeeded (which only matters after a command).
pub open spec fn pipeline_step(s: Pipeline, last_ok: bool) -> (Pipeline, PipelineAction) {
    match s.stage {
        Stage::Opening => enter_phase(s, 0),
        Stage::Running => if s.next_cmd > 0 && !last_ok {
            (
                Pipeline { stage: Stage::Closing { failed: true }, ..s },
                PipelineAction::End { phase: s.current_phase() },
            )
        } else if s.next_cmd < s.plan@[s.at as int].commands@.len() {
            (
                Pipeline { next_cmd: (s.next_cmd + 1) as usize, ..s },
                PipelineAction::Run { at: s.at, index: s.next_cmd },
            )
        } else {
            (
                Pipeline { stage: Stage::Closing { failed: false }, ..s },
                PipelineAction::End { phase: s.current_phase() },
            )
        },
        Stage::Closing { failed } => if failed {
            (Pipeline { stage: Stage::Done { code: 1 }, ..s }, PipelineAction::Exit { code: 1 })
        } else {
            enter_phase(s, (s.at + 1) as usize)
        },
        Stage::Done { code } => (s, PipelineAction::Exit { code }),
    }
}

impl Pipeline {
    /// A run through the phases of `plan`.
    pub fn new(plan: Vec<PhasePlan>) -> (r: Pipeline)
        ensures
            r.wf(),
            r.plan == plan,
            r.stage == Stage::Opening,
    {
        Pipeline { plan, at: 0, next_cmd: 0, stage: Stage::Opening }
    }

    /// Command `index` of phase number `at`.
    pub fn command(&self, at: usize, index: usize) -> (r: &Vec<String>)
        requires
            at < self.plan@.len(),
            index < self.plan@[at as int].commands@.len(),
        ensures
            r == self.plan@[at as int].commands@[index as int],
    {
        &self.plan[at].commands[index]
    }

    fn enter(&mut self, at: usize) -> (r: PipelineAction)
        requires
            old(self).wf(),
            at == 0 || at == old(self).at + 1,
            at == 0 ==> old(self).stage is Opening,
            at != 0 ==> old(self).stage is Closing,
        ensures
            final(self).wf(),
            (*final(self), r) == enter_phase(*old(self), at),
    {
        if at < self.plan.len() {
            self.at = at;
            self.next_cmd = 0;
            self.stage = Stage::Running;
            PipelineAction::Begin { phase: self.plan[at].phase }
        } else {
            self.stage = Stage::Done { code: 0 };
            PipelineAction::Exit { code: 0 }
        }
    }

    /// Advances by one step; `last_ok` tells whether the last action succeeded.
    pub fn next(&mut self, last_ok: bool) -> (r: PipelineAction)
        requires
            old(self).wf(),
        ensures
            final(self).wf(),
            (*final(self), r) == pipeline_step(*old(self), last_ok),
    {
        match self.stage {
            Stage::Opening => self.enter(0),
            Stage::Running => {
                let phase = self.plan[self.at].phase;
                if self.next_cmd > 0 && !last_ok {
                    self.stage = Stage::Closing { failed: true };
                    PipelineAction::End { phase }
                } else if self.next_cmd < self.plan[self.at].commands.len() {
                    let index = self.next_cmd;
                    self.next_cmd = self.next_cmd + 1;
                    PipelineAction::Run { at: self.at, index }
                } else {
                    self.stage = Stage::Closing { failed: false };
                    PipelineAction::End { phase }
                }
            },
            Stage::Closing { failed } => {
                if failed {
                    self.stage = Stage::Done { code: 1 };
                    PipelineAction::Exit { code: 1 }
                } else {
                    let n = self.plan.len();
                    assert(self.at < n);
                    let at = self.at + 1;
                    self.enter(at)
                }
            },
            Stage::Done { code } => PipelineAction::Exit { code },
        }
    }
}

/// Each phase is bracketed: a begin only opens a phase when none is open, an
/// end closes the open phase and names it, a command runs only inside the
/// open phase, and the run exits only with no phase open. Whatever the
/// outcome of the last action, a started phase is therefore ended exactly
/// once before the run stops.
pub proof fn lemma_phases_bracketed(s: Pipeline, last_ok: bool)
    requires
        s.wf(),
    ensures
        ({
            let (t, a) = pipeline_step(s, last_ok);
            &&& t.wf()
            &&& a matches PipelineAction::Begin { phase } ==> !s.section_open() && t.section_open()
                && phase == t.current_phase()
            &&& a matches PipelineAction::End { phase } ==> s.section_open() && !t.section_open()
                && phase == s.current_phase()
            &&& a matches PipelineAction::Run { at, .. } ==> s.section_open() && t.section_open()
                && at == s.at && t.at == s.at
            &&& a is Exit ==> !s.section_open() && !t.section_open()
        }),
{
}

/// A failed command ends its phase at once, and then the run, with exit
/// code 1: the end marker is shown even though the phase failed.
pub proof fn lemma_failure_ends_phase(s: Pipeline, then_ok: bool)
    requires
        s.wf(),
        s.stage is Running,
        s.next_cmd > 0,
    ensures
        pipeline_step(s, false).1 == (PipelineAction::End { phase: s.current_phase() }),
        !pipeline_step(s, false).0.section_open(),
        pipeline_step(pipeline_step(s, false).0, then_ok).1 == (PipelineAction::Exit { code: 1 }),
{
}

/// The arguments of the command that compiles the workspace and its tests
/// without running them.
pub open spec fn compile_args() -> Seq<Seq<char>> {
    seq!["cargo"@, "test"@, "--workspace"@, "--no-run"@]
}

/// The command that compiles the workspace and its tests without running them.
pub fn compile_command() -> (r: Vec<String>)
    ensures
        views(r@) == compile_args(),
{
    let r = argv(&["cargo", "test", "--workspace", "--no-run"]);
    assert(views(r@) =~= compile_args());
    r
}

/// The views of a sequence of commands.
pub open spec fn commands_view(c: Seq<Vec<String>>) -> Seq<Seq<Seq<char>>> {
    c.map_values(|v: Vec<String>| views(v@))
}

/// The commands of the publish phase: publish (simulated in a dry run),
/// then, outside a dry run, create the tag and push the tags.
pub open spec fn publish_phase(tag: Seq<char>, token: Seq<char>, dry_run: bool) -> Seq<
    Seq<Seq<char>>,
> {
    let publish = with_simulate(seq!["cargo"@, "publish"@, "--token"@, token], dry_run);
    if dry_run {
        seq![publish]
    } else {
        seq![publish, seq!["git"@, "tag"@, tag], seq!["git"@, "push"@, "--tags"@]]
    }
}

/// The phases of a release run: build, test (the same compile-only command
/// again), and publish, which releases `tag` with `token`.
pub fn release_plan(tag: &str, token: &str, flag: &DryRunFlag) -> (r: Vec<PhasePlan>)
    ensures
        r@.len() == 3,
        r@[0].phase == Phase::Build,
        commands_view(r@[0].commands@) == seq![compile_args()],
        r@[1].phase == Phase::Test,
        commands_view(r@[1].commands@) == seq![compile_args()],
        r@[2].phase == Phase::Publish,
        commands_view(r@[2].commands@) == publish_phase(tag@, token@, flag.is_set()),
{
    let build = vec![compile_command()];
    let test = vec![compile_command()];
    assert(commands_view(build@) =~= seq![compile_args()]);
    assert(commands_view(test@) =~= seq![compile_args()]);
    let mut publish: Vec<Vec<String>> = Vec::new();
    publish.push(publish_command(token, flag));
    assert(commands_view(publish@) =~= seq![
        with_simulate(seq!["cargo"@, "publish"@, "--token"@, token@], flag.is_set()),
    ]);
    if let Some(c) = tag_command(tag, flag) {
        publish.push(c);
    }
    if let Some(c) = push_tags_command(flag) {
        publish.push(c);
    }
    assert(commands_view(publish@) =~= publish_phase(tag@, token@, flag.is_set()));
    vec![
        PhasePlan { phase: Phase::Build, commands: build },
        PhasePlan { phase: Phase::Test, commands: test },
        PhasePlan { phase: Phase::Publish, commands: publish },
    ]
}

impl Pipeline {
    /// The release run of `tag`, published with `token`.
    pub fn release(tag: &str, token: &str, flag: &DryRunFlag) -> (r: Pipeline)
        ensures
            r.wf(),
            r.stage == Stage::Opening,
            r.plan@.len() == 3,
            r.plan@[0].phase == Phase::Build,
            commands_view(r.plan@[0].commands@) == seq![compile_args()],
            r.plan@[1].phase == Phase::Test,
            commands_view(r.plan@[1].commands@) == seq![compile_args()],
            r.plan@[2].phase == Phase::Publish,
            commands_view(r.plan@[2].commands@) == publish_phase(tag@, token@, flag.is_set()),
    {
        Pipeline::new(release_plan(tag, token, flag))
    }
}

} // verus!
