//! Publishing packages: the publish commands, and the retry sequence that
//! publishes the packages of a multi-package repository one by one.
use vstd::prelude::*;
use vstd::string::*;
use crate::dry_run::{DryRunFlag, DRY_RUN_ARG};
use crate::text::{argv, views};

verus! {

/// The token used when none is configured.
pub const NO_TOKEN: &'static str = "no token";

/// How many simulated publishes are tried for one package before it is
/// published for real anyway.
pub const PUBLISH_ATTEMPTS: u32 = 20;

/// The wait before each simulated publish, in seconds.
pub const RETRY_WAIT_SECS: u64 = 10;

/// The publish token: the configured one, or `NO_TOKEN`.
pub fn token_or_default(token: Option<String>) -> (r: String)
    ensures
        token matches Some(t) ==> r@ == t@,
        token is None ==> r@ == NO_TOKEN@,
{
    match token {
        Some(t) => t,
        None => NO_TOKEN.to_owned(),
    }
}

/// `args`, followed by the simulate argument where `simulate` holds.
pub open spec fn with_simulate(args: Seq<Seq<char>>, simulate: bool) -> Seq<Seq<char>> {
    if simulate {
        args.push(DRY_RUN_ARG@)
    } else {
        args
    }
}

/// The command that publishes the package of the working directory; it only
/// simulates when `flag` is set.
pub fn publish_command(token: &str, flag: &DryRunFlag) -> (r: Vec<String>)
    ensures
        views(r@) == with_simulate(
            seq!["cargo"@, "publish"@, "--token"@, token@],
            flag.is_set(),
        ),
{
    let mut r = argv(&["cargo", "publish", "--token"]);
    r.push(token.to_owned());
    assert(views(r@) =~= seq!["cargo"@, "publish"@, "--token"@, token@]);
    if let Some(a) = flag.get() {
        let ghost before = views(r@);
        r.push(a.to_owned());
        assert(views(r@) =~= before.push(DRY_RUN_ARG@));
    }
    r
}

/// The path of the manifest of the package in directory `dir`.
pub open spec fn manifest_in(dir: Seq<char>) -> Seq<char> {
    dir + "/Cargo.toml"@
}

/// The command that publishes the package in `dir`, or only simulates
/// that where `simulate` holds.
pub fn publish_dir_command(dir: &str, token: &str, simulate: bool) -> (r: Vec<String>)
    ensures
        views(r@) == with_simulate(
            seq!["cargo"@, "publish"@, "--manifest-path"@, manifest_in(dir@), "--token"@, token@],
            simulate,
        ),
{
    let mut r = argv(&["cargo", "publish", "--manifest-path"]);
    r.push(String::from_str(dir).concat("/Cargo.toml"));
    r.push("--token".to_owned());
    r.push(token.to_owned());
    assert(views(r@) =~= seq![
        "cargo"@,
        "publish"@,
        "--manifest-path"@,
        manifest_in(dir@),
        "--token"@,
        token@,
    ]);
    if simulate {
        let ghost before = views(r@);
        r.push(DRY_RUN_ARG.to_owned());
        assert(views(r@) =~= before.push(DRY_RUN_ARG@));
    }
    r
}

/// What the caller of `PublishAll::next` does next.
#[derive(Clone, Copy, Debug, PartialEq, Eq, Structural)]
pub enum PublishAction {
    /// Wait this many seconds.
    Wait { secs: u64 },
    /// Simulate publishing the package in directory number `dir`.
    Try { dir: usize },
    /// Publish the package in directory number `dir` for real.
    Publish { dir: usize },
    /// Stop: every package was published (`ok`), or a real publish failed.
    Finished { ok: bool },
}

/// Where a `PublishAll` stands.
#[derive(Clone, Copy, Debug, PartialEq, Eq, Structural)]
pub enum PublishStage {
    /// About to start on the current directory.
    Ready,
    /// A wait was asked for.
    Waited,
    /// A simulated publish was asked for.
    Tried,
    /// The real publish was asked for.
    Published,
    /// Nothing is left to do.
    Done { ok: bool },
}

/// Publishes the packages of several directories in order. For each one it
/// waits and simulates a publish until a simulation succeeds or
/// `PUBLISH_ATTEMPTS` simulations have failed, and then publishes it for real.
/// A failed real publish ends the run.
pub struct PublishAll {
    /// The number of directories.
    pub dirs: usize,
    /// The directory worked on.
    pub dir: usize,
    /// The simulations asked for in this directory.
    pub attempts: u32,
    /// What was asked for last.
    pub stage: PublishStage,
}

impl PublishAll {
    /// The position fits the directories and the attempt budget.
    pub open spec fn wf(&self) -> bool {
        match self.stage {
            PublishStage::Done { .. } => true,
            PublishStage::Ready => self.dir < self.dirs && self.attempts == 0,
            PublishStage::Waited => self.dir < self.dirs && self.attempts < PUBLISH_ATTEMPTS,
            _ => self.dir < self.dirs && self.attempts <= PUBLISH_ATTEMPTS,
        }
    }
}

/// One step: the next state and action, given the state and whether the
/// last action succeeded (which only matters after a simulated or a real
/// publish).
pub open spec fn publish_step(s: PublishAll, last_ok: bool) -> (PublishAll, PublishAction) {
    match s.stage {
        PublishStage::Ready => (
            PublishAll { stage: PublishStage::Waited, ..s },
            PublishAction::Wait { secs: RETRY_WAIT_SECS },
        ),
        PublishStage::Waited => (
            PublishAll { attempts: (s.attempts + 1) as u32, stage: PublishStage::Tried, ..s },
            PublishAction::Try { dir: s.dir },
        ),
        PublishStage::Tried => if last_ok || s.attempts >= PUBLISH_ATTEMPTS {
            (PublishAll { stage: PublishStage::Published, ..s }, PublishAction::Publish { dir: s.dir })
        } else {
            (
                PublishAll { stage: PublishStage::Waited, ..s },
                PublishAction::Wait { secs: RETRY_WAIT_SECS },
            )
        },
        PublishStage::Published => if !last_ok {
            (
                PublishAll { stage: PublishStage::Done { ok: false }, ..s },
                PublishAction::Finished { ok: false },
            )
        } else if s.dir + 1 == s.dirs {
            (
                PublishAll { stage: PublishStage::Done { ok: true }, ..s },
                PublishAction::Finished { ok: true },
            )
        } else {
            (
                PublishAll {
                    dir: (s.dir + 1) as usize,
                    attempts: 0,
                    stage: PublishStage::Waited,
                    ..s
                },
                PublishAction::Wait { secs: RETRY_WAIT_SECS },
            )
        },
        PublishStage::Done { ok } => (s, PublishAction::Finished { ok }),
    }
}

/// The state and the actions after feeding `events` to `publish_step` one
/// by one, starting from `s`.
pub open spec fn publish_run(s: PublishAll, events: Seq<bool>) -> (PublishAll, Seq<PublishAction>)
    decreases events.len(),
{
    if events.len() == 0 {
        (s, Seq::empty())
    } else {
        let (s1, a) = publish_step(s, events[0]);
        let (s2, rest) = publish_run(s1, events.drop_first());
        (s2, seq![a] + rest)
    }
}

impl PublishAll {
    /// The sequence for `dirs` directories; it has nothing to do when `flag`
    /// is set or there is no directory.
    pub fn new(dirs: usize, flag: &DryRunFlag) -> (r: PublishAll)
        ensures
            r.wf(),
            r.dirs == dirs,
            r.dir == 0,
            r.attempts == 0,
            r.stage == (if flag.is_set() || dirs == 0 {
                PublishStage::Done { ok: true }
            } else {
                PublishStage::Ready
            }),
    {
        let stage = if flag.is_dry_run() || dirs == 0 {
            PublishStage::Done { ok: true }
        } else {
            PublishStage::Ready
        };
        PublishAll { dirs, dir: 0, attempts: 0, stage }
    }

    /// Advances by one step; `last_ok` tells whether the last action succeeded.
    pub fn next(&mut self, last_ok: bool) -> (r: PublishAction)
        requires
            old(self).wf(),
        ensures
            final(self).wf(),
            (*final(self), r) == publish_step(*old(self), last_ok),
    {
        match self.stage {
            PublishStage::Ready => {
                self.stage = PublishStage::Waited;
                PublishAction::Wait { secs: RETRY_WAIT_SECS }
            },
            PublishStage::Waited => {
                self.attempts = self.attempts + 1;
                self.stage = PublishStage::Tried;
                PublishAction::Try { dir: self.dir }
            },
            PublishStage::Tried => {
                if last_ok || self.attempts >= PUBLISH_ATTEMPTS {
                    self.stage = PublishStage::Published;
                    PublishAction::Publish { dir: self.dir }
                } else {
                    self.stage = PublishStage::Waited;
                    PublishAction::Wait { secs: RETRY_WAIT_SECS }
                }
            },
            PublishStage::Published => {
                if !last_ok {
                    self.stage = PublishStage::Done { ok: false };
                    PublishAction::Finished { ok: false }
                } else if self.dir + 1 == self.dirs {
                    self.stage = PublishStage::Done { ok: true };
                    PublishAction::Finished { ok: true }
                } else {
                    self.dir = self.dir + 1;
                    self.attempts = 0;
                    self.stage = PublishStage::Waited;
                    PublishAction::Wait { secs: RETRY_WAIT_SECS }
                }
            },
            PublishStage::Done { ok } => PublishAction::Finished { ok },
        }
    }
}

/// The outcomes reported from a wait on, for a package whose simulated
/// publish fails `k` times and then succeeds: in each pair the first value
/// answers a wait, which it does not matter, and the second a simulation.
pub open spec fn fail_then_succeed(k: nat) -> Seq<bool>
    decreases k,
{
    if k == 0 {
        seq![true, true]
    } else {
        seq![true, false] + fail_then_succeed((k - 1) as nat)
    }
}

/// The actions asked for on those outcomes: `k` simulations each followed by
/// a wait, one more simulation, then the real publish.
pub open spec fn retried_publish(dir: usize, k: nat) -> Seq<PublishAction>
    decreases k,
{
    if k == 0 {
        seq![PublishAction::Try { dir }, PublishAction::Publish { dir }]
    } else {
        seq![PublishAction::Try { dir }, PublishAction::Wait { secs: RETRY_WAIT_SECS }]
            + retried_publish(dir, (k - 1) as nat)
    }
}

proof fn lemma_retry_from_wait(s: PublishAll, k: nat)
    requires
        s.wf(),
        s.stage == PublishStage::Waited,
        s.attempts + k < PUBLISH_ATTEMPTS,
    ensures
        publish_run(s, fail_then_succeed(k)).1 == retried_publish(s.dir, k),
        publish_run(s, fail_then_succeed(k)).0 == (PublishAll {
            attempts: (s.attempts + k + 1) as u32,
            stage: PublishStage::Published,
            ..s
        }),
    decreases k,
{
    let ev = fail_then_succeed(k);
    if k == 0 {
        assert(ev =~= seq![true, true]);
    } else {
        assert(ev =~= seq![true, false] + fail_then_succeed((k - 1) as nat));
    }
    let (s1, a0) = publish_step(s, ev[0]);
    assert(a0 == PublishAction::Try { dir: s.dir });
    let ev1 = ev.drop_first();
    let (s2, a1) = publish_step(s1, ev1[0]);
    let ev2 = ev1.drop_first();
    assert(publish_run(s, ev) == (publish_run(s1, ev1).0, seq![a0] + publish_run(s1, ev1).1));
    assert(publish_run(s1, ev1) == (publish_run(s2, ev2).0, seq![a1] + publish_run(s2, ev2).1));
    if k == 0 {
        assert(ev2 =~= Seq::<bool>::empty());
        assert(a1 == PublishAction::Publish { dir: s.dir });
        assert(publish_run(s2, ev2).1 =~= Seq::<PublishAction>::empty());
        assert(publish_run(s, ev).1 =~= retried_publish(s.dir, k));
    } else {
        assert(ev2 =~= fail_then_succeed((k - 1) as nat));
        assert(a1 == PublishAction::Wait { secs: RETRY_WAIT_SECS });
        lemma_retry_from_wait(s2, (k - 1) as nat);
        assert(publish_run(s, ev).1 =~= retried_publish(s.dir, k));
    }
}

/// A directory whose simulated publish fails `n` times, fewer than the
/// attempt budget, and then succeeds: from the start of that directory the
/// sequence asks for a wait before each of `n + 1` simulations and then for
/// exactly one real publish.
pub proof fn lemma_publish_after_retries(s: PublishAll, n: nat)
    requires
        s.wf(),
        s.stage == PublishStage::Ready,
        n < PUBLISH_ATTEMPTS,
    ensures
        publish_run(s, seq![true] + fail_then_succeed(n)).1 == seq![
            PublishAction::Wait { secs: RETRY_WAIT_SECS },
        ] + retried_publish(s.dir, n),
        publish_run(s, seq![true] + fail_then_succeed(n)).0.stage == PublishStage::Published,
        publish_run(s, seq![true] + fail_then_succeed(n)).0.attempts == n + 1,
{
    let ev = seq![true] + fail_then_succeed(n);
    let (s1, a0) = publish_step(s, ev[0]);
    assert(ev.drop_first() =~= fail_then_succeed(n));
    lemma_retry_from_wait(s1, n);
}

} // verus!
