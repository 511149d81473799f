use xaction::dry_run::{decide_dry_run, release_tag, DryRunFlag};
use xaction::manifest::CargoToml;
use xaction::pipeline::{end_marker, start_marker, Phase, Pipeline, PipelineAction};
use xaction::publish::token_or_default;

fn strings(v: &[&str]) -> Vec<String> {
    v.iter().map(|s| s.to_string()).collect()
}

/// Drives a pipeline; `fail` names the command (phase number, index) that
/// fails. Returns the actions and the commands that were run.
fn drive(p: &mut Pipeline, fail: Option<(usize, usize)>) -> (Vec<PipelineAction>, Vec<Vec<String>>) {
    let mut actions = Vec::new();
    let mut run = Vec::new();
    let mut last_ok = true;
    for _ in 0..100 {
        let a = p.next(last_ok);
        actions.push(a);
        match a {
            PipelineAction::Run { at, index } => {
                run.push(p.command(at, index).clone());
                last_ok = fail != Some((at, index));
            }
            PipelineAction::Exit { .. } => return (actions, run),
            _ => last_ok = true,
        }
    }
    panic!("the pipeline did not exit");
}

#[test]
fn markers_and_names() {
    assert_eq!(start_marker(Phase::Build.name()), "::group::BUILD");
    assert_eq!(start_marker(Phase::Publish.name()), "::group::PUBLISH");
    assert_eq!(Phase::Test.name(), "TEST");
    assert_eq!(end_marker(), "::endgroup::");
}

#[test]
fn failing_phase_still_ends() {
    let mut p = Pipeline::release("v1.0.0", "tok", &DryRunFlag::new());
    let (actions, run) = drive(&mut p, Some((1, 0)));
    assert_eq!(
        actions,
        vec![
            PipelineAction::Begin { phase: Phase::Build },
            PipelineAction::Run { at: 0, index: 0 },
            PipelineAction::End { phase: Phase::Build },
            PipelineAction::Begin { phase: Phase::Test },
            PipelineAction::Run { at: 1, index: 0 },
            PipelineAction::End { phase: Phase::Test },
            PipelineAction::Exit { code: 1 },
        ]
    );
    assert_eq!(run.len(), 2);
}

#[test]
fn full_release_runs_tag_and_push() {
    let mut p = Pipeline::release("v1.0.0", "tok", &DryRunFlag::new());
    let (actions, run) = drive(&mut p, None);
    assert_eq!(actions.last(), Some(&PipelineAction::Exit { code: 0 }));
    let compile = strings(&["cargo", "test", "--workspace", "--no-run"]);
    assert_eq!(
        run,
        vec![
            compile.clone(),
            compile,
            strings(&["cargo", "publish", "--token", "tok"]),
            strings(&["git", "tag", "v1.0.0"]),
            strings(&["git", "push", "--tags"]),
        ]
    );
    let begins = actions.iter().filter(|a| matches!(a, PipelineAction::Begin { .. })).count();
    let ends = actions.iter().filter(|a| matches!(a, PipelineAction::End { .. })).count();
    assert_eq!((begins, ends), (3, 3));
}

#[test]
fn failed_publish_ends_publish_phase() {
    let mut p = Pipeline::release("v1.0.0", "tok", &DryRunFlag::new());
    let (actions, run) = drive(&mut p, Some((2, 0)));
    let n = actions.len();
    assert_eq!(actions[n - 2], PipelineAction::End { phase: Phase::Publish });
    assert_eq!(actions[n - 1], PipelineAction::Exit { code: 1 });
    assert_eq!(run.len(), 3);
}

#[test]
fn end_to_end_outside_ci_is_a_dry_run() {
    let manifest = CargoToml::new("/w/Cargo.toml".to_string(), "[package]\nversion = \"1.2.3\"\n".to_string());
    let version = manifest.version().ok().unwrap();
    let tag = release_tag(&version);
    assert_eq!(tag, "v1.2.3");
    let dry = decide_dry_run(false, &Vec::new(), &tag, "master");
    assert!(dry);
    let mut flag = DryRunFlag::new();
    flag.set(dry);
    let token = token_or_default(None);
    let mut p = Pipeline::release(&tag, &token, &flag);
    let (actions, run) = drive(&mut p, None);
    assert_eq!(actions.last(), Some(&PipelineAction::Exit { code: 0 }));
    assert_eq!(run.len(), 3);
    assert_eq!(run[2], strings(&["cargo", "publish", "--token", "no token", "--dry-run"]));
}
