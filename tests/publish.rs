use xaction::dry_run::DryRunFlag;
use xaction::publish::{
    publish_command, publish_dir_command, token_or_default, PublishAction, PublishAll,
    PUBLISH_ATTEMPTS, RETRY_WAIT_SECS,
};

fn strings(v: &[&str]) -> Vec<String> {
    v.iter().map(|s| s.to_string()).collect()
}

/// Drives a sequence: `simulated` answers each simulation in turn (then
/// success), `real` answers each real publish in turn (then success).
fn drive(run: &mut PublishAll, simulated: &[bool], real: &[bool]) -> Vec<PublishAction> {
    let mut actions = Vec::new();
    let mut last_ok = true;
    let (mut si, mut ri) = (0, 0);
    for _ in 0..1000 {
        let a = run.next(last_ok);
        actions.push(a);
        match a {
            PublishAction::Wait { .. } => last_ok = true,
            PublishAction::Try { .. } => {
                last_ok = simulated.get(si).copied().unwrap_or(true);
                si += 1;
            }
            PublishAction::Publish { .. } => {
                last_ok = real.get(ri).copied().unwrap_or(true);
                ri += 1;
            }
            PublishAction::Finished { .. } => return actions,
        }
    }
    panic!("the sequence did not finish");
}

fn count(actions: &[PublishAction], f: impl Fn(&PublishAction) -> bool) -> usize {
    actions.iter().filter(|a| f(a)).count()
}

#[test]
fn token_defaults_to_no_token() {
    assert_eq!(token_or_default(None), "no token");
    assert_eq!(token_or_default(Some("abc".to_string())), "abc");
}

#[test]
fn publish_command_appends_simulate_in_dry_run() {
    let mut flag = DryRunFlag::new();
    assert_eq!(publish_command("no token", &flag), strings(&["cargo", "publish", "--token", "no token"]));
    flag.set(true);
    assert_eq!(
        publish_command("no token", &flag),
        strings(&["cargo", "publish", "--token", "no token", "--dry-run"])
    );
}

#[test]
fn publish_dir_command_names_the_manifest() {
    assert_eq!(
        publish_dir_command("crates/a", "t", true),
        strings(&["cargo", "publish", "--manifest-path", "crates/a/Cargo.toml", "--token", "t", "--dry-run"])
    );
    assert_eq!(
        publish_dir_command("crates/a", "t", false),
        strings(&["cargo", "publish", "--manifest-path", "crates/a/Cargo.toml", "--token", "t"])
    );
}

#[test]
fn publish_after_three_failed_simulations() {
    let mut run = PublishAll::new(1, &DryRunFlag::new());
    let actions = drive(&mut run, &[false, false, false, true], &[]);
    let wait = PublishAction::Wait { secs: RETRY_WAIT_SECS };
    let try0 = PublishAction::Try { dir: 0 };
    let mut expected = Vec::new();
    for _ in 0..4 {
        expected.push(wait);
        expected.push(try0);
    }
    expected.push(PublishAction::Publish { dir: 0 });
    expected.push(PublishAction::Finished { ok: true });
    assert_eq!(actions, expected);
    assert_eq!(RETRY_WAIT_SECS, 10);
}

#[test]
fn publish_anyway_after_the_attempt_budget() {
    let mut run = PublishAll::new(1, &DryRunFlag::new());
    let fails = vec![false; 100];
    let actions = drive(&mut run, &fails, &[]);
    assert_eq!(count(&actions, |a| matches!(a, PublishAction::Try { .. })), PUBLISH_ATTEMPTS as usize);
    assert_eq!(count(&actions, |a| matches!(a, PublishAction::Wait { .. })), 20);
    assert_eq!(count(&actions, |a| matches!(a, PublishAction::Publish { .. })), 1);
    assert_eq!(actions.last(), Some(&PublishAction::Finished { ok: true }));
}

#[test]
fn directories_are_published_in_order() {
    let mut run = PublishAll::new(2, &DryRunFlag::new());
    let actions = drive(&mut run, &[], &[]);
    let wait = PublishAction::Wait { secs: RETRY_WAIT_SECS };
    assert_eq!(
        actions,
        vec![
            wait,
            PublishAction::Try { dir: 0 },
            PublishAction::Publish { dir: 0 },
            wait,
            PublishAction::Try { dir: 1 },
            PublishAction::Publish { dir: 1 },
            PublishAction::Finished { ok: true },
        ]
    );
}

#[test]
fn failed_real_publish_stops_the_run() {
    let mut run = PublishAll::new(3, &DryRunFlag::new());
    let actions = drive(&mut run, &[], &[false]);
    assert_eq!(count(&actions, |a| matches!(a, PublishAction::Publish { .. })), 1);
    assert_eq!(actions.last(), Some(&PublishAction::Finished { ok: false }));
    assert_eq!(run.next(true), PublishAction::Finished { ok: false });
}

#[test]
fn dry_run_publishes_nothing() {
    let mut flag = DryRunFlag::new();
    flag.set(true);
    let mut run = PublishAll::new(2, &flag);
    assert_eq!(run.next(true), PublishAction::Finished { ok: true });
    let mut empty = PublishAll::new(0, &DryRunFlag::new());
    assert_eq!(empty.next(true), PublishAction::Finished { ok: true });
}
