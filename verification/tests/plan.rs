use raw_migration::plan::{PlanCommand, PlanRun, PlanState};
use raw_migration::suite::migrate_tokens_run;

fn run(start: (PlanRun, PlanCommand), oks: &[bool]) -> (PlanRun, Vec<PlanCommand>) {
    let (mut r, first) = start;
    let mut commands = vec![first];
    for ok in oks {
        let (next, cmd) = r.step(*ok);
        r = next;
        commands.push(cmd);
    }
    (r, commands)
}

#[test]
fn all_succeed_returns_last() {
    let (r, cmds) = run(PlanRun::start(3, 0), &[true, true, true]);
    assert_eq!(r.state, PlanState::Returned);
    assert_eq!(
        cmds,
        vec![PlanCommand::Send(0), PlanCommand::Send(1), PlanCommand::Send(2), PlanCommand::ReturnLast]
    );
}

#[test]
fn unrequired_failure_returns_it_at_once() {
    let (r, cmds) = run(PlanRun::start(3, 0), &[true, false, true]);
    assert_eq!(r.state, PlanState::Returned);
    assert_eq!(
        cmds,
        vec![PlanCommand::Send(0), PlanCommand::Send(1), PlanCommand::ReturnLast, PlanCommand::ReturnLast]
    );
}

#[test]
fn required_failure_aborts() {
    let (r, cmds) = run(PlanRun::start(4, 3), &[true, false, true]);
    assert_eq!(r.state, PlanState::Aborted);
    assert_eq!(cmds, vec![PlanCommand::Send(0), PlanCommand::Send(1), PlanCommand::Abort, PlanCommand::Abort]);
}

#[test]
fn failed_last_request_is_returned() {
    let (r, cmds) = run(PlanRun::start(2, 1), &[true, false]);
    assert_eq!(r.state, PlanState::Returned);
    assert_eq!(cmds.last(), Some(&PlanCommand::ReturnLast));
}

#[test]
fn token_migration_run_has_three_unrequired_requests() {
    let (r, cmd) = migrate_tokens_run();
    assert_eq!(r, PlanRun { state: PlanState::Sending(0), len: 3, required: 0 });
    assert_eq!(cmd, PlanCommand::Send(0));
    let (r, cmds) = run(migrate_tokens_run(), &[false]);
    assert_eq!(r.state, PlanState::Returned);
    assert_eq!(cmds, vec![PlanCommand::Send(0), PlanCommand::ReturnLast]);
}
