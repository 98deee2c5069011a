use bomstrip::{next_action, Action, Rewrite, RewriteError, Step};

/// Drives a rewrite with the given step outcomes; returns the steps asked
/// for and the final action.
fn drive(nobackup: bool, outcomes: &[bool]) -> (Vec<Step>, Action) {
    let mut rewrite = Rewrite::new(nobackup);
    let mut steps = Vec::new();
    for &ok in outcomes {
        match rewrite.action() {
            Action::Perform(step) => {
                steps.push(step);
                rewrite.report(ok);
            }
            _ => break,
        }
    }
    (steps, rewrite.action())
}

#[test]
fn successful_rewrite_keeps_backup() {
    let (steps, end) = drive(false, &[true, true, true, true]);
    assert_eq!(
        steps,
        vec![Step::CreateStaging, Step::CopyContent, Step::RenameToBackup, Step::Promote]
    );
    assert_eq!(end, Action::Succeed);
}

#[test]
fn successful_rewrite_without_backup_removes_it() {
    let (steps, end) = drive(true, &[true, true, true, true, true]);
    assert_eq!(
        steps,
        vec![
            Step::CreateStaging,
            Step::CopyContent,
            Step::RenameToBackup,
            Step::Promote,
            Step::RemoveBackup
        ]
    );
    assert_eq!(end, Action::Succeed);
}

#[test]
fn staging_failure_stops_at_once() {
    let (steps, end) = drive(false, &[false, true]);
    assert_eq!(steps, vec![Step::CreateStaging]);
    assert_eq!(end, Action::Fail(RewriteError::Staging));
}

#[test]
fn copy_failure_stops_before_backup() {
    let (steps, end) = drive(false, &[true, false, true]);
    assert_eq!(steps, vec![Step::CreateStaging, Step::CopyContent]);
    assert_eq!(end, Action::Fail(RewriteError::Copy));
}

#[test]
fn backup_failure_stops_before_promotion() {
    let (steps, end) = drive(true, &[true, true, false, true]);
    assert_eq!(steps, vec![Step::CreateStaging, Step::CopyContent, Step::RenameToBackup]);
    assert_eq!(end, Action::Fail(RewriteError::Backup));
}

#[test]
fn failed_promotion_restores_backup() {
    let (steps, end) = drive(false, &[true, true, true, false, true]);
    assert_eq!(steps[3..], [Step::Promote, Step::RestoreBackup]);
    assert_eq!(end, Action::Fail(RewriteError::Promotion { restored: true }));
}

#[test]
fn failed_promotion_and_failed_restore_are_told_apart() {
    let (steps, end) = drive(true, &[true, true, true, false, false]);
    assert_eq!(steps.len(), 5);
    assert_eq!(end, Action::Fail(RewriteError::Promotion { restored: false }));
}

#[test]
fn failed_backup_removal_is_an_error() {
    let (_, end) = drive(true, &[true, true, true, true, false]);
    assert_eq!(end, Action::Fail(RewriteError::BackupRemoval));
}

#[test]
fn report_after_the_end_changes_nothing() {
    let mut rewrite = Rewrite::new(false);
    rewrite.report(false);
    assert_eq!(rewrite.action(), Action::Fail(RewriteError::Staging));
    rewrite.report(true);
    assert_eq!(rewrite.action(), Action::Fail(RewriteError::Staging));
}

#[test]
fn next_action_table() {
    assert_eq!(next_action(Step::Promote, true, false), Action::Succeed);
    assert_eq!(next_action(Step::Promote, true, true), Action::Perform(Step::RemoveBackup));
    assert_eq!(next_action(Step::Promote, false, true), Action::Perform(Step::RestoreBackup));
    assert_eq!(
        next_action(Step::RestoreBackup, true, true),
        Action::Fail(RewriteError::Promotion { restored: true })
    );
    assert_eq!(next_action(Step::RemoveBackup, true, true), Action::Succeed);
}

#[test]
fn start_refuses_a_backup_path_equal_to_the_target() {
    let rewrite = Rewrite::start("x.bak", "x.bak", true);
    assert_eq!(rewrite.action(), Action::Fail(RewriteError::Backup));
    let rewrite = Rewrite::start("x.txt", "x.bak", false);
    assert_eq!(rewrite.action(), Action::Perform(Step::CreateStaging));
}
