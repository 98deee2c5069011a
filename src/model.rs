use vstd::prelude::*;

use crate::bom::starts_with_bom;
use crate::protocol::{transition, Action, RewriteError, Step};

verus! {

/// A file as the rewrite sees it: its bytes and its permission bits.
pub struct FileModel {
    pub bytes: Seq<u8>,
    pub perms: u32,
}

/// The three paths that a rewrite touches: the target, its backup and the
/// staging file. `None` means that nothing is there. The three paths are
/// distinct: the staging file has a fresh name, and a rewrite whose backup
/// path equals the target path never starts (`Rewrite::start`), so the
/// laws below speak of targets whose backup path differs from them.
pub struct Disk {
    pub target: Option<FileModel>,
    pub backup: Option<FileModel>,
    pub staging: Option<FileModel>,
}

/// The disk before a rewrite of `source`: the target holds it, and neither a
/// backup nor a staging file exists.
pub open spec fn before_rewrite(source: FileModel) -> Disk {
    Disk { target: Some(source), backup: None, staging: None }
}

/// The target's content once its three leading BOM bytes are gone, with its
/// permission bits.
pub open spec fn stripped(source: FileModel) -> FileModel {
    FileModel { bytes: source.bytes.skip(3), perms: source.perms }
}

/// What a step that succeeded does to the disk. `source` is the target as it
/// was opened; the open handle stands just past its BOM.
pub open spec fn apply(d: Disk, source: FileModel, step: Step) -> Disk {
    match step {
        Step::CreateStaging => Disk {
            staging: Some(FileModel { bytes: Seq::empty(), perms: source.perms }),
            ..d
        },
        Step::CopyContent => match d.staging {
            Some(f) => Disk {
                staging: Some(FileModel { bytes: f.bytes + source.bytes.skip(3), perms: f.perms }),
                ..d
            },
            None => d,
        },
        Step::RenameToBackup => Disk { target: None, backup: d.target, ..d },
        Step::Promote => Disk { target: d.staging, staging: None, ..d },
        Step::RestoreBackup => Disk { target: d.backup, backup: None, ..d },
        Step::RemoveBackup => Disk { backup: None, ..d },
    }
}

/// Drives the protocol from `step` on `d`, with the outcome of each step in
/// turn taken from `outcomes`; a step that fails leaves the disk unchanged.
/// Returns the disk at the end and the final action, or `None` where the
/// outcomes ran out first. When the rewrite is over the staging file, if
/// still there, is discarded.
pub open spec fn run(d: Disk, source: FileModel, step: Step, nobackup: bool, outcomes: Seq<bool>) -> (Disk, Option<Action>)
    decreases outcomes.len(),
{
    if outcomes.len() == 0 {
        (d, None)
    } else {
        let ok = outcomes[0];
        let d2 = if ok { apply(d, source, step) } else { d };
        match transition(step, ok, nobackup) {
            Action::Perform(next) => run(d2, source, next, nobackup, outcomes.drop_first()),
            done => (Disk { staging: None, ..d2 }, Some(done)),
        }
    }
}

/// A whole rewrite of `source`, from the first step.
pub open spec fn rewrite_run(source: FileModel, nobackup: bool, outcomes: Seq<bool>) -> (Disk, Option<Action>) {
    run(before_rewrite(source), source, Step::CreateStaging, nobackup, outcomes)
}

/// The disk just before `step` is performed.
spec fn before_step(d: Disk, source: FileModel, step: Step, nobackup: bool) -> bool {
    let empty_staging = Some(FileModel { bytes: Seq::empty(), perms: source.perms });
    let full_staging = Some(stripped(source));
    match step {
        Step::CreateStaging => d == before_rewrite(source),
        Step::CopyContent => d == Disk { target: Some(source), backup: None, staging: empty_staging },
        Step::RenameToBackup => d == Disk { target: Some(source), backup: None, staging: full_staging },
        Step::Promote | Step::RestoreBackup => d == Disk {
            target: None,
            backup: Some(source),
            staging: full_staging,
        },
        Step::RemoveBackup => nobackup && d == Disk {
            target: Some(stripped(source)),
            backup: Some(source),
            staging: None,
        },
    }
}

/// The disk once the rewrite has ended with `a`.
spec fn after_run(d: Disk, source: FileModel, a: Action, nobackup: bool) -> bool {
    &&& d.staging is None
    &&& match a {
        Action::Succeed => d.target == Some(stripped(source)) && d.backup == (if nobackup {
            None
        } else {
            Some(source)
        }),
        Action::Fail(RewriteError::Promotion { restored: false }) => d.target is None && d.backup
            == Some(source),
        Action::Fail(RewriteError::BackupRemoval) => d.target == Some(stripped(source))
            && d.backup == Some(source),
        Action::Fail(_) => d.target == Some(source) && d.backup is None,
        Action::Perform(_) => false,
    }
}

proof fn lemma_run_ends_well(d: Disk, source: FileModel, step: Step, nobackup: bool, outcomes: Seq<bool>)
    requires
        before_step(d, source, step, nobackup),
    ensures
        ({
            let (d2, a) = run(d, source, step, nobackup, outcomes);
            a matches Some(act) ==> after_run(d2, source, act, nobackup)
        }),
    decreases outcomes.len(),
{
    if outcomes.len() > 0 {
        let ok = outcomes[0];
        let d2 = if ok { apply(d, source, step) } else { d };
        assert(source.bytes.skip(3) =~= Seq::<u8>::empty() + source.bytes.skip(3));
        match transition(step, ok, nobackup) {
            Action::Perform(next) => {
                lemma_run_ends_well(d2, source, next, nobackup, outcomes.drop_first());
            },
            _ => {},
        }
    }
}

/// For a target whose backup path differs from it, a rewrite that succeeds
/// leaves at the target path exactly the bytes that
/// followed the BOM, with the target's permission bits, and no staging file.
pub proof fn lemma_round_trip(source: FileModel, nobackup: bool, outcomes: Seq<bool>)
    requires
        starts_with_bom(source.bytes),
    ensures
        rewrite_run(source, nobackup, outcomes).1 == Some(Action::Succeed) ==> {
            let d = rewrite_run(source, nobackup, outcomes).0;
            &&& d.target == Some(FileModel { bytes: source.bytes.skip(3), perms: source.perms })
            &&& d.staging is None
        },
{
    lemma_run_ends_well(before_rewrite(source), source, Step::CreateStaging, nobackup, outcomes);
}

/// Once a rewrite has succeeded, the target starts with a BOM again only
/// where the bytes after the removed BOM did; otherwise a second pass finds
/// no BOM and leaves the file alone.
pub proof fn lemma_second_pass_finds_no_bom(source: FileModel, nobackup: bool, outcomes: Seq<bool>)
    requires
        starts_with_bom(source.bytes),
        !starts_with_bom(source.bytes.skip(3)),
    ensures
        rewrite_run(source, nobackup, outcomes).1 == Some(Action::Succeed) ==> {
            let d = rewrite_run(source, nobackup, outcomes).0;
            d.target matches Some(f) && !starts_with_bom(f.bytes)
        },
{
    lemma_run_ends_well(before_rewrite(source), source, Step::CreateStaging, nobackup, outcomes);
}

/// For a target whose backup path differs from it, a rewrite that keeps its
/// backup and succeeds leaves the original content,
/// BOM included, at the backup path.
pub proof fn lemma_backup_kept(source: FileModel, outcomes: Seq<bool>)
    requires
        starts_with_bom(source.bytes),
    ensures
        rewrite_run(source, false, outcomes).1 == Some(Action::Succeed) ==> rewrite_run(
            source,
            false,
            outcomes,
        ).0.backup == Some(source),
{
    lemma_run_ends_well(before_rewrite(source), source, Step::CreateStaging, false, outcomes);
}

/// For a target whose backup path differs from it, a rewrite without backup
/// that succeeds leaves no backup file.
pub proof fn lemma_no_backup_left(source: FileModel, outcomes: Seq<bool>)
    requires
        starts_with_bom(source.bytes),
    ensures
        rewrite_run(source, true, outcomes).1 == Some(Action::Succeed) ==> rewrite_run(
            source,
            true,
            outcomes,
        ).0.backup is None,
{
    lemma_run_ends_well(before_rewrite(source), source, Step::CreateStaging, true, outcomes);
}

/// When the promotion fails after the backup was made, the rewrite fails
/// with a promotion error that tells whether the backup was restored; when
/// it was, the target path holds the original content again, BOM included.
pub proof fn lemma_failed_promotion_restores(source: FileModel, nobackup: bool, restored: bool)
    requires
        starts_with_bom(source.bytes),
    ensures
        ({
            let (d, a) = rewrite_run(source, nobackup, seq![true, true, true, false, restored]);
            &&& a == Some(Action::Fail(RewriteError::Promotion { restored }))
            &&& restored ==> d.target == Some(source)
            &&& d.staging is None
        }),
{
    let outcomes = seq![true, true, true, false, restored];
    lemma_run_ends_well(before_rewrite(source), source, Step::CreateStaging, nobackup, outcomes);
    reveal_with_fuel(run, 6);
    assert(outcomes.drop_first() =~= seq![true, true, false, restored]);
    assert(outcomes.drop_first().drop_first() =~= seq![true, false, restored]);
    assert(outcomes.drop_first().drop_first().drop_first() =~= seq![false, restored]);
    assert(outcomes.drop_first().drop_first().drop_first().drop_first() =~= seq![restored]);
}

/// Whatever the outcomes of the steps, a rewrite never leaves a partial
/// file at the target path: once it is over the staging file is gone and
/// the target holds either the original or the stripped content. The one
/// exception is a failed promotion whose restore failed too; the original
/// content is then intact at the backup path.
pub proof fn lemma_target_never_partial(source: FileModel, nobackup: bool, outcomes: Seq<bool>)
    requires
        starts_with_bom(source.bytes),
    ensures
        ({
            let (d, a) = rewrite_run(source, nobackup, outcomes);
            a matches Some(act) ==> {
                &&& d.staging is None
                &&& (d.target == Some(source) || d.target == Some(stripped(source)) || (act
                    == Action::Fail(RewriteError::Promotion { restored: false }) && d.target is None
                    && d.backup == Some(source)))
            }
        }),
{
    lemma_run_ends_well(before_rewrite(source), source, Step::CreateStaging, nobackup, outcomes);
}

} // verus!
