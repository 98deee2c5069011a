use vstd::prelude::*;

use crate::protocol::{Action, RewriteError};

verus! {

/// How the processing of one file ended.
#[derive(Clone, Copy, Debug, PartialEq, Eq, Structural)]
pub enum FileOutcome {
    /// The file could not be opened or read, or has no BOM: left untouched.
    Skipped,
    /// The BOM was removed.
    Rewritten,
    /// The rewrite failed.
    Failed(RewriteError),
}

/// The outcome of a file whose rewrite ended with `end`.
pub open spec fn outcome_of(end: Action) -> FileOutcome {
    match end {
        Action::Succeed => FileOutcome::Rewritten,
        Action::Fail(e) => FileOutcome::Failed(e),
        Action::Perform(_) => FileOutcome::Skipped,
    }
}

/// Number of files in `s` whose BOM was removed.
pub open spec fn count_rewritten(s: Seq<FileOutcome>) -> nat
    decreases s.len(),
{
    if s.len() == 0 {
        0
    } else {
        count_rewritten(s.drop_last()) + if s.last() is Rewritten {
            1nat
        } else {
            0nat
        }
    }
}

/// The error of the last file in `s` whose rewrite failed, if any did.
pub open spec fn last_failure(s: Seq<FileOutcome>) -> Option<RewriteError>
    decreases s.len(),
{
    if s.len() == 0 {
        None
    } else {
        match s.last() {
            FileOutcome::Failed(e) => Some(e),
            _ => last_failure(s.drop_last()),
        }
    }
}

/// The result of a whole run: success unless some rewrite failed, in which
/// case the error of the last one.
pub open spec fn overall(s: Seq<FileOutcome>) -> Result<(), RewriteError> {
    match last_failure(s) {
        Some(e) => Err(e),
        None => Ok(()),
    }
}

/// What a run over many files comes to.
pub struct Summary {
    /// Number of files whose BOM was removed.
    pub rewritten: usize,
    /// Success unless some rewrite failed; then the last such error.
    pub result: Result<(), RewriteError>,
}

/// The outcome of a file whose rewrite has ended with `end`.
pub fn outcome(end: Action) -> (r: FileOutcome)
    requires
        !(end is Perform),
    ensures
        r == outcome_of(end),
{
    match end {
        Action::Succeed => FileOutcome::Rewritten,
        Action::Fail(e) => FileOutcome::Failed(e),
        Action::Perform(_) => FileOutcome::Skipped,
    }
}

/// Adds up the outcomes of the files of a run, in the order processed.
pub fn summarize(outcomes: &[FileOutcome]) -> (r: Summary)
    ensures
        r.rewritten == count_rewritten(outcomes@),
        r.result == overall(outcomes@),
{
    let mut rewritten: usize = 0;
    let mut result: Result<(), RewriteError> = Ok(());
    let mut i: usize = 0;
    while i < outcomes.len()
        invariant
            i <= outcomes@.len(),
            rewritten <= i,
            rewritten == count_rewritten(outcomes@.subrange(0, i as int)),
            result == overall(outcomes@.subrange(0, i as int)),
        decreases outcomes@.len() - i,
    {
        assert(outcomes@.subrange(0, i + 1).drop_last() =~= outcomes@.subrange(0, i as int));
        match outcomes[i] {
            FileOutcome::Rewritten => {
                rewritten = rewritten + 1;
            },
            FileOutcome::Failed(e) => {
                result = Err(e);
            },
            FileOutcome::Skipped => {},
        }
        i = i + 1;
    }
    assert(outcomes@.subrange(0, i as int) =~= outcomes@);
    Summary { rewritten, result }
}

/// A run fails exactly when the rewrite of at least one of its files failed;
/// files that were skipped or rewritten do not make it fail.
pub proof fn lemma_fails_iff_some_rewrite_failed(s: Seq<FileOutcome>)
    ensures
        overall(s) is Err <==> exists|i: int| 0 <= i < s.len() && #[trigger] s[i] is Failed,
    decreases s.len(),
{
    if s.len() > 0 {
        let t = s.drop_last();
        lemma_fails_iff_some_rewrite_failed(t);
        if overall(t) is Err {
            let i = choose|i: int| 0 <= i < t.len() && #[trigger] t[i] is Failed;
            assert(s[i] is Failed);
        }
        if !(s.last() is Failed) && exists|i: int| 0 <= i < s.len() && #[trigger] s[i] is Failed {
            let i = choose|i: int| 0 <= i < s.len() && #[trigger] s[i] is Failed;
            assert(t[i] is Failed);
        }
    }
}

/// A file that is skipped, because it cannot be opened or has no BOM,
/// changes neither the result of the run nor its count, wherever it stands
/// among the others: the files after it are processed as if it were not
/// there.
pub proof fn lemma_skipped_file_changes_nothing(a: Seq<FileOutcome>, b: Seq<FileOutcome>)
    ensures
        overall(a + seq![FileOutcome::Skipped] + b) == overall(a + b),
        count_rewritten(a + seq![FileOutcome::Skipped] + b) == count_rewritten(a + b),
    decreases b.len(),
{
    let x = a + seq![FileOutcome::Skipped] + b;
    if b.len() == 0 {
        assert(x.drop_last() =~= a);
        assert(a + b =~= a);
    } else {
        lemma_skipped_file_changes_nothing(a, b.drop_last());
        assert(x.drop_last() =~= a + seq![FileOutcome::Skipped] + b.drop_last());
        assert((a + b).drop_last() =~= a + b.drop_last());
        assert(x.last() == (a + b).last());
    }
}

} // verus!
