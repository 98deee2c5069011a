use vstd::prelude::*;

verus! {

/// The extension that the backup file gets in place of the target's own.
pub const BACKUP_EXTENSION: &'static str = "bak";

/// What `std::path::Path::with_extension` makes of a path and an extension.
pub uninterp spec fn with_extension_of(path: Seq<char>, ext: Seq<char>) -> Seq<char>;

/// What `std::path::Path::parent` gives for a path.
pub uninterp spec fn parent_of(path: Seq<char>) -> Option<Seq<char>>;

/// Relies on `std::path::Path::with_extension`: the path with its extension
/// replaced (or added where it has none); the result depends on the two
/// arguments alone. It panics on an extension that holds a path separator.
#[verifier::external_body]
fn with_extension(path: &str, ext: &str) -> (r: String)
    requires
        forall|i: int| 0 <= i < ext@.len() ==> ext@[i] != '/',
    ensures
        r@ == with_extension_of(path@, ext@),
{
    std::path::Path::new(path).with_extension(ext).to_string_lossy().into_owned()
}

/// Relies on `std::path::Path::parent`: the path without its final
/// component, or nothing where the path is a root or empty; the result
/// depends on the path alone.
#[verifier::external_body]
fn parent(path: &str) -> (r: Option<String>)
    ensures
        match r {
            Some(p) => parent_of(path@) == Some(p@),
            None => parent_of(path@) is None,
        },
{
    match std::path::Path::new(path).parent() {
        Some(p) => Some(p.to_string_lossy().into_owned()),
        None => None,
    }
}

/// The path that the target is renamed to while its rewrite is under way:
/// the target's path with its extension replaced by the backup extension.
pub fn backup_path(path: &str) -> (r: String)
    ensures
        r@ == with_extension_of(path@, BACKUP_EXTENSION@),
{
    proof {
        reveal_strlit("bak");
    }
    with_extension(path, BACKUP_EXTENSION)
}

/// Tells whether `backup` is another path than `path`. Where the target's
/// extension already is the backup extension the two coincide, and the
/// target cannot be moved aside before the new content takes its place.
pub fn backup_differs(path: &str, backup: &str) -> (r: bool)
    ensures
        r == (path@ != backup@),
{
    let n = path.unicode_len();
    if n != backup.unicode_len() {
        return true;
    }
    let mut i: usize = 0;
    while i < n
        invariant
            n == path@.len(),
            n == backup@.len(),
            i <= n,
            forall|j: int| 0 <= j < i ==> path@[j] == backup@[j],
        decreases n - i,
    {
        if path.get_char(i) != backup.get_char(i) {
            return true;
        }
        i = i + 1;
    }
    assert(path@ =~= backup@);
    false
}

/// The directory that the staging file is created in: the target's own, so
/// that the promotion is a rename within one filesystem, or the current
/// directory where the path has no parent.
pub fn staging_dir(path: &str) -> (r: String)
    ensures
        r@ == match parent_of(path@) {
            Some(p) => p,
            None => "."@,
        },
{
    match parent(path) {
        Some(p) => p,
        None => String::from_str("."),
    }
}

} // verus!
