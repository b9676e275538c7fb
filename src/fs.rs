//! Paths under the staging directory and the rules that the staging
//! directory must meet before a build may use it.
use vstd::prelude::*;
use vstd::string::StringExecFns;

verus! {

/// `name` placed under the directory `base`, with one separator between them.
pub open spec fn joined(base: Seq<char>, name: Seq<char>) -> Seq<char> {
    if base.len() > 0 && base.last() == '/' {
        base + name
    } else {
        base + "/"@ + name
    }
}

/// Places a relative path under a directory.
pub fn join_path(base: &str, name: &str) -> (r: String)
    ensures
        r@ == joined(base@, name@),
{
    let n = base.unicode_len();
    if n > 0 && base.get_char(n - 1) == '/' {
        String::from_str(base).concat(name)
    } else {
        String::from_str(base).concat("/").concat(name)
    }
}

/// What is found at the staging path.
#[derive(Clone, Copy, Debug, PartialEq, Eq, Structural)]
pub enum PathKind {
    /// Nothing exists at the path.
    Missing,
    /// Something that is not a directory exists at the path.
    NotDirectory,
    /// A directory, with or without entries.
    Directory { empty: bool },
}

/// Why the staging directory cannot be used.
pub enum WorkDirError {
    /// The directory could not be created.
    CreateFailed(String),
    /// The directory could not be listed.
    Unreadable(String),
    /// The path is still absent after it was to be created.
    Missing(String),
    /// The path exists and is not a directory.
    NotADirectory(String),
    /// The directory already holds entries; it is never cleared.
    NotEmpty(String),
}

/// Whether the staging directory has to be created first.
pub fn needs_creation(kind: PathKind) -> (r: bool)
    ensures
        r == (kind is Missing),
{
    match kind {
        PathKind::Missing => true,
        _ => false,
    }
}

/// Decides, from what is found at the path once any creation is done, whether
/// the staging directory is usable: only an empty directory is.
pub fn create_work_dir(path: &str, kind: PathKind) -> (r: Result<(), WorkDirError>)
    ensures
        r is Ok <==> kind == (PathKind::Directory { empty: true }),
        kind is Missing ==> (r matches Err(WorkDirError::Missing(p)) && p@ == path@),
        kind is NotDirectory ==> (r matches Err(WorkDirError::NotADirectory(p)) && p@ == path@),
        kind == (PathKind::Directory { empty: false }) ==> (r matches Err(
            WorkDirError::NotEmpty(p),
        ) && p@ == path@),
{
    match kind {
        PathKind::Missing => Err(WorkDirError::Missing(String::from_str(path))),
        PathKind::NotDirectory => Err(WorkDirError::NotADirectory(String::from_str(path))),
        PathKind::Directory { empty } => {
            if empty {
                Ok(())
            } else {
                Err(WorkDirError::NotEmpty(String::from_str(path)))
            }
        },
    }
}

} // verus!
