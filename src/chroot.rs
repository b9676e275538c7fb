//! Commands run inside the staged root through `chroot`, with a clean
//! environment except for a fixed temporary directory.
use vstd::prelude::*;
use vstd::string::StringExecFns;

verus! {

/// Strings as character sequences.
pub open spec fn string_views(v: Seq<String>) -> Seq<Seq<char>> {
    v.map_values(|s: String| s@)
}

/// The arguments handed to `chroot` to run `args` inside `root`.
pub open spec fn chroot_argv(root: Seq<char>, args: Seq<Seq<char>>) -> Seq<Seq<char>> {
    seq![root, "/usr/bin/env"@, "TMPDIR=/tmp"@] + args
}

/// Builds the argument vector of `chroot` for a command inside `root`.
pub fn chroot_args(root: &str, args: &Vec<String>) -> (r: Vec<String>)
    ensures
        string_views(r@) == chroot_argv(root@, string_views(args@)),
{
    let mut r: Vec<String> = Vec::new();
    r.push(String::from_str(root));
    r.push(String::from_str("/usr/bin/env"));
    r.push(String::from_str("TMPDIR=/tmp"));
    let mut i: usize = 0;
    while i < args.len()
        invariant
            i <= args@.len(),
            string_views(r@) == seq![root@, "/usr/bin/env"@, "TMPDIR=/tmp"@] + string_views(
                args@.subrange(0, i as int),
            ),
        decreases args@.len() - i,
    {
        assert(args@.subrange(0, i + 1) =~= args@.subrange(0, i as int).push(args@[i as int]));
        let ghost prev = r@;
        let a = args[i].clone();
        assert(a@ == args@[i as int]@);
        r.push(a);
        proof {
            assert(string_views(r@) =~= string_views(prev).push(args@[i as int]@));
            assert(string_views(args@.subrange(0, i + 1)) =~= string_views(args@.subrange(0, i as int)).push(args@[i as int]@));
            assert(string_views(r@) =~= seq![root@, "/usr/bin/env"@, "TMPDIR=/tmp"@] + string_views(
                args@.subrange(0, i + 1),
            ));
        }
        i = i + 1;
    }
    assert(args@.subrange(0, args@.len() as int) =~= args@);
    r
}

/// What a command that succeeded printed.
pub struct CommandOutput {
    pub stdout: String,
    pub stderr: String,
}

/// A command that exited unsuccessfully: its exit code (none when a signal
/// ended it) and everything it printed.
pub struct CommandError {
    pub status: Option<i32>,
    pub stdout: String,
    pub stderr: String,
}

/// Classifies a finished command: only exit code zero is success. The
/// captured output is carried over verbatim either way.
pub fn command_result(status: Option<i32>, stdout: String, stderr: String) -> (r: Result<
    CommandOutput,
    CommandError,
>)
    ensures
        r is Ok <==> status == Some(0i32),
        r matches Ok(o) ==> o.stdout == stdout && o.stderr == stderr,
        r matches Err(e) ==> e.status == status && e.stdout == stdout && e.stderr == stderr,
{
    match status {
        Some(0i32) => Ok(CommandOutput { stdout, stderr }),
        _ => Err(CommandError { status, stdout, stderr }),
    }
}

} // verus!
