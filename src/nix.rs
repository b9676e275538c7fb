//! The operations that install the Nix package manager and
//! `nixos-generators` into the staged root. Commands of kind `Run` are meant
//! to be run inside the root through `chroot`; paths are on the host.
use crate::fs::{join_path, joined};
use vstd::prelude::*;
use vstd::string::StringExecFns;

verus! {

/// One provisioning operation.
pub enum Operation {
    /// Replace the contents of a file.
    WriteFile { path: String, contents: String },
    /// Append to an existing file.
    AppendFile { path: String, contents: String },
    /// Run a command inside the staged root.
    Run { args: Vec<String> },
    /// Remove an empty directory.
    RemoveDir { path: String },
}

/// An operation with the words that introduce its failure: `open_context`
/// when the file it appends to cannot be opened, `context` otherwise.
pub struct ProvisionStep {
    pub operation: Operation,
    pub context: String,
    pub open_context: String,
}

/// How an operation failed, with what the system reported.
pub enum StepFailure {
    /// The file to append to could not be opened.
    Opening(String),
    /// Any other failure of the operation.
    Failed(String),
}

/// An operation as plain values.
pub ghost enum OperationView {
    WriteFile { path: Seq<char>, contents: Seq<char> },
    AppendFile { path: Seq<char>, contents: Seq<char> },
    Run { args: Seq<Seq<char>> },
    RemoveDir { path: Seq<char> },
}

/// A provisioning step as plain values.
pub ghost struct ProvisionStepView {
    pub operation: OperationView,
    pub context: Seq<char>,
    pub open_context: Seq<char>,
}

impl View for Operation {
    type V = OperationView;

    open spec fn view(&self) -> OperationView {
        match self {
            Operation::WriteFile { path, contents } => OperationView::WriteFile {
                path: path@,
                contents: contents@,
            },
            Operation::AppendFile { path, contents } => OperationView::AppendFile {
                path: path@,
                contents: contents@,
            },
            Operation::Run { args } => OperationView::Run {
                args: args@.map_values(|s: String| s@),
            },
            Operation::RemoveDir { path } => OperationView::RemoveDir { path: path@ },
        }
    }
}

impl View for ProvisionStep {
    type V = ProvisionStepView;

    open spec fn view(&self) -> ProvisionStepView {
        ProvisionStepView {
            operation: self.operation@,
            context: self.context@,
            open_context: self.open_context@,
        }
    }
}

/// Provisioning steps as plain values.
pub open spec fn step_views(v: Seq<ProvisionStep>) -> Seq<ProvisionStepView> {
    v.map_values(|s: ProvisionStep| s@)
}

/// A step that runs a command inside the staged root.
pub open spec fn run_step(args: Seq<Seq<char>>, context: Seq<char>) -> ProvisionStepView {
    ProvisionStepView { operation: OperationView::Run { args }, context, open_context: context }
}

/// What separates a step's context from the reported detail: a command's
/// output starts on a line of its own.
pub open spec fn separator(op: OperationView) -> Seq<char> {
    match op {
        OperationView::Run { .. } => ":\n"@,
        _ => ": "@,
    }
}

/// `text` with `path` quoted between `before` and `after`.
pub open spec fn quoted(before: Seq<char>, path: Seq<char>, after: Seq<char>) -> Seq<char> {
    before + "`"@ + path + "`"@ + after
}

/// Builds `before`, then `path` in backquotes, then `after`.
pub fn quote_path(before: &str, path: &str, after: &str) -> (r: String)
    ensures
        r@ == quoted(before@, path@, after@),
{
    String::from_str(before).concat("`").concat(path).concat("`").concat(after)
}

/// The package repositories of the edge release channel.
pub open spec fn edge_repositories() -> Seq<char> {
    "https://dl-cdn.alpinelinux.org/alpine/edge/main/\nhttps://dl-cdn.alpinelinux.org/alpine/edge/community/\nhttps://dl-cdn.alpinelinux.org/alpine/edge/testing/\n"@
}

/// The installation of Nix into the staged root at `root`.
pub open spec fn install_nix_plan(root: Seq<char>) -> Seq<ProvisionStepView> {
    seq![
        ProvisionStepView {
            operation: OperationView::WriteFile {
                path: joined(root, "etc/apk/repositories"@),
                contents: edge_repositories(),
            },
            context: quoted("Failed to update "@, joined(root, "etc/apk/repositories"@), " file"@),
            open_context: quoted(
                "Failed to update "@,
                joined(root, "etc/apk/repositories"@),
                " file"@,
            ),
        },
        run_step(seq!["apk"@, "update"@], "Failed to update the APK package index"@),
        run_step(
            seq!["apk"@, "add"@, "bash"@, "tar"@, "xz"@, "nix"@],
            "Failed to install the `nix` package"@,
        ),
        ProvisionStepView {
            operation: OperationView::AppendFile {
                path: joined(root, "etc/nix/nix.conf"@),
                contents: "sandbox = false\n\n"@,
            },
            context: quoted(
                "Unable to update Nix configuration file "@,
                joined(root, "etc/nix/nix.conf"@),
                ""@,
            ),
            open_context: quoted(
                "Unable to read Nix configuration file "@,
                joined(root, "etc/nix/nix.conf"@),
                ""@,
            ),
        },
        run_step(
            seq!["nix-channel"@, "--add"@, "https://nixos.org/channels/nixpkgs-unstable"@],
            "Failed to subscribe to nixpkgs channel"@,
        ),
        ProvisionStepView {
            operation: OperationView::RemoveDir {
                path: joined(root, "nix/var/nix/profiles/default"@),
            },
            context: quoted(
                "Failed to remove default profile directory "@,
                joined(root, "nix/var/nix/profiles/default"@),
                ""@,
            ),
            open_context: quoted(
                "Failed to remove default profile directory "@,
                joined(root, "nix/var/nix/profiles/default"@),
                ""@,
            ),
        },
        run_step(seq!["nix-channel"@, "--update"@], "Failed to update Nix channels"@),
    ]
}

/// Owned copies of string slices, in order.
fn strings(parts: &[&str]) -> (r: Vec<String>)
    ensures
        r@.map_values(|s: String| s@) == parts@.map_values(|s: &str| s@),
{
    let mut r: Vec<String> = Vec::new();
    let mut i: usize = 0;
    while i < parts.len()
        invariant
            i <= parts@.len(),
            r@.map_values(|s: String| s@) == parts@.subrange(0, i as int).map_values(|s: &str| s@),
        decreases parts@.len() - i,
    {
        let ghost prev = r@;
        r.push(String::from_str(parts[i]));
        proof {
            assert(r@.map_values(|s: String| s@) =~= prev.map_values(|s: String| s@).push(
                parts@[i as int]@,
            ));
            assert(parts@.subrange(0, i + 1).map_values(|s: &str| s@) =~= parts@.subrange(
                0,
                i as int,
            ).map_values(|s: &str| s@).push(parts@[i as int]@));
        }
        i = i + 1;
    }
    assert(parts@.subrange(0, parts@.len() as int) =~= parts@);
    r
}

/// A step that runs `parts` inside the staged root.
fn run(parts: &[&str], context: &str) -> (r: ProvisionStep)
    ensures
        r@ == run_step(parts@.map_values(|s: &str| s@), context@),
{
    ProvisionStep {
        operation: Operation::Run { args: strings(parts) },
        context: String::from_str(context),
        open_context: String::from_str(context),
    }
}

/// The steps that install Nix into the staged root at `chroot`: point APK at
/// the edge repositories, install the `nix` package, turn the Nix sandbox
/// off, subscribe to the unstable channel, drop the default profile and
/// update the channels. They are to be run in order, stopping at the first
/// failure.
pub fn install_nix(chroot: &str) -> (r: Vec<ProvisionStep>)
    ensures
        step_views(r@) == install_nix_plan(chroot@),
{
    let mut r: Vec<ProvisionStep> = Vec::new();
    let repositories = join_path(chroot, "etc/apk/repositories");
    r.push(ProvisionStep {
        context: quote_path("Failed to update ", repositories.as_str(), " file"),
        open_context: quote_path("Failed to update ", repositories.as_str(), " file"),
        operation: Operation::WriteFile {
            path: repositories,
            contents: String::from_str("https://dl-cdn.alpinelinux.org/alpine/edge/main/\nhttps://dl-cdn.alpinelinux.org/alpine/edge/community/\nhttps://dl-cdn.alpinelinux.org/alpine/edge/testing/\n"),
        },
    });
    let apk_update: [&str; 2] = ["apk", "update"];
    assert(apk_update@.map_values(|s: &str| s@) =~= seq!["apk"@, "update"@]);
    r.push(run(&apk_update, "Failed to update the APK package index"));
    let apk_add: [&str; 6] = ["apk", "add", "bash", "tar", "xz", "nix"];
    assert(apk_add@.map_values(|s: &str| s@) =~= seq!["apk"@, "add"@, "bash"@, "tar"@, "xz"@, "nix"@]);
    r.push(run(&apk_add, "Failed to install the `nix` package"));
    let nix_conf = join_path(chroot, "etc/nix/nix.conf");
    r.push(ProvisionStep {
        context: quote_path("Unable to update Nix configuration file ", nix_conf.as_str(), ""),
        open_context: quote_path("Unable to read Nix configuration file ", nix_conf.as_str(), ""),
        operation: Operation::AppendFile {
            path: nix_conf,
            contents: String::from_str("sandbox = false\n\n"),
        },
    });
    let channel_add: [&str; 3] = ["nix-channel", "--add", "https://nixos.org/channels/nixpkgs-unstable"];
    assert(channel_add@.map_values(|s: &str| s@) =~= seq!["nix-channel"@, "--add"@, "https://nixos.org/channels/nixpkgs-unstable"@]);
    r.push(run(&channel_add, "Failed to subscribe to nixpkgs channel"));
    let profile = join_path(chroot, "nix/var/nix/profiles/default");
    r.push(ProvisionStep {
        context: quote_path("Failed to remove default profile directory ", profile.as_str(), ""),
        open_context: quote_path("Failed to remove default profile directory ", profile.as_str(), ""),
        operation: Operation::RemoveDir { path: profile },
    });
    let channel_update: [&str; 2] = ["nix-channel", "--update"];
    assert(channel_update@.map_values(|s: &str| s@) =~= seq!["nix-channel"@, "--update"@]);
    r.push(run(&channel_update, "Failed to update Nix channels"));
    assert(step_views(r@) =~= install_nix_plan(chroot@));
    r
}

/// The step that installs `nixos-generators` with `nix-env`.
pub fn install_nixos_generators(chroot: &str) -> (r: Vec<ProvisionStep>)
    ensures
        step_views(r@) == seq![
            run_step(
                seq!["nix-env"@, "-iA"@, "nixpkgs.nixos-generators"@],
                "Failed to install `nixos-generators`"@,
            ),
        ],
{
    let mut r: Vec<ProvisionStep> = Vec::new();
    let env_install: [&str; 3] = ["nix-env", "-iA", "nixpkgs.nixos-generators"];
    assert(env_install@.map_values(|s: &str| s@) =~= seq!["nix-env"@, "-iA"@, "nixpkgs.nixos-generators"@]);
    r.push(run(&env_install, "Failed to install `nixos-generators`"));
    assert(step_views(r@) =~= seq![
        run_step(
            seq!["nix-env"@, "-iA"@, "nixpkgs.nixos-generators"@],
            "Failed to install `nixos-generators`"@,
        ),
    ]);
    r
}

/// The step that generates an LXC image with the configuration `/lxc.nix`.
pub fn generate_lxc_image(chroot: &str) -> (r: Vec<ProvisionStep>)
    ensures
        step_views(r@) == seq![
            run_step(
                seq!["nixos-generate"@, "-f"@, "lxc"@, "-c"@, "/lxc.nix"@],
                "Failed to generate the LXC image"@,
            ),
        ],
{
    let mut r: Vec<ProvisionStep> = Vec::new();
    let parts: [&str; 5] = ["nixos-generate", "-f", "lxc", "-c", "/lxc.nix"];
    assert(parts@.map_values(|s: &str| s@) =~= seq!["nixos-generate"@, "-f"@, "lxc"@, "-c"@, "/lxc.nix"@]);
    r.push(run(&parts, "Failed to generate the LXC image"));
    assert(step_views(r@) =~= seq![
        run_step(
            seq!["nixos-generate"@, "-f"@, "lxc"@, "-c"@, "/lxc.nix"@],
            "Failed to generate the LXC image"@,
        ),
    ]);
    r
}

/// A provisioning failure, as one report.
pub struct Error {
    pub error: String,
}

impl Error {
    /// An error with this report.
    pub fn new(error: &str) -> (r: Error)
        ensures
            r.error@ == error@,
    {
        Error { error: String::from_str(error) }
    }
}

/// The report of a step's failure: the context that fits how it failed, the
/// separator of its kind of operation, and the detail.
pub open spec fn failure_report(step: ProvisionStepView, opening: bool, detail: Seq<char>) -> Seq<
    char,
> {
    (if opening {
        step.open_context
    } else {
        step.context
    }) + separator(step.operation) + detail
}

/// The report of a step's failure.
pub fn step_error(step: &ProvisionStep, failure: StepFailure) -> (r: Error)
    ensures
        failure matches StepFailure::Opening(d) ==> r.error@ == failure_report(step@, true, d@),
        failure matches StepFailure::Failed(d) ==> r.error@ == failure_report(step@, false, d@),
{
    let sep = match &step.operation {
        Operation::Run { .. } => ":\n",
        _ => ": ",
    };
    match failure {
        StepFailure::Opening(d) => Error {
            error: step.open_context.clone().concat(sep).concat(d.as_str()),
        },
        StepFailure::Failed(d) => Error { error: step.context.clone().concat(sep).concat(d.as_str()) },
    }
}

/// A run of provisioning steps, performed by the caller one at a time in
/// order. The first failure ends the run: no later step is handed out.
pub struct ProvisionRun {
    steps: Vec<ProvisionStep>,
    done: usize,
    failed: bool,
}

impl ProvisionRun {
    /// The steps of the run.
    pub closed spec fn plan(&self) -> Seq<ProvisionStepView> {
        step_views(self.steps@)
    }

    /// How many steps have succeeded.
    pub closed spec fn performed(&self) -> nat {
        self.done as nat
    }

    /// Whether a step has failed.
    pub closed spec fn failed(&self) -> bool {
        self.failed
    }

    pub closed spec fn wf(&self) -> bool {
        self.done <= self.steps@.len()
    }

    /// A run of `steps` in which nothing is performed yet.
    pub fn new(steps: Vec<ProvisionStep>) -> (r: ProvisionRun)
        ensures
            r.wf(),
            r.plan() == step_views(steps@),
            r.performed() == 0,
            !r.failed(),
    {
        ProvisionRun { steps, done: 0, failed: false }
    }

    /// The index of the step to perform next: none once every step has
    /// succeeded or one has failed.
    pub fn next_step(&self) -> (r: Option<usize>)
        requires
            self.wf(),
        ensures
            r is Some <==> !self.failed() && self.performed() < self.plan().len(),
            r is Some ==> r->Some_0 == self.performed(),
    {
        if !self.failed && self.done < self.steps.len() {
            Some(self.done)
        } else {
            None
        }
    }

    /// The step at index `i`.
    pub fn step(&self, i: usize) -> (r: &ProvisionStep)
        requires
            i < self.plan().len(),
        ensures
            r@ == self.plan()[i as int],
    {
        &self.steps[i]
    }

    /// Whether every step has been performed with success.
    pub fn succeeded(&self) -> (r: bool)
        ensures
            r == (!self.failed() && self.performed() == self.plan().len()),
    {
        !self.failed && self.done == self.steps.len()
    }

    /// Records the outcome of the step that `next_step` named: on failure,
    /// the error is that step's context followed by the detail, and the run
    /// ends there.
    pub fn record(&mut self, outcome: Result<(), StepFailure>) -> (r: Result<(), Error>)
        requires
            old(self).wf(),
            !old(self).failed(),
            old(self).performed() < old(self).plan().len(),
        ensures
            final(self).wf(),
            final(self).plan() == old(self).plan(),
            outcome is Ok ==> r is Ok && !final(self).failed() && final(self).performed()
                == old(self).performed() + 1,
            outcome matches Err(StepFailure::Opening(d)) ==> (r matches Err(e) && e.error@
                == failure_report(old(self).plan()[old(self).performed() as int], true, d@)),
            outcome matches Err(StepFailure::Failed(d)) ==> (r matches Err(e) && e.error@
                == failure_report(old(self).plan()[old(self).performed() as int], false, d@)),
            outcome is Err ==> final(self).failed() && final(self).performed()
                == old(self).performed(),
    {
        assert(self.steps@.len() == self.plan().len());
        let i = self.done;
        let n = self.steps.len();
        assert(i < n);
        match outcome {
            Ok(()) => {
                self.done = i + 1;
                Ok(())
            },
            Err(d) => {
                self.failed = true;
                Err(step_error(&self.steps[i], d))
            },
        }
    }
}

} // verus!
