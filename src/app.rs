//! The build run: the host gate, and the fixed sequence of steps with its
//! failure policy. The caller performs each step and reports its outcome.
use crate::arch::{arch_from, Arch};
use crate::fs::{join_path, joined};
use crate::nix::{quote_path, quoted, Operation, OperationView, ProvisionStep, ProvisionStepView};
use vstd::prelude::*;
use vstd::string::StringExecFns;

verus! {

/// The steps of a build run, in the order in which they are performed.
#[derive(Clone, Copy, Debug, PartialEq, Eq, Structural)]
pub enum Step {
    /// Create and validate the empty staging directory.
    PrepareDir,
    /// Fetch the manifest, select the release, fetch the tarball and verify
    /// its size and digest.
    Download,
    /// Unpack the verified tarball into the staging directory.
    Extract,
    /// Write the DNS configuration of the staged root.
    FixResolvConf,
    /// Bind the kernel filesystems into the staged root.
    MountKernelFs,
    /// Install the Nix package manager.
    InstallPackageManager,
    /// Install `nixos-generators`.
    InstallGenerator,
}

/// The step that follows a step, if any.
pub open spec fn step_after(s: Step) -> Option<Step> {
    match s {
        Step::PrepareDir => Some(Step::Download),
        Step::Download => Some(Step::Extract),
        Step::Extract => Some(Step::FixResolvConf),
        Step::FixResolvConf => Some(Step::MountKernelFs),
        Step::MountKernelFs => Some(Step::InstallPackageManager),
        Step::InstallPackageManager => Some(Step::InstallGenerator),
        Step::InstallGenerator => None,
    }
}

/// Whether a failure of the step ends the run. DNS configuration is a
/// convenience, so its failure is only a warning.
pub open spec fn is_fatal(s: Step) -> bool {
    !(s is FixResolvConf)
}

/// What the caller does next.
#[derive(Clone, Copy, Debug, PartialEq, Eq, Structural)]
pub enum Directive {
    /// Perform this step.
    Run(Step),
    /// Release every mount that is held, in reverse order, and end the run.
    Finish { success: bool },
}

/// The name of a step, as reports give it.
pub open spec fn step_name(s: Step) -> Seq<char> {
    match s {
        Step::PrepareDir => "PrepareDir"@,
        Step::Download => "Download"@,
        Step::Extract => "Extract"@,
        Step::FixResolvConf => "FixResolvConf"@,
        Step::MountKernelFs => "MountKernelFs"@,
        Step::InstallPackageManager => "InstallPackageManager"@,
        Step::InstallGenerator => "InstallGenerator"@,
    }
}

impl Step {
    /// The name of the step.
    pub fn name(&self) -> (r: &'static str)
        ensures
            r@ == step_name(*self),
    {
        match self {
            Step::PrepareDir => "PrepareDir",
            Step::Download => "Download",
            Step::Extract => "Extract",
            Step::FixResolvConf => "FixResolvConf",
            Step::MountKernelFs => "MountKernelFs",
            Step::InstallPackageManager => "InstallPackageManager",
            Step::InstallGenerator => "InstallGenerator",
        }
    }
}

/// The DNS configuration of the staged root at `root`.
pub open spec fn resolv_conf_step(root: Seq<char>) -> ProvisionStepView {
    ProvisionStepView {
        operation: OperationView::WriteFile {
            path: joined(root, "etc/resolv.conf"@),
            contents: "nameserver 8.8.8.8"@,
        },
        context: quoted("Unable to create "@, joined(root, "etc/resolv.conf"@), " file"@),
        open_context: quoted("Unable to create "@, joined(root, "etc/resolv.conf"@), " file"@),
    }
}

/// The step that points name resolution in the staged root at a public
/// resolver.
pub fn fix_resolv_conf(root: &str) -> (r: ProvisionStep)
    ensures
        r@ == resolv_conf_step(root@),
{
    let path = join_path(root, "etc/resolv.conf");
    ProvisionStep {
        context: quote_path("Unable to create ", path.as_str(), " file"),
        open_context: quote_path("Unable to create ", path.as_str(), " file"),
        operation: Operation::WriteFile { path, contents: String::from_str("nameserver 8.8.8.8") },
    }
}

/// Why a build cannot start or did not finish.
pub enum Error {
    /// The host operating system is not Linux.
    UnsupportedPlatform(String),
    /// The host architecture is not one of `x86`, `x86_64`, `aarch64`.
    UnsupportedArchitecture(String),
    /// A fatal step failed.
    StepFailed(Step),
}

/// The report of an error.
pub open spec fn error_message(e: Error) -> Seq<char> {
    match e {
        Error::UnsupportedPlatform(os) => "Unsupported platform. Only `linux` is supported, but `"@
            + os@ + "` is detected."@,
        Error::UnsupportedArchitecture(a) => "Unsupported architecture. Only `x86`, `x86_64` and `aarch64` are supported, but `"@
            + a@ + "` is detected."@,
        Error::StepFailed(s) => "Build step `"@ + step_name(s) + "` failed"@,
    }
}

impl Error {
    /// The report of the error.
    pub fn message(&self) -> (r: String)
        ensures
            r@ == error_message(*self),
    {
        match self {
            Error::UnsupportedPlatform(os) => String::from_str(
                "Unsupported platform. Only `linux` is supported, but `",
            ).concat(os.as_str()).concat("` is detected."),
            Error::UnsupportedArchitecture(a) => String::from_str(
                "Unsupported architecture. Only `x86`, `x86_64` and `aarch64` are supported, but `",
            ).concat(a.as_str()).concat("` is detected."),
            Error::StepFailed(s) => String::from_str("Build step `").concat(s.name()).concat(
                "` failed",
            ),
        }
    }
}

/// A build run on a supported host.
pub struct App {
    arch: Arch,
    step: Step,
    finished: bool,
}

/// Whether the host operating system is Linux.
pub open spec fn is_linux(os: Seq<char>) -> bool {
    os == "linux"@
}

/// Checks that the host is Linux on a supported architecture; the host is
/// handed in, not read, so that any host can be described.
pub fn init_app(os: &str, architecture: &str) -> (r: Result<App, Error>)
    ensures
        r is Ok <==> is_linux(os@) && arch_from(architecture@) is Some,
        !is_linux(os@) ==> (r matches Err(Error::UnsupportedPlatform(s)) && s@ == os@),
        is_linux(os@) && arch_from(architecture@) is None ==> (r matches Err(
            Error::UnsupportedArchitecture(s),
        ) && s@ == architecture@),
        r matches Ok(app) ==> app.arch() == arch_from(architecture@)->Some_0 && app.step() is PrepareDir
            && !app.finished(),
{
    App::new(os, architecture)
}

impl App {
    /// The architecture of the host.
    pub closed spec fn arch(&self) -> Arch {
        self.arch
    }

    /// The step being performed.
    pub closed spec fn step(&self) -> Step {
        self.step
    }

    /// Whether the run has ended.
    pub closed spec fn finished(&self) -> bool {
        self.finished
    }

    /// The architecture of the host.
    pub fn architecture(&self) -> (r: Arch)
        ensures
            r == self.arch(),
    {
        self.arch
    }

    /// The step being performed.
    pub fn current_step(&self) -> (r: Step)
        ensures
            r == self.step(),
    {
        self.step
    }

    /// Whether the run has ended.
    pub fn is_finished(&self) -> (r: bool)
        ensures
            r == self.finished(),
    {
        self.finished
    }
    /// A run that starts at `PrepareDir`, on a Linux host of a supported
    /// architecture.
    pub fn new(os: &str, architecture: &str) -> (r: Result<App, Error>)
        ensures
            r is Ok <==> is_linux(os@) && arch_from(architecture@) is Some,
            !is_linux(os@) ==> (r matches Err(Error::UnsupportedPlatform(s)) && s@ == os@),
            is_linux(os@) && arch_from(architecture@) is None ==> (r matches Err(
                Error::UnsupportedArchitecture(s),
            ) && s@ == architecture@),
            r matches Ok(app) ==> app.arch() == arch_from(architecture@)->Some_0 && app.step()
                is PrepareDir && !app.finished(),
    {
        if String::from_str(os) != String::from_str("linux") {
            return Err(Error::UnsupportedPlatform(String::from_str(os)));
        }
        match Arch::new(architecture) {
            Ok(arch) => Ok(App { arch, step: Step::PrepareDir, finished: false }),
            Err(()) => Err(Error::UnsupportedArchitecture(String::from_str(architecture))),
        }
    }

    /// Takes the outcome of the current step and decides what comes next:
    /// the following step, or the end of the run. Any fatal failure ends the
    /// run at once; a failure to configure DNS does not.
    pub fn build(&mut self, succeeded: bool) -> (r: Directive)
        requires
            !old(self).finished(),
        ensures
            final(self).arch() == old(self).arch(),
            (succeeded || !is_fatal(old(self).step())) && step_after(old(self).step()) is Some ==> r
                == Directive::Run(step_after(old(self).step())->Some_0) && final(self).step()
                == step_after(old(self).step())->Some_0 && !final(self).finished(),
            (succeeded || !is_fatal(old(self).step())) && step_after(old(self).step()) is None ==> r
                == (Directive::Finish { success: true }) && final(self).finished(),
            !succeeded && is_fatal(old(self).step()) ==> r == (Directive::Finish { success: false })
                && final(self).finished() && final(self).step() == old(self).step(),
    {
        let fatal = match self.step {
            Step::FixResolvConf => false,
            _ => true,
        };
        if !succeeded && fatal {
            self.finished = true;
            return Directive::Finish { success: false };
        }
        let next = match self.step {
            Step::PrepareDir => Some(Step::Download),
            Step::Download => Some(Step::Extract),
            Step::Extract => Some(Step::FixResolvConf),
            Step::FixResolvConf => Some(Step::MountKernelFs),
            Step::MountKernelFs => Some(Step::InstallPackageManager),
            Step::InstallPackageManager => Some(Step::InstallGenerator),
            Step::InstallGenerator => None,
        };
        match next {
            Some(s) => {
                self.step = s;
                Directive::Run(s)
            },
            None => {
                self.finished = true;
                Directive::Finish { success: true }
            },
        }
    }
}

} // verus!
