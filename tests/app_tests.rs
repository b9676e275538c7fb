use lxc_builder::app::{fix_resolv_conf, init_app, App, Directive, Error, Step};
use lxc_builder::nix::Operation;
use lxc_builder::arch::Arch;

#[test]
fn supported_host_starts() {
    let a = App::new("linux", "aarch64").ok().unwrap();
    assert_eq!(a.architecture(), Arch::AARCH64);
    assert_eq!(a.current_step(), Step::PrepareDir);
    assert!(init_app("linux", "x86").is_ok());
}

#[test]
fn unsupported_hosts_are_refused() {
    match App::new("macos", "x86_64") {
        Err(Error::UnsupportedPlatform(os)) => assert_eq!(os, "macos"),
        _ => panic!("expected UnsupportedPlatform"),
    }
    match init_app("linux", "sparc64") {
        Err(Error::UnsupportedArchitecture(a)) => assert_eq!(a, "sparc64"),
        _ => panic!("expected UnsupportedArchitecture"),
    }
}

#[test]
fn full_run_visits_every_step() {
    let mut a = App::new("linux", "x86_64").ok().unwrap();
    let mut seen = vec![a.current_step()];
    loop {
        match a.build(true) {
            Directive::Run(s) => seen.push(s),
            Directive::Finish { success } => {
                assert!(success);
                break;
            }
        }
    }
    assert_eq!(
        seen,
        vec![
            Step::PrepareDir,
            Step::Download,
            Step::Extract,
            Step::FixResolvConf,
            Step::MountKernelFs,
            Step::InstallPackageManager,
            Step::InstallGenerator
        ]
    );
}

#[test]
fn dns_failure_is_not_fatal() {
    let mut a = App::new("linux", "x86_64").ok().unwrap();
    a.build(true);
    a.build(true);
    assert_eq!(a.build(true), Directive::Run(Step::FixResolvConf));
    assert_eq!(a.build(false), Directive::Run(Step::MountKernelFs));
}

#[test]
fn other_failures_end_the_run() {
    let mut a = App::new("linux", "x86_64").ok().unwrap();
    assert_eq!(a.build(true), Directive::Run(Step::Download));
    assert_eq!(a.build(false), Directive::Finish { success: false });
    assert!(a.is_finished());
    let mut b = App::new("linux", "x86").ok().unwrap();
    for _ in 0..4 {
        b.build(true);
    }
    assert_eq!(b.current_step(), Step::MountKernelFs);
    assert_eq!(b.build(false), Directive::Finish { success: false });
}

#[test]
fn error_messages() {
    assert_eq!(
        App::new("linux", "riscv64").err().unwrap().message(),
        "Unsupported architecture. Only `x86`, `x86_64` and `aarch64` are supported, but `riscv64` is detected."
    );
    assert_eq!(
        init_app("windows", "x86").err().unwrap().message(),
        "Unsupported platform. Only `linux` is supported, but `windows` is detected."
    );
    assert_eq!(Error::StepFailed(Step::Extract).message(), "Build step `Extract` failed");
}

#[test]
fn resolv_conf_step() {
    let s = fix_resolv_conf("./workdir/");
    match s.operation {
        Operation::WriteFile { path, contents } => {
            assert_eq!(path, "./workdir/etc/resolv.conf");
            assert_eq!(contents, "nameserver 8.8.8.8");
        }
        _ => panic!("expected a file write"),
    }
    assert_eq!(s.context, "Unable to create `./workdir/etc/resolv.conf` file");
}
