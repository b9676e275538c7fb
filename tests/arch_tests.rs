use lxc_builder::arch::{get_architecture, Arch};

#[test]
fn supported_architectures_round_trip() {
    for s in ["x86", "x86_64", "aarch64"] {
        let a = Arch::new(s).expect("supported");
        assert_eq!(get_architecture(&a), s);
    }
    assert_eq!(Arch::new("x86_64"), Ok(Arch::AMD64));
    assert_eq!(Arch::new("x86"), Ok(Arch::X86));
    assert_eq!(Arch::new("aarch64"), Ok(Arch::AARCH64));
}

#[test]
fn unsupported_architectures_are_rejected() {
    for s in ["", "amd64", "arm64", "X86", "x86_64 ", "riscv64", "i686"] {
        assert_eq!(Arch::new(s), Err(()));
    }
}
