//! Provisioning of a minimal Alpine root filesystem in which a Nix toolchain
//! is installed to generate container images.
pub mod alpine;
pub mod app;
pub mod arch;
pub mod chroot;
pub mod digest;
pub mod fs;
pub mod mount;
pub mod nix;
