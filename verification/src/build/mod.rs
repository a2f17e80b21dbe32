//! Building packages: build options, the argument lists of the build tools,
//! and the build matrix.
pub mod args;
pub mod cli;
pub mod cmdlog;
pub mod defs;
pub mod entries;
pub mod flatpak;
pub mod init;
pub mod oci;
pub mod plan;
pub mod rpm;
