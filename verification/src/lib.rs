//! Andaman: building blocks of a package build toolchain, with the RPM spec
//! parser and macro expander at its core.
pub mod andax;
pub mod build;
pub mod rpmspec;
pub mod text;
pub mod update;
