//! The build options given on the command line.
use crate::text::{append_chars, chars_eq, chars_of, string_of};
use vstd::prelude::*;

verus! {

/// The RPM builder chosen on the command line.
#[derive(Debug, Clone, Copy, PartialEq, Eq, Structural)]
pub enum RPMBuilder {
    Mock,
    Rpmbuild,
}

/// The kinds of artifacts a build can make.
#[derive(Debug, Clone, Copy, PartialEq, Eq, Structural)]
pub enum PackageType {
    Rpm,
    Docker,
    Podman,
    Flatpak,
    RpmOstree,
    All,
}

/// The name of each package type, as `from_str` takes it.
pub open spec fn package_type_name(t: PackageType) -> Seq<char> {
    match t {
        PackageType::Rpm => "rpm"@,
        PackageType::Docker => "docker"@,
        PackageType::Podman => "podman"@,
        PackageType::Flatpak => "flatpak"@,
        PackageType::RpmOstree => "rpm-ostree"@,
        PackageType::All => "all"@,
    }
}

/// `Invalid package type: ` followed by the text.
pub open spec fn invalid_package_type_msg(s: Seq<char>) -> Seq<char> {
    "Invalid package type: "@ + s
}

fn is_lit(c: &Vec<char>, lit: &str) -> (r: bool)
    ensures
        r == (c@ == lit@),
{
    chars_eq(c, &chars_of(lit))
}

impl PackageType {
    /// Parses a package type by its name.
    pub fn parse(s: &str) -> (r: Result<PackageType, String>)
        ensures
            match r {
                Ok(t) => package_type_name(t) == s@,
                Err(e) => e@ == invalid_package_type_msg(s@) && forall|t: PackageType| package_type_name(t) != s@,
            },
    {
        let c = chars_of(s);
        if is_lit(&c, "rpm") {
            Ok(PackageType::Rpm)
        } else if is_lit(&c, "docker") {
            Ok(PackageType::Docker)
        } else if is_lit(&c, "podman") {
            Ok(PackageType::Podman)
        } else if is_lit(&c, "flatpak") {
            Ok(PackageType::Flatpak)
        } else if is_lit(&c, "rpm-ostree") {
            Ok(PackageType::RpmOstree)
        } else if is_lit(&c, "all") {
            Ok(PackageType::All)
        } else {
            let mut m = chars_of("Invalid package type: ");
            append_chars(&mut m, &c);
            let e = string_of(&m);
            assert forall|t: PackageType| package_type_name(t) != s@ by {
                match t {
                    PackageType::Rpm => {},
                    PackageType::Docker => {},
                    PackageType::Podman => {},
                    PackageType::Flatpak => {},
                    PackageType::RpmOstree => {},
                    PackageType::All => {},
                }
            }
            Err(e)
        }
    }
}

impl std::str::FromStr for PackageType {
    type Err = String;

    fn from_str(s: &str) -> (r: Result<PackageType, String>)
        ensures
            match r {
                Ok(t) => package_type_name(t) == s@,
                Err(e) => e@ == invalid_package_type_msg(s@) && forall|t: PackageType| package_type_name(t) != s@,
            },
    {
        PackageType::parse(s)
    }
}

/// Flatpak Builder Options
#[derive(Debug, Clone)]
pub struct FlatpakOpts {
    /// Flatpak: Extra source directory; can be defined multiple times
    pub flatpak_extra_sources: Vec<String>,
    /// Flatpak: Extra source URL; can be defined multiple times
    pub flatpak_extra_sources_url: Vec<String>,
    /// Flatpak: Do not delete the build directory
    pub flatpak_dont_delete_build_dir: bool,
}

/// OCI Builder Options
#[derive(Debug, Clone)]
pub struct OciOpts {
    /// OCI: Labels to add to the image
    pub label: Vec<String>,
    /// OCI: Build Arguments to pass to the build
    pub build_arg: Vec<String>,
    /// OCI: compress the context with gzip
    pub compress: bool,
}

/// RPM Options
#[derive(Debug, Clone)]
pub struct RpmOpts {
    /// RPM: Do not mirror repositories.
    pub no_mirrors: bool,
    /// RPM: Builder backend
    pub rpm_builder: RPMBuilder,
    /// RPM: Define a custom macro; can be defined multiple times
    pub rpm_macro: Vec<String>,
    /// RPM: Mock configuration
    pub mock_config: Option<String>,
    /// RPM: Extra repositories to pass to mock
    pub extra_repos: Vec<String>,
}


/// Different package types have different names, so parsing the name of a
/// type gives that type back.
pub proof fn lemma_package_type_names(a: PackageType, b: PackageType)
    ensures
        package_type_name(a) == package_type_name(b) ==> a == b,
{
    reveal_strlit("rpm");
    reveal_strlit("docker");
    reveal_strlit("podman");
    reveal_strlit("flatpak");
    reveal_strlit("rpm-ostree");
    reveal_strlit("all");
    if package_type_name(a) == package_type_name(b) {
        let n = package_type_name(a);
        assert(n.len() == package_type_name(b).len());
        assert(n[0] == package_type_name(b)[0]);
    }
}

} // verus!
