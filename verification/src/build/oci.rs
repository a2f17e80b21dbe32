//! Building RPMs inside Podman containers: the builder's state and the
//! choice of socket and package manager.
use crate::text::{append_chars, chars_of, decimal, format_decimal, string_of};
use vstd::prelude::*;

verus! {

/// The package manager used when none is configured.
pub open spec fn default_pkgmgr() -> Seq<char> {
    "dnf"@
}

/// A builder bound to one container.
pub struct PodRPMBuilder {
    /// The build context directory
    pub context: String,
    /// The image, with its tag
    pub container: String,
    /// The id of the container created for the build
    pub id: String,
}

impl PodRPMBuilder {
    /// A builder for the container `id`, made from `container` with the
    /// build context `context`.
    pub fn new(context: String, container: String, id: String) -> (b: PodRPMBuilder)
        ensures
            b.context@ == context@,
            b.container@ == container@,
            b.id@ == id@,
    {
        PodRPMBuilder { context, container, id }
    }
}

/// The Podman socket: the configured one, else the system socket for root
/// and the user's socket for anyone else.
pub open spec fn podman_socket_spec(configured: Option<Seq<char>>, uid: u32) -> Seq<char> {
    match configured {
        Some(s) => s,
        None => if uid == 0 {
            "unix:///var/run/podman/podman.sock"@
        } else {
            "unix:///run/user/"@ + decimal(uid as nat) + "/podman/podman.sock"@
        },
    }
}

/// Chooses the Podman socket from the configured one (`PODMAN_SOCKET`)
/// and the user id.
pub fn podman_socket(configured: Option<String>, uid: u32) -> (r: String)
    ensures
        r@ == podman_socket_spec(match configured { Some(s) => Some(s@), None => None }, uid),
{
    match configured {
        Some(s) => s,
        None => if uid == 0 {
            "unix:///var/run/podman/podman.sock".to_owned()
        } else {
            let mut v = chars_of("unix:///run/user/");
            append_chars(&mut v, &format_decimal(uid as usize));
            append_chars(&mut v, &chars_of("/podman/podman.sock"));
            string_of(&v)
        },
    }
}

/// Chooses the package manager: the configured one (`PKGMGR`), else `dnf`.
pub fn pkgmgr(configured: Option<String>) -> (r: String)
    ensures
        r@ == match configured { Some(s) => s@, None => default_pkgmgr() },
{
    match configured {
        Some(s) => s,
        None => "dnf".to_owned(),
    }
}

} // verus!
