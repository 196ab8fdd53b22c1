//! The guest operating system as the installer and the PHP runtime selection see it:
//! its package family, its major release and a label for messages.

use vstd::prelude::*;

verus! {

/// How the guest installs packages.
#[derive(Clone, Copy, Debug, PartialEq, Eq, Structural)]
pub enum PackageFamily {
    Dnf,
    Apt,
    Windows,
}

/// A detected guest: package family, major release (`9` for EL9) and a display label.
pub struct GuestOs {
    pub family: PackageFamily,
    pub major: u32,
    pub label: String,
}

} // verus!
