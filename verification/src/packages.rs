//! The shape of the installable-package list: ordered categories, each an
//! ordered sequence of package entries whose `script` field is the script
//! reference a run is started with. The list itself comes from a static
//! configuration bundled by the host; parsing it is the host's business —
//! this crate only fixes the shape the runner's script name is drawn from.

use vstd::prelude::*;

verus! {

/// One installable package: identifier, display name, description, icon
/// reference, and the script reference handed to the runner.
pub struct PackageDef {
    pub id: String,
    pub name: String,
    pub desc: String,
    pub icon: String,
    pub script: String,
}

/// One titled category of packages, in display order.
pub struct Category {
    pub title: String,
    pub package: Vec<PackageDef>,
}

} // verus!
