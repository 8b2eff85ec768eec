//! The role of a build: it decides how every shared declaration in it is
//! expanded.
use vstd::prelude::*;

verus! {

/// How a build treats its shared declarations. One role holds for a whole
/// build and does not change.
#[derive(Clone, Copy, Debug, PartialEq, Eq, Structural)]
pub enum Role {
    /// Storage is private to the module, as for an ordinary declaration.
    Local,
    /// The module owns the storage and publishes it to other modules.
    Exporting,
    /// The module holds no storage and reaches the exporter's at load time.
    Importing,
}

/// The build asked to export and to import at once.
#[derive(Clone, Copy, Debug, PartialEq, Eq, Structural)]
pub struct RoleConflict;

/// The role that the two build signals select: exporting, importing, or
/// neither; both together are a conflict.
pub open spec fn role_of(export: bool, import: bool) -> Result<Role, RoleConflict> {
    if export && import {
        Err(RoleConflict)
    } else if export {
        Ok(Role::Exporting)
    } else if import {
        Ok(Role::Importing)
    } else {
        Ok(Role::Local)
    }
}

/// Resolves the role of a build from its `export` and `import` signals.
pub fn resolve_role(export: bool, import: bool) -> (r: Result<Role, RoleConflict>)
    ensures
        r == role_of(export, import),
        r is Err <==> (export && import),
{
    if export && import {
        Err(RoleConflict)
    } else if export {
        Ok(Role::Exporting)
    } else if import {
        Ok(Role::Importing)
    } else {
        Ok(Role::Local)
    }
}

impl Role {
    /// One-letter tag of the role shown in diagnostic traces.
    pub open spec fn tag_spec(self) -> Seq<char> {
        match self {
            Role::Local => seq!['N'],
            Role::Exporting => seq!['E'],
            Role::Importing => seq!['I'],
        }
    }

    /// `N` for a local build, `E` for an exporting one, `I` for an importing
    /// one.
    pub fn tag(self) -> (r: &'static str)
        ensures
            r@ == self.tag_spec(),
    {
        match self {
            Role::Local => {
                proof {
                    reveal_strlit("N");
                }
                "N"
            },
            Role::Exporting => {
                proof {
                    reveal_strlit("E");
                }
                "E"
            },
            Role::Importing => {
                proof {
                    reveal_strlit("I");
                }
                "I"
            },
        }
    }
}

} // verus!
