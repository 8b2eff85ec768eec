//! Sharing one copy of global and thread-local state between dynamically
//! loaded modules that each embed the same dependency.
//!
//! The library has four parts:
//! - [`wrappers`]: read-through accessors that make an imported reference
//!   behave like the declaration it stands for;
//! - [`role`]: the single role (local, exporting, importing) a build runs in;
//! - [`declare`]: turns a global declaration and a role into the Rust source
//!   of its owning, exporting or importing form;
//! - [`beacon`]: per-module identity values and the colours that tell them
//!   apart in diagnostic output.

pub mod beacon;
pub mod declare;
pub mod role;
pub mod wrappers;

pub use wrappers::{TrustedExtern, TrustedExternDouble};
pub use beacon::{color_of, hsl_to_rgb, mix, Beacon, Rgb};
pub use declare::{expand, expand_all, stable_name, DeclKind, Declaration};
pub use role::{resolve_role, Role, RoleConflict};
