//! Verified core of a project-skeleton generator.
//!
//! A template directory tree is mirrored into an output directory;
//! files carrying the `.tpl` suffix have placeholder tokens of the form
//! `{{NAME}}` replaced by configured values, and three post-processing
//! steps patch a configuration file, a build manifest, and the package
//! directory layout.  Everything that decides *what* is written — the
//! replacement table, the substitution engine, the per-entry walk
//! decisions, and the patch contents — lives here and is verified.
//! The filesystem walking, reading and writing themselves are left to
//! the (unverified) binary around this library.

pub mod profiles;
pub mod stages;
pub mod subst;
pub mod table;
