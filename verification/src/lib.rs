//! Filesystem primitives backing a desktop configuration editor: reading and
//! writing one text configuration file, detecting out-of-band modification
//! via metadata snapshots, and copying the file aside before it is
//! overwritten.
//!
//! The store itself is stateless: every operation is a function of the
//! filesystem contents and the arguments alone. The filesystem contents are
//! modelled here explicitly by a finite map from path to file record, so
//! that the change-detection and backup-before-write protocol can be stated
//! and proved over it. The caller that talks to a real disk performs the raw
//! calls itself and feeds their outcomes to the decision functions of this
//! crate.

pub mod errors;
pub mod laws;
pub mod metadata;
pub mod paths;
pub mod store;
