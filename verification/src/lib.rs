//! Code-scaffolding for a templated transaction project.
//!
//! Given a transaction name and a list of (field name, field type)
//! pairs, the library patches two source templates — a
//! transaction-definition text and a state-transition text — by
//! exact-anchor substring replacement, producing texts extended with
//! the new variant and with matching dispatch branches, while leaving
//! the rest of each template unchanged.

pub mod fields;
pub mod patch;
pub mod patcher;
pub mod render;
