//! Reconciliation logic of the NetBox controller: the decisions that keep
//! NetBox in line with the custom resources declared in Git.
//!
//! The library holds the models of the custom resources and of the NetBox
//! records that the reconcilers read, the field comparisons that detect
//! drift, the resolution of references between resources, and the
//! reconciliation state machine that every resource kind runs.

pub mod compare;
pub mod corrections;
pub mod dcim;
pub mod decisions;
pub mod dependency;
pub mod drift;
pub mod engine;
pub mod extras;
pub mod inputs;
pub mod laws;
pub mod matching;
pub mod messages;
pub mod model;
pub mod profiles;
pub mod properties;
pub mod queries;
pub mod references;
pub mod requests;
pub mod text;

