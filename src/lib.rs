//! The runtime core of an interactive real-time application: input
//! aggregation, surface configuration and the application lifecycle.
pub mod analog;
pub mod input;
pub mod runtime;
pub mod surface;
pub mod table;
