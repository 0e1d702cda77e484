//! A time-locked secret escrow: capsules that open after a delay, or early
//! through a guardian.
pub mod cipher;
pub mod guardians;
pub mod identity;
pub mod laws;
pub mod service;
pub mod store;
pub mod text;
