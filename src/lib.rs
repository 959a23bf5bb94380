//! A remote network driver's core: the registry of networks, the naming of
//! endpoint devices, and the device operations that each lifecycle request
//! takes, as a state machine that a caller drives against the kernel.

pub mod api;
pub mod handlers;
pub mod laws;
pub mod lifecycle;
pub mod naming;
pub mod options;
pub mod registry;
