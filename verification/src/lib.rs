//! An order-placement workflow: untrusted order data is validated, priced,
//! acknowledged and turned into a sequence of domain events.

pub mod decimal;
pub mod domain;
pub mod ids;
pub mod stubs;
pub mod workflow;
