//! An in-process event distribution loop: producers push typed events onto a
//! single inbound queue; a dispatcher receives them one at a time, classifies
//! each by kind, and synchronously hands every registered consumer of that
//! kind its own duplicate of the payload, in registration order.

pub mod event;
pub mod manager;
pub mod recorder;
pub mod laws;
