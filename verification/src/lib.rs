//! Verified core of a driver-loading tool: an orchestrator that disables
//! kernel signature enforcement, installs a driver, and always restores
//! enforcement afterwards, reporting exactly one outcome notification.
//!
//! The kernel-patching and service-registration work itself is I/O performed
//! by the surrounding program; the library decides, step by step, which call
//! to make next and how the observable state changes with each outcome.

pub mod model;
pub mod notification;
pub mod orchestrator;
pub mod request;
pub mod status;
