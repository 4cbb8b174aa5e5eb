//! The state-keeping core of a native companion module: sensor readings,
//! a notification registry and scheduled background tasks.
//!
//! Every type here is a plain value with exclusive access: whoever shares
//! one between workers puts it behind a lock of its own. Work that takes
//! time (sleeping, the monitoring loop) is handed out as steps for a worker
//! to take, and events go to sinks that the caller registers. The contracts
//! say what each operation does to the value and what the sinks are told.

pub mod async_worker;
pub mod clock;
pub mod events;
pub mod native_activity;
pub mod notifications;
pub mod sensors;
pub mod text;
pub mod utils;
