//! Building blocks of a microservice host: health probes and the checks that
//! aggregate them, the plugin table, the task set, the host's lifecycle and the
//! numeric conventions of its C interface. Every function carries a contract
//! that Verus proves; the few calls into other crates are marked as such.

pub mod check;
pub mod clock;
pub mod error;
pub mod ffi;
pub mod lifecycle;
pub mod logbridge;
pub mod metrics;
pub mod multiread;
pub mod names;
pub mod plugin;
pub mod probe;
pub mod routes;
pub mod sample;
pub mod tasks;
pub mod text;
pub mod uservice;
pub mod worker;
