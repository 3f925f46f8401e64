//! The daemon's PID file and lifecycle decisions.
pub mod lifecycle;
pub mod pidfile;
