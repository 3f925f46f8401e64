//! Authentication: access context, cookies and session selection.
pub mod context;
pub mod cookies;
pub mod session;
