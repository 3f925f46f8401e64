//! Verified core of the Sherpa lab server: authentication cookies and
//! sessions, access rules, API error mapping, request decisions, daemon
//! lifecycle decisions and node provisioning helpers.
#![allow(unused_imports)]

pub mod text;
pub mod auth;
pub mod services;
pub mod api;
pub mod daemon;
pub mod cli;
