//! Lab services: node provisioning helpers, runtime state detection, lab
//! inspection, image import, bringing labs up, redeploying, starting and
//! stopping nodes, and destroying labs.
pub mod node_ops;
pub mod inspect;
pub mod scanner;
pub mod topology;
pub mod import;
pub mod node_actions;
pub mod destroy;
pub mod up;
pub mod redeploy;
pub mod ztp;
pub mod cloud_init;
