//! Orchestration of container image transfers: image references, the command
//! lines handed to `skopeo` and `bootc`, the reading of what those tools
//! report, and the audit of the host's signature policy.

pub mod error;
pub mod bootc;
pub mod json;
pub mod text;
pub mod reference;
pub mod command;
pub mod digest;
pub mod labels;
pub mod policy;
pub mod skopeo;
