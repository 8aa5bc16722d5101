//! Building, testing and deploying robot code with cargo.
//!
//! The library holds the decisions of the tool, each with a contract:
//! - [`actions::deploy_descriptor`] reads the deploy descriptor of a kind of
//!   target from a [`document::Document`];
//! - [`actions::probe`] makes of the response to a probe what the probe asks
//!   for: whether the target is up, and what its serial number is;
//! - [`actions::ssh_client`] picks the address of the target and leads
//!   through the steps that open a session with it;
//! - [`configs::project_config`] reads the settings of a project;
//! - [`cmds`] puts together the command lines for cargo.
//!
//! Sending requests, running sessions and starting programs is left to the
//! program around the library, which hands in what it has received.

pub mod actions;
pub mod cmds;
pub mod configs;
pub mod decimal;
pub mod document;
pub mod errors;
pub mod json;
pub mod text;
