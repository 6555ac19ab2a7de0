//! Decision core of a webhook-triggered deployment dispatcher.
//!
//! A notification names a project and a deployment mode. The library validates
//! it, resolves the project to its directory and the credentials to use, and
//! plans the external commands of the deployment one at a time: the caller runs
//! each planned command and reports how it ended, and the library answers with
//! the next command or with the classified outcome.

pub mod text;
pub mod outcome;
pub mod request;
pub mod credentials;
pub mod registry;
pub mod config;
pub mod command;
pub mod strategy;
pub mod dispatcher;
