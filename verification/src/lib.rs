//! Provisioning and lifecycle of a remote host that builds and pushes
//! container images: the decisions of each workflow, stated and proved.

pub mod add_account;
pub mod ami;
pub mod bootstrap;
pub mod config;
pub mod connect;
pub mod deploy;
pub mod docker_ignore;
pub mod provider;
pub mod ship;
pub mod stack;
pub mod start;
pub mod stop;
pub mod tag;
pub mod text;
pub mod trust;
pub mod uninstall;
