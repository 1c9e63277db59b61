//! Decision logic of an editor plugin that provides Terraform support.
//!
//! The plugin has to hand its host the path of two executables: the Terraform
//! language server and the Terraform context server. This library holds
//! everything the plugin decides on the way: which names, directories and
//! download addresses belong to a release, when a cached path may be trusted,
//! what is removed after an installation, and what the launch command looks
//! like. Every effect on the outside world (path lookup, file probes, release
//! queries, downloads) is requested as an [`locate::Action`] and answered with
//! an [`locate::Event`], so the library itself never touches disk or network.

pub mod platform;
pub mod release;
pub mod sweep;
pub mod locate;
pub mod extension;
