//! Verified core of `kee`, a manager for AWS SSO profiles.

pub mod text;
pub mod completions;
pub mod console;
pub mod profile;
pub mod config;
pub mod grouping;
pub mod keyed;
pub mod ini;
pub mod aws;
pub mod sha1;
pub mod session;
pub mod json;
pub mod cli;
pub mod flows;
pub mod rewrite;
pub mod laws;

pub use aws::AwsManager;
pub use config::KeeConfig;
pub use profile::ProfileInfo;
pub use session::SessionHealth;
