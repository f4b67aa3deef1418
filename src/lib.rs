//! Remote server automation: command builders, output capture and the
//! decision logic of administration recipes, with their contracts.
//!
//! Everything here is plain data and pure logic. Opening SSH connections,
//! spawning processes and reading their pipes is left to the caller, who
//! hands the results back to the functions of this crate.

pub mod apt;
pub mod command;
pub mod env;
pub mod error;
pub mod level;
pub mod local;
pub mod postgres;
pub mod pump;
pub mod session;
pub mod text;
pub mod upload;
pub mod user;

pub use apt::{
    freshness, install_command, missing_packages, package_installed_from, package_query,
    update_command, upgrade_command, Freshness, UPDATE_PERIOD_SECS,
};
pub use command::{Arg, ArgKind, ArgView, Command, CommandOutput, CommandView};
pub use env::{
    env_command, parse_env, required_var, set_shell_command, shell_change, EnvCache, EnvVars,
};
pub use error::Error;
pub use level::Level;
pub use local::{LocalCommand, LocalCommandView};
pub use postgres::{
    create_database_command, create_role_command, database_probe, grant_command, role_probe,
    row_found,
};
pub use pump::OutputPump;
pub use session::{path_exists_from, PathStat, Target};
pub use text::{decimal, decimal_text};
pub use upload::plan_upload;
pub use user::{
    create_user_command, user_exists_from, user_id_command, user_id_from, user_id_from_trimmed,
    user_probe,
};
