//! A local registry of source repositories: where each one lives, whether it
//! follows its remote, and where its last build went.

pub mod paths;
pub mod table;
pub mod conf;
pub mod document;
pub mod registry;
pub mod session;
pub mod cli;

pub use paths::{child_path, valid_path, LocalStuff, PathStatus};
pub use table::{text_less, Table};
pub use conf::{Config, ConfigView, Directories, Section};
pub use document::{generate_config, ConfigError, Document};
pub use registry::{AddPlan, LockOutcome, RegistryError, Registry, RemovalPlan, RepoStatus, DEFAULT_BRANCH};
pub use session::{BuildPlan, BuildProgress, BuildStage, StepOutcome, UpdateEvent, UpdateItem, UpdateProgress, UpdateStage, UpdateTask};
pub use cli::{Command, ConfCmd, UsageError, Validate};
