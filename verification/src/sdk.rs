//! Flipper Zero SDK channel resolution and deployment.
pub mod error;
pub mod file_type;

pub use error::SdkError;
pub use file_type::{FileType, UpdateChannel};
pub mod directory_index;
pub use directory_index::{DirectoryIndex, IndexChannel, IndexFile, IndexVersion};
pub mod deploy_task;
pub use deploy_task::{BundleTaskBuilder, DeployTask, DeployTaskBuilder};
pub mod loader;
pub use loader::{BranchLoader, LocalLoader, UpdateChannelLoader, UrlLoader, VERSION_UNKNOWN};
pub mod deployer;
pub mod deploy_plan;
pub use deployer::{Loader, SdkCheck, SdkDeployer};
