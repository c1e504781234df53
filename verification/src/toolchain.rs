//! ARM GCC toolchain deployment: which toolchain is wanted, where it comes from and where
//! it goes.
pub mod deployer;
pub mod error;
pub mod info;
pub mod plan;

pub use deployer::ToolchainDeployer;
pub use error::ToolchainError;
pub use info::ToolchainInfo;
pub use plan::{DeployAction, DeployPlan, UnixStage, WindowsStage};
