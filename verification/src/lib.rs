//! Deployment of a Flipper Zero SDK and an ARM GCC toolchain into a local uFBT home
//! directory: the layout of that directory, the persisted deployment state, the update
//! server index, SDK loaders and deploy tasks, toolchain selection and structured logging.
pub mod log;
pub mod text;
pub mod paths;
pub mod json;
pub mod state;
pub mod foreign;
pub mod net;
pub mod sdk;
pub mod toolchain;
pub mod build;
pub mod error;
pub mod archive;

pub use error::UfbtError;
pub use log::LogLevel;
