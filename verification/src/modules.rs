//! Modules: the bundle of channels and game state one hub is built from.

pub mod instance;
pub mod manager;

pub use instance::Module;
pub use manager::ModuleManager;
