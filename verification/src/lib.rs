//! Plugin composition for an application: which subsystems attach to it, and
//! in which order.

pub mod app;
pub mod builder;
pub mod default_plugins;
pub mod features;
pub mod group;
pub mod subsystem;

pub use app::{App, Plugin};
pub use builder::AppBuilder;
pub use default_plugins::AddDefaultPlugins;
pub use features::FeatureSet;
pub use subsystem::Subsystem;
