//! Logic of the Nex launcher: configurations, settings, the configuration
//! wizard, launch planning and the menus, each with its contract.

pub mod configuration;
pub mod creator;
pub mod launch;
pub mod menus;
pub mod outside;
pub mod settings;
pub mod text;
