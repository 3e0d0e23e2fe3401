//! Slash commands and the context-server launcher of the RoamingZed editor
//! extension, as plain verified functions over the library's own types.

pub mod error;
pub mod extension;
pub mod lemmas;
pub mod output;
pub mod templates;

pub use error::CommandError;
pub use extension::RoamingZedExtension;
pub use output::{ArgumentCompletion, CommandOutput, Section, ServerCommand};
