//! State machine of a terminal front-end for system maintenance commands.
//!
//! The library holds the screens, the modal overlay, the command session and
//! the rules that move between them. Reading keys, drawing and running
//! processes is left to the program around it, which performs the
//! [`app::Effect`] each step hands back.

pub mod app;
pub mod cursor;
pub mod host;
pub mod laws;
pub mod localization;
pub mod messages;
pub mod model;
pub mod packages;
pub mod screen;
pub mod text;
