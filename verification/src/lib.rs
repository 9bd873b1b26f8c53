//! clipbuf core: analysis and transformation of captured clipboard text, the in-memory item
//! buffer, settings rules, clipboard snapshot rules and the capture / transfer decisions.

pub mod analysis;
pub mod app;
pub mod buffer;
pub mod clipboard;
pub mod model;
pub mod text;
pub mod transform;
pub mod settings;
