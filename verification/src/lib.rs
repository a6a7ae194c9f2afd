//! Verified core of a small desktop tool that publishes a Discord "rich
//! presence" activity: the validation of application ids, the model of the
//! activity being edited, the update rules of the editor, and the style sheets
//! of its widgets.

pub mod client_id;
pub mod styles;
pub mod presence;
pub mod editor;
pub mod laws;
