pub mod detect;
pub mod templates;
pub mod write;
