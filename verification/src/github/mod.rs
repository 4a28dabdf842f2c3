pub mod models;
pub mod preflight;
pub mod push;
pub mod repo_create;
pub mod settings;
