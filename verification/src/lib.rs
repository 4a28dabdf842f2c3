pub mod auth;
pub mod cli;
pub mod error;
pub mod exit_codes;
pub mod github;
pub mod run;
pub mod scaffold;
pub mod text;
pub mod zip;
