pub mod archive;
pub mod extract;
pub mod validate;
