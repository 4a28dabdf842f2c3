use vstd::prelude::*;

verus! {

/// The kind of project a source tree holds; `Auto` asks for detection.
#[derive(Debug, Clone, Copy, PartialEq, Eq, Structural)]
pub enum Stack {
    Auto,
    Rust,
    Node,
    Python,
    Go,
    Multi,
    Other,
}

/// Where the GitHub token comes from; `Auto` tries the GitHub CLI first and
/// then the environment.
#[derive(Debug, Clone, Copy, PartialEq, Eq, Structural)]
pub enum AuthMode {
    Auto,
    Gh,
    Pat,
    App,
}

/// The command line: the archive (local path or HTTPS URL), the target
/// repository and the flags.
#[derive(Debug)]
pub struct Cli {
    /// Local path or HTTPS URL to zip
    pub zip: String,
    pub owner: String,
    pub repo: String,
    pub private: bool,
    pub public: bool,
    pub apply_settings: bool,
    pub dry_run: bool,
    pub stack: Stack,
    pub auth: AuthMode,
    pub verbose: bool,
}

} // verus!
