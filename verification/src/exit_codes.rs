use vstd::prelude::*;

verus! {

/// Settings applied and verified.
pub const SUCCESS_FULL: i32 = 0;
/// Repository created and pushed; settings pending (or a dry run).
pub const SUCCESS_ARTIFACTS_ONLY: i32 = 10;
/// Permission denied.
pub const FAIL_PERMISSION: i32 = 20;
/// GitHub API error.
pub const FAIL_GITHUB_API: i32 = 21;
/// Git push error.
pub const FAIL_GIT_PUSH: i32 = 22;
/// Zip validation failed.
pub const FAIL_ZIP_VALIDATION: i32 = 30;
/// Network fetch failed.
pub const FAIL_NETWORK_FETCH: i32 = 31;
/// I/O error.
pub const FAIL_IO: i32 = 32;
/// Configuration or usage error.
pub const FAIL_CONFIG_OR_USAGE: i32 = 40;

} // verus!
