use vstd::prelude::*;
use crate::text::concat_str;

verus! {

/// Everything that can go wrong on the way from a zip to a repository.
/// Each variant carries a human-readable detail.
#[derive(Debug)]
pub enum Zip2RepoError {
    Usage(String),
    Permission(String),
    GithubApi(String),
    GitPush(String),
    ZipValidation(String),
    Network(String),
    Io(String),
}

impl Zip2RepoError {
    /// The detail text that the error carries.
    pub open spec fn detail(self) -> Seq<char> {
        match self {
            Zip2RepoError::Usage(s) => s@,
            Zip2RepoError::Permission(s) => s@,
            Zip2RepoError::GithubApi(s) => s@,
            Zip2RepoError::GitPush(s) => s@,
            Zip2RepoError::ZipValidation(s) => s@,
            Zip2RepoError::Network(s) => s@,
            Zip2RepoError::Io(s) => s@,
        }
    }

    /// The label that the printed form of each variant starts with.
    pub open spec fn spec_label(self) -> Seq<char> {
        match self {
            Zip2RepoError::Usage(_) => "usage/config error: "@,
            Zip2RepoError::Permission(_) => "permission denied: "@,
            Zip2RepoError::GithubApi(_) => "github api error: "@,
            Zip2RepoError::GitPush(_) => "git push error: "@,
            Zip2RepoError::ZipValidation(_) => "zip validation failed: "@,
            Zip2RepoError::Network(_) => "network fetch failed: "@,
            Zip2RepoError::Io(_) => "io error: "@,
        }
    }

    /// The printed form of the error: its label, then its detail.
    pub fn message(&self) -> (m: String)
        ensures
            m@ == self.spec_label() + self.detail(),
    {
        match self {
            Zip2RepoError::Usage(s) => concat_str("usage/config error: ", s.as_str()),
            Zip2RepoError::Permission(s) => concat_str("permission denied: ", s.as_str()),
            Zip2RepoError::GithubApi(s) => concat_str("github api error: ", s.as_str()),
            Zip2RepoError::GitPush(s) => concat_str("git push error: ", s.as_str()),
            Zip2RepoError::ZipValidation(s) => concat_str("zip validation failed: ", s.as_str()),
            Zip2RepoError::Network(s) => concat_str("network fetch failed: ", s.as_str()),
            Zip2RepoError::Io(s) => concat_str("io error: ", s.as_str()),
        }
    }
}

} // verus!
