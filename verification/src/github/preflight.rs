use vstd::prelude::*;
use crate::error::Zip2RepoError;
use crate::text::{contains_str, seq_contains};

verus! {

/// Reads the answer to "get repository `owner/repo`": the repository exists
/// when the request succeeds; an error whose text mentions `404` means it
/// does not; any other error is an API error with that text.
pub fn repo_exists(outcome: &Result<(), String>) -> (r: Result<bool, Zip2RepoError>)
    ensures
        match outcome {
            Ok(()) => r == Ok::<bool, Zip2RepoError>(true),
            Err(e) => if seq_contains(e@, "404"@) {
                r == Ok::<bool, Zip2RepoError>(false)
            } else {
                r matches Err(Zip2RepoError::GithubApi(m)) && m@ == e@
            },
        },
{
    match outcome {
        Ok(()) => Ok(true),
        Err(e) => {
            if contains_str(e.as_str(), "404") {
                Ok(false)
            } else {
                Err(Zip2RepoError::GithubApi(e.clone()))
            }
        },
    }
}

} // verus!
