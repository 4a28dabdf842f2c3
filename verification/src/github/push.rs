use vstd::prelude::*;
use crate::error::Zip2RepoError;
use crate::text::concat_str;

verus! {

/// The message of the initial commit.
pub const COMMIT_MESSAGE: &'static str = "Initial import via zip2repo";
/// The author and committer name of the initial commit.
pub const COMMITTER_NAME: &'static str = "zip2repo";
/// The author and committer e-mail of the initial commit.
pub const COMMITTER_EMAIL: &'static str = "zip2repo@local";
/// The pathspec that stages every file of the tree.
pub const STAGE_ALL: &'static str = "*";
/// The remote that is pushed to.
pub const REMOTE_NAME: &'static str = "origin";
/// The user name that goes with a token over HTTPS.
pub const TOKEN_USER: &'static str = "x-access-token";
/// First choice: the local `master` becomes the remote `main`.
pub const MAIN_REFSPEC: &'static str = "refs/heads/master:refs/heads/main";
/// Fallback: the local `master` becomes the remote `master`.
pub const MASTER_REFSPEC: &'static str = "refs/heads/master:refs/heads/master";

/// The HTTPS URL of repository `owner/name` on GitHub.
pub fn remote_url(owner: &str, name: &str) -> (u: String)
    ensures
        u@ == "https://github.com/"@ + owner@ + "/"@ + name@ + ".git"@,
{
    let a = concat_str("https://github.com/", owner);
    let b = concat_str(a.as_str(), "/");
    let c = concat_str(b.as_str(), name);
    concat_str(c.as_str(), ".git")
}

/// Decides about the remote: when `origin` is missing it is added with the
/// repository's URL (the result); when it exists it is used as it is.
pub fn remote_to_add(origin_exists: bool, owner: &str, name: &str) -> (r: Option<String>)
    ensures
        origin_exists ==> r is None,
        !origin_exists ==> (r matches Some(u) && u@ == "https://github.com/"@ + owner@ + "/"@ + name@ + ".git"@),
{
    if origin_exists {
        None
    } else {
        Some(remote_url(owner, name))
    }
}

/// The next thing to do when pushing.
#[derive(Debug)]
pub enum PushStep {
    /// Push with `MASTER_REFSPEC`.
    PushMaster,
    /// Pushing is over, with this result.
    Done(Result<(), Zip2RepoError>),
}

/// The message when both pushes fail.
pub open spec fn push_failure_text(first: Seq<char>, second: Seq<char>) -> Seq<char> {
    "push as main failed: "@ + first + "; push as master also failed: "@ + second
}

/// Decides after a push: a push with `MAIN_REFSPEC` that succeeds ends it;
/// after a failure the push is tried again with `MASTER_REFSPEC`; when that
/// fails too, the error tells both failures. `main` and `master` are the
/// outcomes so far, with the error texts.
pub fn push_next(main: &Result<(), String>, master: &Option<Result<(), String>>) -> (s: PushStep)
    ensures
        main is Ok ==> s matches PushStep::Done(Ok(())),
        main matches Err(e1) ==> match master {
            None => s is PushMaster,
            Some(Ok(())) => s matches PushStep::Done(Ok(())),
            Some(Err(e2)) => s matches PushStep::Done(Err(Zip2RepoError::GitPush(m)))
                && m@ == push_failure_text(e1@, e2@),
        },
{
    match main {
        Ok(()) => PushStep::Done(Ok(())),
        Err(e1) => match master {
            None => PushStep::PushMaster,
            Some(Ok(())) => PushStep::Done(Ok(())),
            Some(Err(e2)) => {
                let a = concat_str("push as main failed: ", e1.as_str());
                let b = concat_str(a.as_str(), "; push as master also failed: ");
                let c = concat_str(b.as_str(), e2.as_str());
                PushStep::Done(Err(Zip2RepoError::GitPush(c)))
            },
        },
    }
}

} // verus!
