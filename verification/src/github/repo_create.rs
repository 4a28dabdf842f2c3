use vstd::prelude::*;
use crate::text::concat_str;

verus! {

/// The route that creates a repository for the authenticated user.
pub const USER_REPOS_ROUTE: &'static str = "/user/repos";

/// The body of a "create repository" request: an empty repository with the
/// given name and visibility.
#[derive(Debug)]
pub struct CreateRepoRequest {
    pub name: String,
    pub private: bool,
    pub auto_init: bool,
}

/// The request that creates repository `repo`, private or public, without an
/// initial commit.
pub fn create_repo_request(repo: &str, private: bool) -> (b: CreateRepoRequest)
    ensures
        b.name@ == repo@,
        b.private == private,
        !b.auto_init,
{
    CreateRepoRequest { name: String::from_str(repo), private, auto_init: false }
}

/// The route that creates a repository in organization `org`.
pub fn org_repos_route(org: &str) -> (r: String)
    ensures
        r@ == "/orgs/"@ + org@ + "/repos"@,
{
    let s = concat_str("/orgs/", org);
    concat_str(s.as_str(), "/repos")
}

} // verus!
