use zip2repo::error::Zip2RepoError;
use zip2repo::github::models::SettingsResult;
use zip2repo::github::preflight::repo_exists;
use zip2repo::github::push::{push_next, remote_to_add, remote_url, PushStep, MAIN_REFSPEC, MASTER_REFSPEC};
use zip2repo::github::repo_create::{create_repo_request, org_repos_route, USER_REPOS_ROUTE};
use zip2repo::github::settings::{
    after_apply, after_readback, branch_protection_payload, branch_protection_route,
    required_check_names, SettingsStep,
};

#[test]
fn repo_exists_reads_the_answer() {
    assert_eq!(repo_exists(&Ok(())).unwrap(), true);
    assert_eq!(repo_exists(&Err("GitHub: Not Found (404)".to_string())).unwrap(), false);
    match repo_exists(&Err("GitHub: Bad credentials (401)".to_string())) {
        Err(Zip2RepoError::GithubApi(s)) => assert_eq!(s, "GitHub: Bad credentials (401)"),
        other => panic!("unexpected {:?}", other),
    }
}

#[test]
fn repo_creation_requests() {
    let b = create_repo_request("demo", true);
    assert_eq!(b.name, "demo");
    assert!(b.private);
    assert!(!b.auto_init);
    assert!(!create_repo_request("demo", false).private);
    assert_eq!(org_repos_route("acme"), "/orgs/acme/repos");
    assert_eq!(USER_REPOS_ROUTE, "/user/repos");
}

#[test]
fn push_target_and_fallback() {
    assert_eq!(remote_url("acme", "demo"), "https://github.com/acme/demo.git");
    assert_eq!(MAIN_REFSPEC, "refs/heads/master:refs/heads/main");
    assert_eq!(MASTER_REFSPEC, "refs/heads/master:refs/heads/master");
    assert_eq!(remote_to_add(true, "acme", "demo"), None);
    assert_eq!(remote_to_add(false, "acme", "demo"), Some("https://github.com/acme/demo.git".to_string()));
    assert!(matches!(push_next(&Ok(()), &None), PushStep::Done(Ok(()))));
    let main_failed: Result<(), String> = Err("rejected".to_string());
    assert!(matches!(push_next(&main_failed, &None), PushStep::PushMaster));
    assert!(matches!(push_next(&main_failed, &Some(Ok(()))), PushStep::Done(Ok(()))));
    match push_next(&main_failed, &Some(Err("denied".to_string()))) {
        PushStep::Done(Err(Zip2RepoError::GitPush(s))) => {
            assert_eq!(s, "push as main failed: rejected; push as master also failed: denied")
        }
        other => panic!("unexpected {:?}", other),
    }
}

#[test]
fn protection_payload_and_route() {
    assert_eq!(branch_protection_route("acme", "demo"), "/repos/acme/demo/branches/main/protection");
    let checks = required_check_names();
    assert_eq!(checks, vec!["build".to_string(), "test".to_string()]);
    let p = branch_protection_payload(&checks);
    assert!(p.required_status_checks.strict);
    assert_eq!(p.required_status_checks.contexts, checks);
    assert!(!p.enforce_admins);
    assert!(p.required_pull_request_reviews.dismiss_stale_reviews);
    assert_eq!(p.required_pull_request_reviews.required_approving_review_count, 1);
    assert!(p.restrictions.is_none());
    assert!(!p.allow_force_pushes);
}

#[test]
fn settings_outcomes() {
    match after_apply(false) {
        SettingsStep::Finished(r) => assert_eq!(
            r,
            SettingsResult { branch_protection_applied: false, status_checks_applied: false, verified: false }
        ),
        other => panic!("unexpected {:?}", other),
    }
    assert!(matches!(after_apply(true), SettingsStep::Readback));
    let both = Some(vec![
        "url".to_string(),
        "required_status_checks".to_string(),
        "required_pull_request_reviews".to_string(),
    ]);
    assert_eq!(
        after_readback(&both),
        SettingsResult { branch_protection_applied: true, status_checks_applied: true, verified: true }
    );
    let one = Some(vec!["required_status_checks".to_string()]);
    assert!(!after_readback(&one).verified);
    assert!(after_readback(&one).branch_protection_applied);
    assert!(!after_readback(&None).verified);
}
