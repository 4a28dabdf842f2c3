use zip2repo::auth::{acquire_token, token_from_env, token_from_gh, GhOutcome, TokenStep};
use zip2repo::cli::AuthMode;
use zip2repo::error::Zip2RepoError;

fn usage(r: Result<String, Zip2RepoError>) -> String {
    match r {
        Err(Zip2RepoError::Usage(s)) => s,
        other => panic!("expected a usage error, got {:?}", other),
    }
}

fn gh_ok(out: &str) -> GhOutcome {
    GhOutcome::Finished { success: true, stdout: out.to_string() }
}

#[test]
fn env_token_missing() {
    assert_eq!(usage(token_from_env(&None)), "Set GITHUB_TOKEN (fine-grained PAT) or use --auth gh");
}

#[test]
fn env_token_blank() {
    assert_eq!(usage(token_from_env(&Some(" \t\n".to_string()))), "GITHUB_TOKEN is empty");
    assert_eq!(usage(token_from_env(&Some(String::new()))), "GITHUB_TOKEN is empty");
}

#[test]
fn env_token_is_used_as_given() {
    assert_eq!(token_from_env(&Some(" ghp_abc \n".to_string())).unwrap(), " ghp_abc \n");
}

#[test]
fn gh_token_is_trimmed() {
    assert_eq!(token_from_gh(&gh_ok("  gho_xyz\n")).unwrap(), "gho_xyz");
    assert_eq!(token_from_gh(&gh_ok("\u{a0}\u{3000}tok en\u{2028}")).unwrap(), "tok en");
}

#[test]
fn gh_errors() {
    assert_eq!(
        usage(token_from_gh(&GhOutcome::SpawnFailed("No such file or directory (os error 2)".to_string()))),
        "Failed to run gh: No such file or directory (os error 2)"
    );
    assert_eq!(
        usage(token_from_gh(&GhOutcome::Finished { success: false, stdout: "gho_x".to_string() })),
        "gh auth token failed; run `gh auth login` or use GITHUB_TOKEN"
    );
    assert_eq!(usage(token_from_gh(&gh_ok("\n\n"))), "gh returned empty token");
}

fn done(s: TokenStep) -> Result<String, Zip2RepoError> {
    match s {
        TokenStep::Done(r) => r,
        other => panic!("expected Done, got {:?}", other),
    }
}

#[test]
fn gh_mode_runs_gh_only() {
    assert!(matches!(acquire_token(AuthMode::Gh, &None, &None), TokenStep::RunGh));
    let r = done(acquire_token(AuthMode::Gh, &Some(gh_ok("t1\n")), &None));
    assert_eq!(r.unwrap(), "t1");
    let r = done(acquire_token(AuthMode::Gh, &Some(gh_ok("")), &Some(Some("envtok".to_string()))));
    assert_eq!(usage(r), "gh returned empty token");
}

#[test]
fn pat_mode_reads_env_only() {
    assert!(matches!(acquire_token(AuthMode::Pat, &None, &None), TokenStep::ReadEnv));
    let r = done(acquire_token(AuthMode::Pat, &None, &Some(Some("envtok".to_string()))));
    assert_eq!(r.unwrap(), "envtok");
}

#[test]
fn app_mode_is_not_available() {
    let r = done(acquire_token(AuthMode::App, &None, &None));
    assert_eq!(usage(r), "GitHub App auth not implemented in v0.1");
}

#[test]
fn auto_mode_prefers_gh_then_falls_back() {
    assert!(matches!(acquire_token(AuthMode::Auto, &None, &None), TokenStep::RunGh));
    let r = done(acquire_token(AuthMode::Auto, &Some(gh_ok("ghtok")), &None));
    assert_eq!(r.unwrap(), "ghtok");
    let failed = GhOutcome::SpawnFailed("not found".to_string());
    assert!(matches!(acquire_token(AuthMode::Auto, &Some(failed), &None), TokenStep::ReadEnv));
    let failed = GhOutcome::SpawnFailed("not found".to_string());
    let r = done(acquire_token(AuthMode::Auto, &Some(failed), &Some(Some("envtok".to_string()))));
    assert_eq!(r.unwrap(), "envtok");
    let failed = GhOutcome::SpawnFailed("not found".to_string());
    let r = done(acquire_token(AuthMode::Auto, &Some(failed), &Some(None)));
    assert_eq!(usage(r), "Set GITHUB_TOKEN (fine-grained PAT) or use --auth gh");
}
