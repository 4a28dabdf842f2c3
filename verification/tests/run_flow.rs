use zip2repo::cli::{AuthMode, Cli, Stack};
use zip2repo::error::Zip2RepoError;
use zip2repo::exit_codes::{
    FAIL_CONFIG_OR_USAGE, FAIL_GITHUB_API, FAIL_GIT_PUSH, FAIL_IO, FAIL_NETWORK_FETCH, FAIL_PERMISSION,
    FAIL_ZIP_VALIDATION, SUCCESS_ARTIFACTS_ONLY, SUCCESS_FULL,
};
use zip2repo::github::models::SettingsResult;
use zip2repo::run::{map_err, next_step, run_options, start, RunOptions, RunStep, StepOutcome};

fn opts(dry_run: bool, apply_settings: bool) -> RunOptions {
    RunOptions { private: true, public: false, dry_run, apply_settings }
}

fn name(s: &RunStep) -> String {
    match s {
        RunStep::Exit { code, message } => format!("Exit({}, {:?})", code, message),
        other => format!("{:?}", other),
    }
}

/// Drives a run, answering each step with the given outcome or `Done`.
fn drive(o: &RunOptions, answer: impl Fn(&RunStep) -> StepOutcome) -> Vec<String> {
    let mut trace = Vec::new();
    let mut step = start(o);
    loop {
        trace.push(name(&step));
        if let RunStep::Exit { .. } = step {
            return trace;
        }
        let outcome = answer(&step);
        step = next_step(o, &step, outcome);
    }
}

#[test]
fn visibility_must_be_chosen_once() {
    for (private, public) in [(true, true), (false, false)] {
        let o = RunOptions { private, public, dry_run: false, apply_settings: false };
        match start(&o) {
            RunStep::Exit { code, message } => {
                assert_eq!(code, FAIL_CONFIG_OR_USAGE);
                assert_eq!(message.unwrap(), "Must set exactly one of --private or --public");
            }
            other => panic!("unexpected {:?}", other),
        }
    }
    let o = RunOptions { private: false, public: true, dry_run: false, apply_settings: false };
    assert!(matches!(start(&o), RunStep::AcquireToken));
}

#[test]
fn dry_run_stops_after_scaffold() {
    let trace = drive(&opts(true, true), |_| StepOutcome::Done);
    assert_eq!(
        trace,
        vec!["AcquireToken", "LoadZip", "ValidateZip", "ExtractZip", "Scaffold", "ReportDryRun", "Exit(10, None)"]
    );
}

#[test]
fn full_run_with_verified_settings_exits_zero() {
    let trace = drive(&opts(false, true), |s| match s {
        RunStep::CheckRepo => StepOutcome::RepoExists(false),
        RunStep::ApplySettings => StepOutcome::Settings(SettingsResult {
            branch_protection_applied: true,
            status_checks_applied: true,
            verified: true,
        }),
        _ => StepOutcome::Done,
    });
    assert_eq!(
        trace,
        vec![
            "AcquireToken", "LoadZip", "ValidateZip", "ExtractZip", "Scaffold", "CheckRepo",
            "CreateInOrg", "Commit", "Push", "ApplySettings", "Exit(0, None)"
        ]
    );
}

#[test]
fn unverified_settings_exit_with_artifacts_only() {
    let trace = drive(&opts(false, true), |s| match s {
        RunStep::CheckRepo => StepOutcome::RepoExists(true),
        RunStep::ApplySettings => StepOutcome::Settings(SettingsResult {
            branch_protection_applied: true,
            status_checks_applied: true,
            verified: false,
        }),
        _ => StepOutcome::Done,
    });
    assert_eq!(trace.last().unwrap(), "Exit(10, None)");
    assert!(!trace.iter().any(|s| s == "CreateInOrg"));
}

#[test]
fn without_settings_the_push_ends_the_run() {
    let trace = drive(&opts(false, false), |s| match s {
        RunStep::CheckRepo => StepOutcome::RepoExists(true),
        _ => StepOutcome::Done,
    });
    assert_eq!(&trace[trace.len() - 3..], &["Commit", "Push", "Exit(10, None)"]);
}

#[test]
fn org_failure_falls_back_to_user() {
    let trace = drive(&opts(false, false), |s| match s {
        RunStep::CheckRepo => StepOutcome::RepoExists(false),
        RunStep::CreateInOrg => StepOutcome::Failed(Zip2RepoError::Permission("no org".to_string())),
        _ => StepOutcome::Done,
    });
    assert_eq!(&trace[5..], &["CheckRepo", "CreateInOrg", "CreateForUser", "Commit", "Push", "Exit(10, None)"]);
}

#[test]
fn user_create_failure_is_permission_denied() {
    let trace = drive(&opts(false, false), |s| match s {
        RunStep::CheckRepo => StepOutcome::RepoExists(false),
        RunStep::CreateInOrg => StepOutcome::Failed(Zip2RepoError::Permission("no org".to_string())),
        RunStep::CreateForUser => StepOutcome::Failed(Zip2RepoError::Permission("forbidden".to_string())),
        _ => StepOutcome::Done,
    });
    assert_eq!(trace.last().unwrap(), "Exit(20, Some(\"permission denied: forbidden\"))");
}

#[test]
fn commit_and_push_failures_print_the_whole_error() {
    let trace = drive(&opts(false, false), |s| match s {
        RunStep::CheckRepo => StepOutcome::RepoExists(true),
        RunStep::Commit => StepOutcome::Failed(Zip2RepoError::Io("no tree".to_string())),
        _ => StepOutcome::Done,
    });
    assert_eq!(trace.last().unwrap(), "Exit(32, Some(\"io error: no tree\"))");
    let trace = drive(&opts(false, false), |s| match s {
        RunStep::CheckRepo => StepOutcome::RepoExists(true),
        RunStep::Push => StepOutcome::Failed(Zip2RepoError::GitPush("both failed".to_string())),
        _ => StepOutcome::Done,
    });
    assert_eq!(trace.last().unwrap(), "Exit(22, Some(\"git push error: both failed\"))");
}

#[test]
fn other_failures_print_the_detail_with_their_code() {
    let cases = [
        ("AcquireToken", Zip2RepoError::Usage("u".to_string()), 40),
        ("LoadZip", Zip2RepoError::Network("n".to_string()), 31),
        ("LoadZip", Zip2RepoError::Io("i".to_string()), 32),
        ("ValidateZip", Zip2RepoError::ZipValidation("z".to_string()), 30),
        ("CheckRepo", Zip2RepoError::GithubApi("g".to_string()), 21),
    ];
    for (at, err, code) in cases {
        let detail = match &err {
            Zip2RepoError::Usage(s)
            | Zip2RepoError::Network(s)
            | Zip2RepoError::Io(s)
            | Zip2RepoError::ZipValidation(s)
            | Zip2RepoError::GithubApi(s)
            | Zip2RepoError::Permission(s)
            | Zip2RepoError::GitPush(s) => s.clone(),
        };
        let cell = std::cell::RefCell::new(Some(err));
        let trace = drive(&opts(false, false), |s| {
            if name(s) == at {
                if let Some(e) = cell.borrow_mut().take() {
                    return StepOutcome::Failed(e);
                }
            }
            match s {
                RunStep::CheckRepo => StepOutcome::RepoExists(true),
                _ => StepOutcome::Done,
            }
        });
        assert_eq!(trace.last().unwrap(), &format!("Exit({}, Some({:?}))", code, detail));
    }
}

#[test]
fn map_err_uses_the_exit_code_table() {
    let cases = vec![
        (Zip2RepoError::Usage("a".to_string()), FAIL_CONFIG_OR_USAGE),
        (Zip2RepoError::Permission("a".to_string()), FAIL_PERMISSION),
        (Zip2RepoError::GithubApi("a".to_string()), FAIL_GITHUB_API),
        (Zip2RepoError::GitPush("a".to_string()), FAIL_GIT_PUSH),
        (Zip2RepoError::ZipValidation("a".to_string()), FAIL_ZIP_VALIDATION),
        (Zip2RepoError::Network("a".to_string()), FAIL_NETWORK_FETCH),
        (Zip2RepoError::Io("a".to_string()), FAIL_IO),
    ];
    for (e, code) in cases {
        assert_eq!(map_err(e), ("a".to_string(), code));
    }
    assert_eq!((SUCCESS_FULL, SUCCESS_ARTIFACTS_ONLY), (0, 10));
    assert_eq!((FAIL_PERMISSION, FAIL_GITHUB_API, FAIL_GIT_PUSH), (20, 21, 22));
    assert_eq!((FAIL_ZIP_VALIDATION, FAIL_NETWORK_FETCH, FAIL_IO, FAIL_CONFIG_OR_USAGE), (30, 31, 32, 40));
}

#[test]
fn error_messages() {
    assert_eq!(Zip2RepoError::Usage("x".to_string()).message(), "usage/config error: x");
    assert_eq!(Zip2RepoError::Permission("x".to_string()).message(), "permission denied: x");
    assert_eq!(Zip2RepoError::GithubApi("x".to_string()).message(), "github api error: x");
    assert_eq!(Zip2RepoError::GitPush("x".to_string()).message(), "git push error: x");
    assert_eq!(Zip2RepoError::ZipValidation("x".to_string()).message(), "zip validation failed: x");
    assert_eq!(Zip2RepoError::Network("x".to_string()).message(), "network fetch failed: x");
    assert_eq!(Zip2RepoError::Io("x".to_string()).message(), "io error: x");
}

#[test]
fn run_options_from_command_line() {
    let cli = Cli {
        zip: "a.zip".to_string(),
        owner: "acme".to_string(),
        repo: "demo".to_string(),
        private: false,
        public: true,
        apply_settings: true,
        dry_run: false,
        stack: Stack::Auto,
        auth: AuthMode::Auto,
        verbose: false,
    };
    let o = run_options(&cli);
    assert!(!o.private && o.public && o.apply_settings && !o.dry_run);
}
