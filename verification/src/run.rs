use vstd::prelude::*;
use crate::cli::Cli;
use crate::error::Zip2RepoError;
use crate::exit_codes::{
    FAIL_CONFIG_OR_USAGE, FAIL_GITHUB_API, FAIL_GIT_PUSH, FAIL_IO, FAIL_NETWORK_FETCH,
    FAIL_PERMISSION, FAIL_ZIP_VALIDATION, SUCCESS_ARTIFACTS_ONLY, SUCCESS_FULL,
};
use crate::github::models::SettingsResult;

verus! {

/// The exit code that goes with each kind of error.
pub open spec fn error_code(e: Zip2RepoError) -> i32 {
    match e {
        Zip2RepoError::Usage(_) => FAIL_CONFIG_OR_USAGE,
        Zip2RepoError::Permission(_) => FAIL_PERMISSION,
        Zip2RepoError::GithubApi(_) => FAIL_GITHUB_API,
        Zip2RepoError::GitPush(_) => FAIL_GIT_PUSH,
        Zip2RepoError::ZipValidation(_) => FAIL_ZIP_VALIDATION,
        Zip2RepoError::Network(_) => FAIL_NETWORK_FETCH,
        Zip2RepoError::Io(_) => FAIL_IO,
    }
}

/// Turns an error into what the program prints and the code it exits with.
pub fn map_err(e: Zip2RepoError) -> (r: (String, i32))
    ensures
        r.0@ == e.detail(),
        r.1 == error_code(e),
{
    match e {
        Zip2RepoError::Usage(s) => (s, FAIL_CONFIG_OR_USAGE),
        Zip2RepoError::Permission(s) => (s, FAIL_PERMISSION),
        Zip2RepoError::GithubApi(s) => (s, FAIL_GITHUB_API),
        Zip2RepoError::GitPush(s) => (s, FAIL_GIT_PUSH),
        Zip2RepoError::ZipValidation(s) => (s, FAIL_ZIP_VALIDATION),
        Zip2RepoError::Network(s) => (s, FAIL_NETWORK_FETCH),
        Zip2RepoError::Io(s) => (s, FAIL_IO),
    }
}

/// The flags that steer a run.
#[derive(Debug, Clone, Copy)]
pub struct RunOptions {
    pub private: bool,
    pub public: bool,
    pub dry_run: bool,
    pub apply_settings: bool,
}

/// The flags of a command line that steer the run.
pub fn run_options(cli: &Cli) -> (o: RunOptions)
    ensures
        o.private == cli.private,
        o.public == cli.public,
        o.dry_run == cli.dry_run,
        o.apply_settings == cli.apply_settings,
{
    RunOptions {
        private: cli.private,
        public: cli.public,
        dry_run: cli.dry_run,
        apply_settings: cli.apply_settings,
    }
}

/// A step of a run: the outside work to do next, or the end.
#[derive(Debug)]
pub enum RunStep {
    /// Get a GitHub token.
    AcquireToken,
    /// Load the archive's bytes (download or read).
    LoadZip,
    /// Open the archive and validate it.
    ValidateZip,
    /// Open the archive again and extract it into a temporary directory.
    ExtractZip,
    /// Resolve the stack and write the scaffold.
    Scaffold,
    /// Report what a real run would do.
    ReportDryRun,
    /// Ask GitHub whether the repository exists.
    CheckRepo,
    /// Create the repository in the owner's organization.
    CreateInOrg,
    /// Create the repository for the authenticated user.
    CreateForUser,
    /// Initialize git in the tree and commit it.
    Commit,
    /// Add the remote and push.
    Push,
    /// Apply branch protection and verify it.
    ApplySettings,
    /// Stop with this exit code, printing the message if there is one.
    Exit { code: i32, message: Option<String> },
}

/// How a step went.
#[derive(Debug)]
pub enum StepOutcome {
    /// The step succeeded.
    Done,
    /// The step failed with this error.
    Failed(Zip2RepoError),
    /// `CheckRepo` succeeded: whether the repository exists.
    RepoExists(bool),
    /// `ApplySettings` succeeded with this result.
    Settings(SettingsResult),
}

/// A step in plain terms.
pub enum Step {
    AcquireToken,
    LoadZip,
    ValidateZip,
    ExtractZip,
    Scaffold,
    ReportDryRun,
    CheckRepo,
    CreateInOrg,
    CreateForUser,
    Commit,
    Push,
    ApplySettings,
    Exit(i32, Option<Seq<char>>),
}

/// A run step in plain terms.
pub open spec fn step_view(s: RunStep) -> Step {
    match s {
        RunStep::AcquireToken => Step::AcquireToken,
        RunStep::LoadZip => Step::LoadZip,
        RunStep::ValidateZip => Step::ValidateZip,
        RunStep::ExtractZip => Step::ExtractZip,
        RunStep::Scaffold => Step::Scaffold,
        RunStep::ReportDryRun => Step::ReportDryRun,
        RunStep::CheckRepo => Step::CheckRepo,
        RunStep::CreateInOrg => Step::CreateInOrg,
        RunStep::CreateForUser => Step::CreateForUser,
        RunStep::Commit => Step::Commit,
        RunStep::Push => Step::Push,
        RunStep::ApplySettings => Step::ApplySettings,
        RunStep::Exit { code, message } => Step::Exit(code, match message {
            Some(m) => Some(m@),
            None => None,
        }),
    }
}

/// The outcome fits the step: `CheckRepo` reports existence, `ApplySettings`
/// a settings result, a dry-run report cannot fail, the other steps succeed
/// or fail; an exit has no outcome.
pub open spec fn outcome_fits(s: Step, o: StepOutcome) -> bool {
    match s {
        Step::Exit(_, _) => false,
        Step::CheckRepo => o is RepoExists || o is Failed,
        Step::ApplySettings => o is Settings || o is Failed,
        Step::ReportDryRun => o is Done,
        _ => o is Done || o is Failed,
    }
}

/// Where a run starts: exactly one of private and public must be chosen.
pub open spec fn spec_start(opts: RunOptions) -> Step {
    if opts.private == opts.public {
        Step::Exit(FAIL_CONFIG_OR_USAGE, Some("Must set exactly one of --private or --public"@))
    } else {
        Step::AcquireToken
    }
}

/// Where a run goes after a step with its outcome.
pub open spec fn spec_next(opts: RunOptions, s: Step, o: StepOutcome) -> Step {
    match o {
        StepOutcome::Failed(e) => match s {
            Step::CreateInOrg => Step::CreateForUser,
            Step::CreateForUser => Step::Exit(FAIL_PERMISSION, Some(e.spec_label() + e.detail())),
            Step::Commit => Step::Exit(FAIL_IO, Some(e.spec_label() + e.detail())),
            Step::Push => Step::Exit(FAIL_GIT_PUSH, Some(e.spec_label() + e.detail())),
            _ => Step::Exit(error_code(e), Some(e.detail())),
        },
        StepOutcome::RepoExists(exists) => if exists { Step::Commit } else { Step::CreateInOrg },
        StepOutcome::Settings(r) => Step::Exit(if r.verified { SUCCESS_FULL } else { SUCCESS_ARTIFACTS_ONLY }, None),
        StepOutcome::Done => match s {
            Step::AcquireToken => Step::LoadZip,
            Step::LoadZip => Step::ValidateZip,
            Step::ValidateZip => Step::ExtractZip,
            Step::ExtractZip => Step::Scaffold,
            Step::Scaffold => if opts.dry_run { Step::ReportDryRun } else { Step::CheckRepo },
            Step::ReportDryRun => Step::Exit(SUCCESS_ARTIFACTS_ONLY, None),
            Step::CreateInOrg => Step::Commit,
            Step::CreateForUser => Step::Commit,
            Step::Commit => Step::Push,
            Step::Push => if opts.apply_settings { Step::ApplySettings } else { Step::Exit(SUCCESS_ARTIFACTS_ONLY, None) },
            _ => s,
        },
    }
}

/// The first step of a run: a usage error unless exactly one of
/// `--private` and `--public` is set, else getting a token.
pub fn start(opts: &RunOptions) -> (s: RunStep)
    ensures
        step_view(s) == spec_start(*opts),
{
    if opts.private == opts.public {
        RunStep::Exit {
            code: FAIL_CONFIG_OR_USAGE,
            message: Some(String::from_str("Must set exactly one of --private or --public")),
        }
    } else {
        RunStep::AcquireToken
    }
}

/// Decides the step after `step`, given how it went. The local work comes
/// first (token, load, validate, extract, scaffold); a dry run ends there.
/// Then the repository is looked up and, if missing, created in the owner's
/// organization or, failing that, for the user; the tree is committed and
/// pushed; settings are applied when asked for. A run exits with 0 only
/// when the settings were applied and verified, with 10 when artifacts were
/// produced, and with the code of the error otherwise.
pub fn next_step(opts: &RunOptions, step: &RunStep, outcome: StepOutcome) -> (s: RunStep)
    requires
        outcome_fits(step_view(*step), outcome),
    ensures
        step_view(s) == spec_next(*opts, step_view(*step), outcome),
{
    match outcome {
        StepOutcome::Failed(e) => match step {
            RunStep::CreateInOrg => RunStep::CreateForUser,
            RunStep::CreateForUser => RunStep::Exit { code: FAIL_PERMISSION, message: Some(e.message()) },
            RunStep::Commit => RunStep::Exit { code: FAIL_IO, message: Some(e.message()) },
            RunStep::Push => RunStep::Exit { code: FAIL_GIT_PUSH, message: Some(e.message()) },
            _ => {
                let (m, code) = map_err(e);
                RunStep::Exit { code, message: Some(m) }
            },
        },
        StepOutcome::RepoExists(exists) => if exists { RunStep::Commit } else { RunStep::CreateInOrg },
        StepOutcome::Settings(r) => RunStep::Exit {
            code: if r.verified { SUCCESS_FULL } else { SUCCESS_ARTIFACTS_ONLY },
            message: None,
        },
        StepOutcome::Done => match step {
            RunStep::AcquireToken => RunStep::LoadZip,
            RunStep::LoadZip => RunStep::ValidateZip,
            RunStep::ValidateZip => RunStep::ExtractZip,
            RunStep::ExtractZip => RunStep::Scaffold,
            RunStep::Scaffold => if opts.dry_run { RunStep::ReportDryRun } else { RunStep::CheckRepo },
            RunStep::ReportDryRun => RunStep::Exit { code: SUCCESS_ARTIFACTS_ONLY, message: None },
            RunStep::CreateInOrg => RunStep::Commit,
            RunStep::CreateForUser => RunStep::Commit,
            RunStep::Commit => RunStep::Push,
            RunStep::Push => if opts.apply_settings {
                RunStep::ApplySettings
            } else {
                RunStep::Exit { code: SUCCESS_ARTIFACTS_ONLY, message: None }
            },
            // `requires` rules these out: `CheckRepo` and `ApplySettings`
            // report other outcomes, and an exit is never performed.
            RunStep::CheckRepo => RunStep::CheckRepo,
            RunStep::ApplySettings => RunStep::ApplySettings,
            RunStep::Exit { code, message } => RunStep::Exit { code: *code, message: None },
        },
    }
}

/// The steps that talk to GitHub or publish the tree.
pub open spec fn publishes(s: Step) -> bool {
    s is CheckRepo || s is CreateInOrg || s is CreateForUser || s is Commit || s is Push || s is ApplySettings
}

/// A dry run stays local: it starts locally, and from a local step it only
/// ever moves to a local step, so it never reaches GitHub.
pub proof fn lemma_dry_run_stays_local(opts: RunOptions, s: Step, o: StepOutcome)
    requires
        opts.dry_run,
        !publishes(s),
        outcome_fits(s, o),
    ensures
        !publishes(spec_start(opts)),
        !publishes(spec_next(opts, s, o)),
{
}

/// Full success needs verified settings: a run exits with `SUCCESS_FULL`
/// only right after settings were applied and the readback verified them,
/// and settings are only applied when asked for, after the push.
pub proof fn lemma_full_success_needs_verified_settings(opts: RunOptions, s: Step, o: StepOutcome)
    requires
        outcome_fits(s, o),
    ensures
        (spec_next(opts, s, o) matches Step::Exit(code, _) && code == SUCCESS_FULL)
            ==> (s is ApplySettings && (o matches StepOutcome::Settings(r) && r.verified)),
        spec_next(opts, s, o) is ApplySettings ==> s is Push && opts.apply_settings,
        !(spec_start(opts) matches Step::Exit(code, _) && code == SUCCESS_FULL),
{
}

/// Fail-closed: the archive is extracted only after it was validated, and
/// nothing is published before the scaffold is written.
pub proof fn lemma_extract_only_after_validation(opts: RunOptions, s: Step, o: StepOutcome)
    requires
        outcome_fits(s, o),
    ensures
        spec_next(opts, s, o) is ExtractZip ==> s is ValidateZip && o is Done,
        spec_next(opts, s, o) is CheckRepo ==> s is Scaffold && o is Done && !opts.dry_run,
{
}

/// A repository is created only when the lookup found none, in the owner's
/// organization first and for the user only when that failed.
pub proof fn lemma_creates_only_missing_repo(opts: RunOptions, s: Step, o: StepOutcome)
    requires
        outcome_fits(s, o),
    ensures
        spec_next(opts, s, o) is CreateInOrg ==> s is CheckRepo && o == StepOutcome::RepoExists(false),
        spec_next(opts, s, o) is CreateForUser ==> s is CreateInOrg && o is Failed,
{
}

/// After a successful push, settings are applied exactly when asked for;
/// without the request the run ends with `SUCCESS_ARTIFACTS_ONLY` and no
/// message.
pub proof fn lemma_settings_applied_when_asked(opts: RunOptions)
    ensures
        opts.apply_settings ==> spec_next(opts, Step::Push, StepOutcome::Done) is ApplySettings,
        !opts.apply_settings ==> spec_next(opts, Step::Push, StepOutcome::Done) == Step::Exit(10, None),
{
}

/// Visibility only gates the start: once a run has started, the flow does
/// not depend on which of private and public was chosen, only on the dry-run
/// and settings flags.
pub proof fn lemma_flow_ignores_visibility(a: RunOptions, b: RunOptions, s: Step, o: StepOutcome)
    requires
        a.dry_run == b.dry_run,
        a.apply_settings == b.apply_settings,
    ensures
        spec_next(a, s, o) == spec_next(b, s, o),
        (a.private != a.public && b.private != b.public) ==> spec_start(a) == spec_start(b),
{
}

/// A failed step never ends in success: a failure either leads on to the
/// user fallback (after the organization create) or exits with a failure code.
pub proof fn lemma_failure_exits_with_failure_code(opts: RunOptions, s: Step, e: Zip2RepoError)
    requires
        outcome_fits(s, StepOutcome::Failed(e)),
    ensures
        s is CreateInOrg ==> spec_next(opts, s, StepOutcome::Failed(e)) is CreateForUser,
        !(s is CreateInOrg) ==> (spec_next(opts, s, StepOutcome::Failed(e)) matches Step::Exit(code, Some(_))
            && code >= FAIL_PERMISSION),
{
}

} // verus!
