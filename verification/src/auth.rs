use vstd::prelude::*;
use crate::cli::AuthMode;
use crate::error::Zip2RepoError;
use crate::text::{concat_str, lemma_trim_idempotent, spec_trim, trim};

verus! {

/// How a run of `gh auth token` ended.
#[derive(Debug)]
pub enum GhOutcome {
    /// The program could not be started; the text of the I/O error.
    SpawnFailed(String),
    /// The program ran: whether it exited successfully, and its standard
    /// output read as UTF-8 (invalid sequences replaced).
    Finished { success: bool, stdout: String },
}

/// The next thing to do to get a token.
#[derive(Debug)]
pub enum TokenStep {
    /// Run `gh auth token` and report how it ended.
    RunGh,
    /// Read the `GITHUB_TOKEN` environment variable and report its value
    /// (`None` when it is unset or not Unicode).
    ReadEnv,
    /// The token, or why there is none.
    Done(Result<String, Zip2RepoError>),
}

/// The outcome of a token source: the token, or the text of a usage error.
pub type TokenOutcome = Result<Seq<char>, Seq<char>>;

/// The executable result says what the spec outcome says.
pub open spec fn token_result_is(r: Result<String, Zip2RepoError>, o: TokenOutcome) -> bool {
    match o {
        Ok(t) => r matches Ok(s) && s@ == t,
        Err(m) => r matches Err(Zip2RepoError::Usage(s)) && s@ == m,
    }
}

/// The token that a run of `gh auth token` gives.
pub open spec fn spec_token_from_gh(o: GhOutcome) -> TokenOutcome {
    match o {
        GhOutcome::SpawnFailed(e) => Err("Failed to run gh: "@ + e@),
        GhOutcome::Finished { success, stdout } => if !success {
            Err("gh auth token failed; run `gh auth login` or use GITHUB_TOKEN"@)
        } else if spec_trim(stdout@).len() == 0 {
            Err("gh returned empty token"@)
        } else {
            Ok(spec_trim(stdout@))
        },
    }
}

/// The token that the `GITHUB_TOKEN` variable gives: its value, unless it is
/// unset or blank.
pub open spec fn spec_token_from_env(var: Option<String>) -> TokenOutcome {
    match var {
        None => Err("Set GITHUB_TOKEN (fine-grained PAT) or use --auth gh"@),
        Some(t) => if spec_trim(t@).len() == 0 {
            Err("GITHUB_TOKEN is empty"@)
        } else {
            Ok(t@)
        },
    }
}

/// The next step, in plain terms.
pub enum SpecTokenStep {
    RunGh,
    ReadEnv,
    Done(TokenOutcome),
}

/// The decision: given the mode and what has been observed so far (`gh`: how
/// `gh auth token` ended, if it was run; `env`: the variable, if it was
/// read), what to do next. `Gh` and `Pat` use their one source; `App` is
/// not available; `Auto` runs `gh` first and reads the variable only when
/// `gh` gives no token.
pub open spec fn spec_acquire_token(mode: AuthMode, gh: Option<GhOutcome>, env: Option<Option<String>>) -> SpecTokenStep {
    match mode {
        AuthMode::Gh => match gh {
            None => SpecTokenStep::RunGh,
            Some(o) => SpecTokenStep::Done(spec_token_from_gh(o)),
        },
        AuthMode::Pat => match env {
            None => SpecTokenStep::ReadEnv,
            Some(v) => SpecTokenStep::Done(spec_token_from_env(v)),
        },
        AuthMode::App => SpecTokenStep::Done(Err("GitHub App auth not implemented in v0.1"@)),
        AuthMode::Auto => match gh {
            None => SpecTokenStep::RunGh,
            Some(o) => if spec_token_from_gh(o) is Ok {
                SpecTokenStep::Done(spec_token_from_gh(o))
            } else {
                match env {
                    None => SpecTokenStep::ReadEnv,
                    Some(v) => SpecTokenStep::Done(spec_token_from_env(v)),
                }
            },
        },
    }
}

/// The executable step is the spec step.
pub open spec fn token_step_is(s: TokenStep, t: SpecTokenStep) -> bool {
    match t {
        SpecTokenStep::RunGh => s is RunGh,
        SpecTokenStep::ReadEnv => s is ReadEnv,
        SpecTokenStep::Done(o) => s matches TokenStep::Done(r) && token_result_is(r, o),
    }
}

/// The token from the `GITHUB_TOKEN` variable (`None` when it is unset or
/// not Unicode). A blank value is refused; otherwise the value is used as it is.
pub fn token_from_env(var: &Option<String>) -> (r: Result<String, Zip2RepoError>)
    ensures
        token_result_is(r, spec_token_from_env(*var)),
{
    match var {
        None => Err(Zip2RepoError::Usage(String::from_str("Set GITHUB_TOKEN (fine-grained PAT) or use --auth gh"))),
        Some(t) => {
            let trimmed = trim(t.as_str());
            if trimmed.as_str().unicode_len() == 0 {
                return Err(Zip2RepoError::Usage(String::from_str("GITHUB_TOKEN is empty")));
            }
            Ok(t.clone())
        },
    }
}

/// The token from a run of `gh auth token`: its trimmed output, when the
/// program ran, succeeded and printed something.
pub fn token_from_gh(out: &GhOutcome) -> (r: Result<String, Zip2RepoError>)
    ensures
        token_result_is(r, spec_token_from_gh(*out)),
{
    match out {
        GhOutcome::SpawnFailed(e) => Err(Zip2RepoError::Usage(concat_str("Failed to run gh: ", e.as_str()))),
        GhOutcome::Finished { success, stdout } => {
            if !*success {
                return Err(Zip2RepoError::Usage(String::from_str(
                    "gh auth token failed; run `gh auth login` or use GITHUB_TOKEN",
                )));
            }
            let s = trim(stdout.as_str());
            if s.as_str().unicode_len() == 0 {
                return Err(Zip2RepoError::Usage(String::from_str("gh returned empty token")));
            }
            Ok(s)
        },
    }
}

/// Decides the next step towards a token, from the mode and what has been
/// observed so far: `gh` is how `gh auth token` ended, if it was run; `env`
/// is the value of `GITHUB_TOKEN`, if it was read. The caller performs the
/// step it is given and asks again, until the answer is `Done`.
pub fn acquire_token(mode: AuthMode, gh: &Option<GhOutcome>, env: &Option<Option<String>>) -> (s: TokenStep)
    ensures
        token_step_is(s, spec_acquire_token(mode, *gh, *env)),
{
    match mode {
        AuthMode::Gh => match gh {
            None => TokenStep::RunGh,
            Some(o) => TokenStep::Done(token_from_gh(o)),
        },
        AuthMode::Pat => match env {
            None => TokenStep::ReadEnv,
            Some(v) => TokenStep::Done(token_from_env(v)),
        },
        AuthMode::App => TokenStep::Done(Err(Zip2RepoError::Usage(String::from_str(
            "GitHub App auth not implemented in v0.1",
        )))),
        AuthMode::Auto => match gh {
            None => TokenStep::RunGh,
            Some(o) => {
                let from_gh = token_from_gh(o);
                match from_gh {
                    Ok(t) => TokenStep::Done(Ok(t)),
                    Err(_) => match env {
                        None => TokenStep::ReadEnv,
                        Some(v) => TokenStep::Done(token_from_env(v)),
                    },
                }
            },
        },
    }
}

/// A token is never blank: whatever the mode and whatever the sources say,
/// a token that acquisition hands out has something besides white space.
pub proof fn lemma_token_never_blank(mode: AuthMode, gh: Option<GhOutcome>, env: Option<Option<String>>)
    ensures
        spec_acquire_token(mode, gh, env) matches SpecTokenStep::Done(Ok(t)) ==> spec_trim(t).len() > 0,
{
    if let Some(GhOutcome::Finished { success, stdout }) = gh {
        lemma_trim_idempotent(stdout@);
    }
}

/// Acquisition ends within three steps: performing each step it asks for
/// and asking again, at most two observations are needed before `Done`.
pub proof fn lemma_acquire_token_terminates(mode: AuthMode, o: GhOutcome, v: Option<String>)
    ensures
        spec_acquire_token(mode, Some(o), Some(v)) is Done,
        spec_acquire_token(mode, None, None) is RunGh ==> !(spec_acquire_token(mode, Some(o), None) is RunGh),
        spec_acquire_token(mode, None, None) is ReadEnv ==> spec_acquire_token(mode, None, Some(v)) is Done,
{
}

/// With `Auto`, a token from `gh` is used and the environment is not read;
/// only when `gh` gives none does the environment decide.
pub proof fn lemma_auto_prefers_gh(o: GhOutcome, env: Option<Option<String>>)
    ensures
        spec_token_from_gh(o) is Ok ==> spec_acquire_token(AuthMode::Auto, Some(o), env)
            == SpecTokenStep::Done(spec_token_from_gh(o)),
        spec_token_from_gh(o) is Err ==> spec_acquire_token(AuthMode::Auto, Some(o), env)
            == spec_acquire_token(AuthMode::Pat, None, env),
{
}

} // verus!
