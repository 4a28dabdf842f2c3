use vstd::prelude::*;
use crate::github::models::SettingsResult;
use crate::text::concat_str;

verus! {

/// The key of the review rules in a branch protection.
pub const REVIEWS_KEY: &'static str = "required_pull_request_reviews";
/// The key of the status check rules in a branch protection.
pub const CHECKS_KEY: &'static str = "required_status_checks";

/// Status checks that must pass before merging.
#[derive(Debug)]
pub struct RequiredStatusChecks {
    pub strict: bool,
    pub contexts: Vec<String>,
}

/// Review rules for pull requests.
#[derive(Debug)]
pub struct RequiredReviews {
    pub dismiss_stale_reviews: bool,
    pub required_approving_review_count: u32,
}

/// The branch protection that is applied to `main`.
#[derive(Debug)]
pub struct BranchProtection {
    pub required_status_checks: RequiredStatusChecks,
    pub enforce_admins: bool,
    pub required_pull_request_reviews: RequiredReviews,
    /// Push restrictions; `None` means none.
    pub restrictions: Option<Vec<String>>,
    pub allow_force_pushes: bool,
}

/// The status checks that the protection requires: `build` and `test`.
pub fn required_check_names() -> (v: Vec<String>)
    ensures
        v@.map_values(|s: String| s@) == seq!["build"@, "test"@],
{
    let mut v: Vec<String> = Vec::new();
    v.push(String::from_str("build"));
    v.push(String::from_str("test"));
    assert(v@.map_values(|s: String| s@) =~= seq!["build"@, "test"@]);
    v
}

/// The route of the protection of branch `main` of `owner/repo`.
pub fn branch_protection_route(owner: &str, repo: &str) -> (r: String)
    ensures
        r@ == "/repos/"@ + owner@ + "/"@ + repo@ + "/branches/main/protection"@,
{
    let a = concat_str("/repos/", owner);
    let b = concat_str(a.as_str(), "/");
    let c = concat_str(b.as_str(), repo);
    concat_str(c.as_str(), "/branches/main/protection")
}

/// The protection for `main`: the given checks must pass on an up-to-date
/// branch, one approving review is needed and stale ones are dismissed,
/// force pushes are refused, administrators are not bound, no push
/// restrictions.
pub fn branch_protection_payload(check_names: &Vec<String>) -> (p: BranchProtection)
    ensures
        p.required_status_checks.strict,
        p.required_status_checks.contexts@.map_values(|s: String| s@)
            == check_names@.map_values(|s: String| s@),
        !p.enforce_admins,
        p.required_pull_request_reviews.dismiss_stale_reviews,
        p.required_pull_request_reviews.required_approving_review_count == 1,
        p.restrictions is None,
        !p.allow_force_pushes,
{
    let mut contexts: Vec<String> = Vec::new();
    let mut i: usize = 0;
    while i < check_names.len()
        invariant
            i <= check_names.len(),
            contexts.len() == i,
            forall|j: int| 0 <= j < i ==> #[trigger] contexts@[j]@ == check_names@[j]@,
        decreases check_names.len() - i,
    {
        let c = check_names[i].clone();
        contexts.push(c);
        i = i + 1;
    }
    assert(contexts@.map_values(|s: String| s@) =~= check_names@.map_values(|s: String| s@));
    BranchProtection {
        required_status_checks: RequiredStatusChecks { strict: true, contexts },
        enforce_admins: false,
        required_pull_request_reviews: RequiredReviews {
            dismiss_stale_reviews: true,
            required_approving_review_count: 1,
        },
        restrictions: None,
        allow_force_pushes: false,
    }
}

/// The next thing to do once the protection has been sent.
#[derive(Debug)]
pub enum SettingsStep {
    /// Read the protection back, and report the keys of the object that came
    /// back (`None` when the read failed or gave no object).
    Readback,
    /// Done, with this result.
    Finished(SettingsResult),
}

/// Decides after sending the protection: a refused protection ends with
/// nothing applied and nothing verified; an accepted one is read back.
pub fn after_apply(applied: bool) -> (s: SettingsStep)
    ensures
        applied ==> s is Readback,
        !applied ==> s == SettingsStep::Finished(SettingsResult {
            branch_protection_applied: false,
            status_checks_applied: false,
            verified: false,
        }),
{
    if applied {
        SettingsStep::Readback
    } else {
        SettingsStep::Finished(SettingsResult {
            branch_protection_applied: false,
            status_checks_applied: false,
            verified: false,
        })
    }
}

fn has_key(keys: &Vec<String>, key: &str) -> (b: bool)
    ensures
        b == keys@.map_values(|s: String| s@).contains(key@),
{
    let ghost ks = keys@.map_values(|s: String| s@);
    let wanted = String::from_str(key);
    let mut i: usize = 0;
    while i < keys.len()
        invariant
            ks == keys@.map_values(|s: String| s@),
            wanted@ == key@,
            i <= keys.len(),
            forall|j: int| 0 <= j < i ==> ks[j] != key@,
        decreases keys.len() - i,
    {
        if keys[i] == wanted {
            assert(ks[i as int] == key@);
            return true;
        }
        i = i + 1;
    }
    false
}

/// Whether the protection read back is the one that was meant: it holds
/// both review rules and status check rules.
pub open spec fn readback_verified(keys: Option<Seq<Seq<char>>>) -> bool {
    keys matches Some(ks) && ks.contains(REVIEWS_KEY@) && ks.contains(CHECKS_KEY@)
}

/// The result after an accepted protection has been read back: applied, and
/// verified when the object read back holds both rule sets. `keys` are the
/// keys of that object, `None` when the read failed or gave no object.
pub fn after_readback(keys: &Option<Vec<String>>) -> (r: SettingsResult)
    ensures
        r.branch_protection_applied,
        r.status_checks_applied,
        r.verified == readback_verified(match keys {
            Some(v) => Some(v@.map_values(|s: String| s@)),
            None => None,
        }),
{
    let verified = match keys {
        Some(v) => has_key(v, REVIEWS_KEY) && has_key(v, CHECKS_KEY),
        None => false,
    };
    SettingsResult { branch_protection_applied: true, status_checks_applied: true, verified }
}

/// A settings result never claims more than was done: verification needs
/// the protection to be applied, and the status checks are applied exactly
/// when the protection is.
pub proof fn lemma_settings_result_consistent(applied: bool, keys: Option<Seq<Seq<char>>>)
    ensures
        ({
            let r = if applied {
                SettingsResult { branch_protection_applied: true, status_checks_applied: true, verified: readback_verified(keys) }
            } else {
                SettingsResult { branch_protection_applied: false, status_checks_applied: false, verified: false }
            };
            &&& r.verified ==> r.branch_protection_applied
            &&& r.status_checks_applied == r.branch_protection_applied
        }),
{
}

} // verus!
