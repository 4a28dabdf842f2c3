use vstd::prelude::*;
use crate::cli::Stack;
use crate::scaffold::templates::{
    BUG_TEMPLATE, CI_YML_GENERIC, CI_YML_GO, CI_YML_NODE, CI_YML_PYTHON, CI_YML_RUST,
    CODE_OF_CONDUCT_MD, CONTRIBUTING_MD, DEPENDABOT_CARGO, DEPENDABOT_GOMOD, DEPENDABOT_NPM,
    DEPENDABOT_PIP, DEPENDABOT_YML_HEADER, FEATURE_TEMPLATE, INTEGRATIONS_MD, ISSUE_CONFIG,
    PR_TEMPLATE, README_MD, SECURITY_CODEQL_YML, SECURITY_MD, SETTINGS_CHECKLIST_MD,
};

verus! {

/// A file that the scaffold puts into the repository: its path relative to
/// the repository root and its content.
#[derive(Debug)]
pub struct ScaffoldFile {
    pub path: String,
    pub contents: String,
}

/// A scaffold file as plain text: (path, content).
pub open spec fn file_view(f: ScaffoldFile) -> (Seq<char>, Seq<char>) {
    (f.path@, f.contents@)
}

/// The CI workflow for a stack; stacks without a template of their own get
/// the generic one.
pub open spec fn spec_ci_yml(stack: Stack) -> Seq<char> {
    match stack {
        Stack::Rust => CI_YML_RUST@,
        Stack::Node => CI_YML_NODE@,
        Stack::Python => CI_YML_PYTHON@,
        Stack::Go => CI_YML_GO@,
        _ => CI_YML_GENERIC@,
    }
}

/// The Dependabot configuration for a stack: the GitHub Actions entry, then
/// the entries of the stack's package ecosystems (all four for `Multi`).
pub open spec fn spec_dependabot_yml(stack: Stack) -> Seq<char> {
    DEPENDABOT_YML_HEADER@ + match stack {
        Stack::Rust => DEPENDABOT_CARGO@,
        Stack::Node => DEPENDABOT_NPM@,
        Stack::Python => DEPENDABOT_PIP@,
        Stack::Go => DEPENDABOT_GOMOD@,
        Stack::Multi => DEPENDABOT_CARGO@ + DEPENDABOT_NPM@ + DEPENDABOT_PIP@ + DEPENDABOT_GOMOD@,
        _ => Seq::<char>::empty(),
    }
}

/// The minimum scaffold, in the order in which it is written.
pub open spec fn scaffold_plan(stack: Stack) -> Seq<(Seq<char>, Seq<char>)> {
    seq![
        ("README.md"@, README_MD@),
        ("SECURITY.md"@, SECURITY_MD@),
        ("CONTRIBUTING.md"@, CONTRIBUTING_MD@),
        ("CODE_OF_CONDUCT.md"@, CODE_OF_CONDUCT_MD@),
        ("docs/integrations.md"@, INTEGRATIONS_MD@),
        ("docs/repo-settings-checklist.md"@, SETTINGS_CHECKLIST_MD@),
        (".github/PULL_REQUEST_TEMPLATE.md"@, PR_TEMPLATE@),
        (".github/ISSUE_TEMPLATE/bug_report.yml"@, BUG_TEMPLATE@),
        (".github/ISSUE_TEMPLATE/feature_request.yml"@, FEATURE_TEMPLATE@),
        (".github/ISSUE_TEMPLATE/config.yml"@, ISSUE_CONFIG@),
        (".github/workflows/ci.yml"@, spec_ci_yml(stack)),
        (".github/workflows/security-codeql.yml"@, SECURITY_CODEQL_YML@),
        (".github/dependabot.yml"@, spec_dependabot_yml(stack)),
    ]
}

/// Every scaffold file carries its own template: the thirteen paths are
/// distinct, each fixed path holds its template, the CI workflow is the
/// stack's (the generic one for stacks without their own), and the
/// Dependabot file is the GitHub Actions entry followed by the stack's
/// ecosystems.
pub proof fn lemma_scaffold_paths_carry_their_templates(stack: Stack)
    ensures
        scaffold_plan(stack).len() == 13,
        forall|i: int, j: int| 0 <= i < j < 13 ==> (#[trigger] scaffold_plan(stack)[i]).0 != (#[trigger] scaffold_plan(stack)[j]).0,
        scaffold_plan(stack).contains(("README.md"@, README_MD@)),
        scaffold_plan(stack).contains(("SECURITY.md"@, SECURITY_MD@)),
        scaffold_plan(stack).contains(("CONTRIBUTING.md"@, CONTRIBUTING_MD@)),
        scaffold_plan(stack).contains(("CODE_OF_CONDUCT.md"@, CODE_OF_CONDUCT_MD@)),
        scaffold_plan(stack).contains(("docs/integrations.md"@, INTEGRATIONS_MD@)),
        scaffold_plan(stack).contains(("docs/repo-settings-checklist.md"@, SETTINGS_CHECKLIST_MD@)),
        scaffold_plan(stack).contains((".github/PULL_REQUEST_TEMPLATE.md"@, PR_TEMPLATE@)),
        scaffold_plan(stack).contains((".github/ISSUE_TEMPLATE/bug_report.yml"@, BUG_TEMPLATE@)),
        scaffold_plan(stack).contains((".github/ISSUE_TEMPLATE/feature_request.yml"@, FEATURE_TEMPLATE@)),
        scaffold_plan(stack).contains((".github/ISSUE_TEMPLATE/config.yml"@, ISSUE_CONFIG@)),
        scaffold_plan(stack).contains((".github/workflows/security-codeql.yml"@, SECURITY_CODEQL_YML@)),
        stack == Stack::Rust ==> scaffold_plan(stack).contains((".github/workflows/ci.yml"@, CI_YML_RUST@)),
        stack == Stack::Node ==> scaffold_plan(stack).contains((".github/workflows/ci.yml"@, CI_YML_NODE@)),
        stack == Stack::Python ==> scaffold_plan(stack).contains((".github/workflows/ci.yml"@, CI_YML_PYTHON@)),
        stack == Stack::Go ==> scaffold_plan(stack).contains((".github/workflows/ci.yml"@, CI_YML_GO@)),
        (stack == Stack::Auto || stack == Stack::Multi || stack == Stack::Other)
            ==> scaffold_plan(stack).contains((".github/workflows/ci.yml"@, CI_YML_GENERIC@)),
        stack == Stack::Rust ==> scaffold_plan(stack).contains((".github/dependabot.yml"@, DEPENDABOT_YML_HEADER@ + DEPENDABOT_CARGO@)),
        stack == Stack::Node ==> scaffold_plan(stack).contains((".github/dependabot.yml"@, DEPENDABOT_YML_HEADER@ + DEPENDABOT_NPM@)),
        stack == Stack::Python ==> scaffold_plan(stack).contains((".github/dependabot.yml"@, DEPENDABOT_YML_HEADER@ + DEPENDABOT_PIP@)),
        stack == Stack::Go ==> scaffold_plan(stack).contains((".github/dependabot.yml"@, DEPENDABOT_YML_HEADER@ + DEPENDABOT_GOMOD@)),
        stack == Stack::Multi ==> scaffold_plan(stack).contains((".github/dependabot.yml"@,
            DEPENDABOT_YML_HEADER@ + DEPENDABOT_CARGO@ + DEPENDABOT_NPM@ + DEPENDABOT_PIP@ + DEPENDABOT_GOMOD@)),
        (stack == Stack::Auto || stack == Stack::Other)
            ==> scaffold_plan(stack).contains((".github/dependabot.yml"@, DEPENDABOT_YML_HEADER@)),
{
    reveal_strlit("README.md");
    reveal_strlit("SECURITY.md");
    reveal_strlit("CONTRIBUTING.md");
    reveal_strlit("CODE_OF_CONDUCT.md");
    reveal_strlit("docs/integrations.md");
    reveal_strlit("docs/repo-settings-checklist.md");
    reveal_strlit(".github/PULL_REQUEST_TEMPLATE.md");
    reveal_strlit(".github/ISSUE_TEMPLATE/bug_report.yml");
    reveal_strlit(".github/ISSUE_TEMPLATE/feature_request.yml");
    reveal_strlit(".github/ISSUE_TEMPLATE/config.yml");
    reveal_strlit(".github/workflows/ci.yml");
    reveal_strlit(".github/workflows/security-codeql.yml");
    reveal_strlit(".github/dependabot.yml");
    assert(scaffold_plan(stack)[0] == ("README.md"@, README_MD@));
    assert(scaffold_plan(stack)[1] == ("SECURITY.md"@, SECURITY_MD@));
    assert(scaffold_plan(stack)[2] == ("CONTRIBUTING.md"@, CONTRIBUTING_MD@));
    assert(scaffold_plan(stack)[3] == ("CODE_OF_CONDUCT.md"@, CODE_OF_CONDUCT_MD@));
    assert(scaffold_plan(stack)[4] == ("docs/integrations.md"@, INTEGRATIONS_MD@));
    assert(scaffold_plan(stack)[5] == ("docs/repo-settings-checklist.md"@, SETTINGS_CHECKLIST_MD@));
    assert(scaffold_plan(stack)[6] == (".github/PULL_REQUEST_TEMPLATE.md"@, PR_TEMPLATE@));
    assert(scaffold_plan(stack)[7] == (".github/ISSUE_TEMPLATE/bug_report.yml"@, BUG_TEMPLATE@));
    assert(scaffold_plan(stack)[8] == (".github/ISSUE_TEMPLATE/feature_request.yml"@, FEATURE_TEMPLATE@));
    assert(scaffold_plan(stack)[9] == (".github/ISSUE_TEMPLATE/config.yml"@, ISSUE_CONFIG@));
    assert(scaffold_plan(stack)[11] == (".github/workflows/security-codeql.yml"@, SECURITY_CODEQL_YML@));
    assert(scaffold_plan(stack)[0].0.len() != scaffold_plan(stack)[1].0.len());
    assert(scaffold_plan(stack)[0].0.len() != scaffold_plan(stack)[2].0.len());
    assert(scaffold_plan(stack)[0].0.len() != scaffold_plan(stack)[3].0.len());
    assert(scaffold_plan(stack)[0].0.len() != scaffold_plan(stack)[4].0.len());
    assert(scaffold_plan(stack)[0].0.len() != scaffold_plan(stack)[5].0.len());
    assert(scaffold_plan(stack)[0].0.len() != scaffold_plan(stack)[6].0.len());
    assert(scaffold_plan(stack)[0].0.len() != scaffold_plan(stack)[7].0.len());
    assert(scaffold_plan(stack)[0].0.len() != scaffold_plan(stack)[8].0.len());
    assert(scaffold_plan(stack)[0].0.len() != scaffold_plan(stack)[9].0.len());
    assert(scaffold_plan(stack)[0].0.len() != scaffold_plan(stack)[10].0.len());
    assert(scaffold_plan(stack)[0].0.len() != scaffold_plan(stack)[11].0.len());
    assert(scaffold_plan(stack)[0].0.len() != scaffold_plan(stack)[12].0.len());
    assert(scaffold_plan(stack)[1].0.len() != scaffold_plan(stack)[2].0.len());
    assert(scaffold_plan(stack)[1].0.len() != scaffold_plan(stack)[3].0.len());
    assert(scaffold_plan(stack)[1].0.len() != scaffold_plan(stack)[4].0.len());
    assert(scaffold_plan(stack)[1].0.len() != scaffold_plan(stack)[5].0.len());
    assert(scaffold_plan(stack)[1].0.len() != scaffold_plan(stack)[6].0.len());
    assert(scaffold_plan(stack)[1].0.len() != scaffold_plan(stack)[7].0.len());
    assert(scaffold_plan(stack)[1].0.len() != scaffold_plan(stack)[8].0.len());
    assert(scaffold_plan(stack)[1].0.len() != scaffold_plan(stack)[9].0.len());
    assert(scaffold_plan(stack)[1].0.len() != scaffold_plan(stack)[10].0.len());
    assert(scaffold_plan(stack)[1].0.len() != scaffold_plan(stack)[11].0.len());
    assert(scaffold_plan(stack)[1].0.len() != scaffold_plan(stack)[12].0.len());
    assert(scaffold_plan(stack)[2].0.len() != scaffold_plan(stack)[3].0.len());
    assert(scaffold_plan(stack)[2].0.len() != scaffold_plan(stack)[4].0.len());
    assert(scaffold_plan(stack)[2].0.len() != scaffold_plan(stack)[5].0.len());
    assert(scaffold_plan(stack)[2].0.len() != scaffold_plan(stack)[6].0.len());
    assert(scaffold_plan(stack)[2].0.len() != scaffold_plan(stack)[7].0.len());
    assert(scaffold_plan(stack)[2].0.len() != scaffold_plan(stack)[8].0.len());
    assert(scaffold_plan(stack)[2].0.len() != scaffold_plan(stack)[9].0.len());
    assert(scaffold_plan(stack)[2].0.len() != scaffold_plan(stack)[10].0.len());
    assert(scaffold_plan(stack)[2].0.len() != scaffold_plan(stack)[11].0.len());
    assert(scaffold_plan(stack)[2].0.len() != scaffold_plan(stack)[12].0.len());
    assert(scaffold_plan(stack)[3].0.len() != scaffold_plan(stack)[4].0.len());
    assert(scaffold_plan(stack)[3].0.len() != scaffold_plan(stack)[5].0.len());
    assert(scaffold_plan(stack)[3].0.len() != scaffold_plan(stack)[6].0.len());
    assert(scaffold_plan(stack)[3].0.len() != scaffold_plan(stack)[7].0.len());
    assert(scaffold_plan(stack)[3].0.len() != scaffold_plan(stack)[8].0.len());
    assert(scaffold_plan(stack)[3].0.len() != scaffold_plan(stack)[9].0.len());
    assert(scaffold_plan(stack)[3].0.len() != scaffold_plan(stack)[10].0.len());
    assert(scaffold_plan(stack)[3].0.len() != scaffold_plan(stack)[11].0.len());
    assert(scaffold_plan(stack)[3].0.len() != scaffold_plan(stack)[12].0.len());
    assert(scaffold_plan(stack)[4].0.len() != scaffold_plan(stack)[5].0.len());
    assert(scaffold_plan(stack)[4].0.len() != scaffold_plan(stack)[6].0.len());
    assert(scaffold_plan(stack)[4].0.len() != scaffold_plan(stack)[7].0.len());
    assert(scaffold_plan(stack)[4].0.len() != scaffold_plan(stack)[8].0.len());
    assert(scaffold_plan(stack)[4].0.len() != scaffold_plan(stack)[9].0.len());
    assert(scaffold_plan(stack)[4].0.len() != scaffold_plan(stack)[10].0.len());
    assert(scaffold_plan(stack)[4].0.len() != scaffold_plan(stack)[11].0.len());
    assert(scaffold_plan(stack)[4].0.len() != scaffold_plan(stack)[12].0.len());
    assert(scaffold_plan(stack)[5].0.len() != scaffold_plan(stack)[6].0.len());
    assert(scaffold_plan(stack)[5].0.len() != scaffold_plan(stack)[7].0.len());
    assert(scaffold_plan(stack)[5].0.len() != scaffold_plan(stack)[8].0.len());
    assert(scaffold_plan(stack)[5].0.len() != scaffold_plan(stack)[9].0.len());
    assert(scaffold_plan(stack)[5].0.len() != scaffold_plan(stack)[10].0.len());
    assert(scaffold_plan(stack)[5].0.len() != scaffold_plan(stack)[11].0.len());
    assert(scaffold_plan(stack)[5].0.len() != scaffold_plan(stack)[12].0.len());
    assert(scaffold_plan(stack)[6].0.len() != scaffold_plan(stack)[7].0.len());
    assert(scaffold_plan(stack)[6].0.len() != scaffold_plan(stack)[8].0.len());
    assert(scaffold_plan(stack)[6].0.len() != scaffold_plan(stack)[9].0.len());
    assert(scaffold_plan(stack)[6].0.len() != scaffold_plan(stack)[10].0.len());
    assert(scaffold_plan(stack)[6].0.len() != scaffold_plan(stack)[11].0.len());
    assert(scaffold_plan(stack)[6].0.len() != scaffold_plan(stack)[12].0.len());
    assert(scaffold_plan(stack)[7].0.len() != scaffold_plan(stack)[8].0.len());
    assert(scaffold_plan(stack)[7].0.len() != scaffold_plan(stack)[9].0.len());
    assert(scaffold_plan(stack)[7].0.len() != scaffold_plan(stack)[10].0.len());
    assert(scaffold_plan(stack)[7].0[8] != scaffold_plan(stack)[11].0[8]);
    assert(scaffold_plan(stack)[7].0.len() != scaffold_plan(stack)[12].0.len());
    assert(scaffold_plan(stack)[8].0.len() != scaffold_plan(stack)[9].0.len());
    assert(scaffold_plan(stack)[8].0.len() != scaffold_plan(stack)[10].0.len());
    assert(scaffold_plan(stack)[8].0.len() != scaffold_plan(stack)[11].0.len());
    assert(scaffold_plan(stack)[8].0.len() != scaffold_plan(stack)[12].0.len());
    assert(scaffold_plan(stack)[9].0.len() != scaffold_plan(stack)[10].0.len());
    assert(scaffold_plan(stack)[9].0.len() != scaffold_plan(stack)[11].0.len());
    assert(scaffold_plan(stack)[9].0.len() != scaffold_plan(stack)[12].0.len());
    assert(scaffold_plan(stack)[10].0.len() != scaffold_plan(stack)[11].0.len());
    assert(scaffold_plan(stack)[10].0.len() != scaffold_plan(stack)[12].0.len());
    assert(scaffold_plan(stack)[11].0.len() != scaffold_plan(stack)[12].0.len());
    assert(scaffold_plan(stack)[10].0 == ".github/workflows/ci.yml"@);
    assert(scaffold_plan(stack)[12].0 == ".github/dependabot.yml"@);
    assert(DEPENDABOT_YML_HEADER@ + Seq::<char>::empty() =~= DEPENDABOT_YML_HEADER@);
    assert(DEPENDABOT_YML_HEADER@ + (DEPENDABOT_CARGO@ + DEPENDABOT_NPM@ + DEPENDABOT_PIP@ + DEPENDABOT_GOMOD@)
        =~= DEPENDABOT_YML_HEADER@ + DEPENDABOT_CARGO@ + DEPENDABOT_NPM@ + DEPENDABOT_PIP@ + DEPENDABOT_GOMOD@);
}

/// Select the appropriate CI workflow template based on detected stack.
pub fn ci_yml_for_stack(stack: &Stack) -> (s: &'static str)
    ensures
        s@ == spec_ci_yml(*stack),
{
    match stack {
        Stack::Rust => CI_YML_RUST,
        Stack::Node => CI_YML_NODE,
        Stack::Python => CI_YML_PYTHON,
        Stack::Go => CI_YML_GO,
        _ => CI_YML_GENERIC,
    }
}

/// Build the dependabot.yml content with ecosystem-specific entries.
pub fn dependabot_yml_for_stack(stack: &Stack) -> (content: String)
    ensures
        content@ == spec_dependabot_yml(*stack),
{
    let mut content = String::from_str(DEPENDABOT_YML_HEADER);
    match stack {
        Stack::Rust => content.append(DEPENDABOT_CARGO),
        Stack::Node => content.append(DEPENDABOT_NPM),
        Stack::Python => content.append(DEPENDABOT_PIP),
        Stack::Go => content.append(DEPENDABOT_GOMOD),
        Stack::Multi => {
            content.append(DEPENDABOT_CARGO);
            content.append(DEPENDABOT_NPM);
            content.append(DEPENDABOT_PIP);
            content.append(DEPENDABOT_GOMOD);
            assert(content@ =~= DEPENDABOT_YML_HEADER@ + (DEPENDABOT_CARGO@ + DEPENDABOT_NPM@
                + DEPENDABOT_PIP@ + DEPENDABOT_GOMOD@));
        },
        _ => {
            assert(content@ =~= DEPENDABOT_YML_HEADER@ + Seq::<char>::empty());
        },
    }
    content
}

fn scaffold_file(path: &str, contents: &str) -> (f: ScaffoldFile)
    ensures
        file_view(f) == (path@, contents@),
{
    ScaffoldFile { path: String::from_str(path), contents: String::from_str(contents) }
}

/// The minimum scaffold for a stack: community files, docs, GitHub
/// templates, the stack's CI workflow, a CodeQL workflow and the stack's
/// Dependabot configuration.
pub fn scaffold_minimum(stack: &Stack) -> (files: Vec<ScaffoldFile>)
    ensures
        files@.map_values(|f: ScaffoldFile| file_view(f)) == scaffold_plan(*stack),
{
    let mut files: Vec<ScaffoldFile> = Vec::new();
    files.push(scaffold_file("README.md", README_MD));
    files.push(scaffold_file("SECURITY.md", SECURITY_MD));
    files.push(scaffold_file("CONTRIBUTING.md", CONTRIBUTING_MD));
    files.push(scaffold_file("CODE_OF_CONDUCT.md", CODE_OF_CONDUCT_MD));
    files.push(scaffold_file("docs/integrations.md", INTEGRATIONS_MD));
    files.push(scaffold_file("docs/repo-settings-checklist.md", SETTINGS_CHECKLIST_MD));
    files.push(scaffold_file(".github/PULL_REQUEST_TEMPLATE.md", PR_TEMPLATE));
    files.push(scaffold_file(".github/ISSUE_TEMPLATE/bug_report.yml", BUG_TEMPLATE));
    files.push(scaffold_file(".github/ISSUE_TEMPLATE/feature_request.yml", FEATURE_TEMPLATE));
    files.push(scaffold_file(".github/ISSUE_TEMPLATE/config.yml", ISSUE_CONFIG));
    files.push(scaffold_file(".github/workflows/ci.yml", ci_yml_for_stack(stack)));
    files.push(scaffold_file(".github/workflows/security-codeql.yml", SECURITY_CODEQL_YML));
    let dependabot = dependabot_yml_for_stack(stack);
    files.push(scaffold_file(".github/dependabot.yml", dependabot.as_str()));
    assert(files@.map_values(|f: ScaffoldFile| file_view(f)) =~= scaffold_plan(*stack));
    files
}

/// The files of the plan that are still to be written: those that do not
/// exist yet, in plan order. `exists[i]` tells whether `plan[i]` exists.
pub open spec fn pending_files(plan: Seq<(Seq<char>, Seq<char>)>, exists: Seq<bool>) -> Seq<(Seq<char>, Seq<char>)>
    decreases plan.len(),
{
    if plan.len() == 0 {
        Seq::empty()
    } else {
        let rest = pending_files(plan.drop_last(), exists.drop_last());
        if exists.last() {
            rest
        } else {
            rest.push(plan.last())
        }
    }
}

/// Picks the files that still have to be written: an existing file is never
/// written again, so a file that is already there keeps its content.
/// `exists[i]` tells whether `files[i]` already exists.
pub fn pending_writes(files: &Vec<ScaffoldFile>, exists: &Vec<bool>) -> (w: Vec<ScaffoldFile>)
    requires
        files.len() == exists.len(),
    ensures
        w@.map_values(|f: ScaffoldFile| file_view(f))
            == pending_files(files@.map_values(|f: ScaffoldFile| file_view(f)), exists@),
{
    let ghost plan = files@.map_values(|f: ScaffoldFile| file_view(f));
    let mut w: Vec<ScaffoldFile> = Vec::new();
    let mut i: usize = 0;
    while i < files.len()
        invariant
            files.len() == exists.len(),
            plan == files@.map_values(|f: ScaffoldFile| file_view(f)),
            i <= files.len(),
            w@.map_values(|f: ScaffoldFile| file_view(f)) == pending_files(plan.take(i as int), exists@.take(i as int)),
        decreases files.len() - i,
    {
        assert(plan.take(i + 1).drop_last() =~= plan.take(i as int));
        assert(exists@.take(i + 1).drop_last() =~= exists@.take(i as int));
        if !exists[i] {
            let f = &files[i];
            w.push(ScaffoldFile { path: f.path.clone(), contents: f.contents.clone() });
            assert(w@.map_values(|f: ScaffoldFile| file_view(f)) =~= pending_files(plan.take(i as int), exists@.take(i as int)).push(plan[i as int]));
        } else {
            assert(w@.map_values(|f: ScaffoldFile| file_view(f)) =~= pending_files(plan.take(i as int), exists@.take(i as int)));
        }
        i = i + 1;
    }
    assert(plan.take(files.len() as int) =~= plan);
    assert(exists@.take(files.len() as int) =~= exists@);
    w
}

/// Scaffolding never overwrites: every file that it writes is one of the
/// plan that did not exist before.
pub proof fn lemma_pending_never_overwrites(plan: Seq<(Seq<char>, Seq<char>)>, exists: Seq<bool>)
    requires
        plan.len() == exists.len(),
    ensures
        forall|k: int| 0 <= k < pending_files(plan, exists).len() ==>
            exists|i: int| 0 <= i < plan.len() && !exists[i] && plan[i] == #[trigger] pending_files(plan, exists)[k],
    decreases plan.len(),
{
    if plan.len() > 0 {
        let p = plan.drop_last();
        let e = exists.drop_last();
        lemma_pending_never_overwrites(p, e);
        let rest = pending_files(p, e);
        assert forall|k: int| 0 <= k < pending_files(plan, exists).len() implies
            exists|i: int| 0 <= i < plan.len() && !exists[i] && plan[i] == #[trigger] pending_files(plan, exists)[k] by {
            if k < rest.len() {
                let i = choose|i: int| 0 <= i < p.len() && !e[i] && p[i] == #[trigger] rest[k];
                assert(plan[i] == p[i] && exists[i] == e[i]);
            } else {
                let i = plan.len() - 1;
                assert(plan[i] == pending_files(plan, exists)[k]);
            }
        }
    }
}

/// Scaffolding completes the plan: every file of the plan that did not
/// exist is written.
pub proof fn lemma_pending_covers_missing(plan: Seq<(Seq<char>, Seq<char>)>, exists: Seq<bool>)
    requires
        plan.len() == exists.len(),
    ensures
        forall|i: int| 0 <= i < plan.len() && !exists[i] ==> pending_files(plan, exists).contains(#[trigger] plan[i]),
    decreases plan.len(),
{
    if plan.len() > 0 {
        let p = plan.drop_last();
        let e = exists.drop_last();
        lemma_pending_covers_missing(p, e);
        let rest = pending_files(p, e);
        assert forall|i: int| 0 <= i < plan.len() && !exists[i] implies pending_files(plan, exists).contains(#[trigger] plan[i]) by {
            if i < plan.len() - 1 {
                assert(plan[i] == p[i] && exists[i] == e[i]);
                let k = choose|k: int| 0 <= k < rest.len() && rest[k] == p[i];
                assert(pending_files(plan, exists)[k] == rest[k]);
            } else {
                assert(pending_files(plan, exists).last() == plan[i]);
            }
        }
    }
}

/// Scaffolding is idempotent: once every file of the plan exists, as it does
/// after one run, a second run writes nothing.
pub proof fn lemma_second_run_writes_nothing(plan: Seq<(Seq<char>, Seq<char>)>, exists: Seq<bool>)
    requires
        plan.len() == exists.len(),
        forall|i: int| 0 <= i < exists.len() ==> #[trigger] exists[i],
    ensures
        pending_files(plan, exists) == Seq::<(Seq<char>, Seq<char>)>::empty(),
    decreases plan.len(),
{
    if plan.len() > 0 {
        lemma_second_run_writes_nothing(plan.drop_last(), exists.drop_last());
        assert(exists.last());
    }
}

} // verus!
