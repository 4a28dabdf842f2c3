use vstd::prelude::*;
use crate::cli::Stack;

verus! {

/// Marker file of a Rust project.
pub const CARGO_TOML: &'static str = "Cargo.toml";
/// Marker file of a Node project.
pub const PACKAGE_JSON: &'static str = "package.json";
/// Marker file of a Python project.
pub const PYPROJECT_TOML: &'static str = "pyproject.toml";
/// Marker file of a Python project.
pub const SETUP_PY: &'static str = "setup.py";
/// Marker file of a Python project.
pub const REQUIREMENTS_TXT: &'static str = "requirements.txt";
/// Marker file of a Go project.
pub const GO_MOD: &'static str = "go.mod";

/// Which marker files exist at the root of the extracted source tree.
#[derive(Debug, Clone, Copy)]
pub struct RootMarkers {
    pub cargo_toml: bool,
    pub package_json: bool,
    pub pyproject_toml: bool,
    pub setup_py: bool,
    pub requirements_txt: bool,
    pub go_mod: bool,
}

/// The stack that the marker files announce, the first match winning in the
/// order Rust, Node, Python, Go.
pub open spec fn spec_detect_stack(root: RootMarkers) -> Stack {
    if root.cargo_toml {
        Stack::Rust
    } else if root.package_json {
        Stack::Node
    } else if root.pyproject_toml || root.setup_py || root.requirements_txt {
        Stack::Python
    } else if root.go_mod {
        Stack::Go
    } else {
        Stack::Other
    }
}

/// The stack that is used: the requested one, or the detected one when
/// detection was requested.
pub open spec fn spec_resolve_stack(requested: Stack, root: RootMarkers) -> Stack {
    if requested == Stack::Auto {
        spec_detect_stack(root)
    } else {
        requested
    }
}

/// Auto-detect the project stack from the extracted source tree.
/// Returns the detected stack, or `Stack::Other` if nothing recognized.
pub fn detect_stack(root: &RootMarkers) -> (s: Stack)
    ensures
        s == spec_detect_stack(*root),
        s != Stack::Auto && s != Stack::Multi,
{
    if root.cargo_toml {
        return Stack::Rust;
    }
    if root.package_json {
        return Stack::Node;
    }
    if root.pyproject_toml || root.setup_py || root.requirements_txt {
        return Stack::Python;
    }
    if root.go_mod {
        return Stack::Go;
    }
    Stack::Other
}

/// Resolve the effective stack: if `Auto`, run detection; otherwise use the explicit choice.
pub fn resolve_stack(requested: &Stack, root: &RootMarkers) -> (s: Stack)
    ensures
        s == spec_resolve_stack(*requested, *root),
        s != Stack::Auto,
{
    match requested {
        Stack::Auto => detect_stack(root),
        other => *other,
    }
}

/// An explicit choice is honoured whatever the tree holds; only `Auto`
/// asks for detection.
pub proof fn lemma_explicit_stack_honoured(requested: Stack, root: RootMarkers)
    ensures
        requested != Stack::Auto ==> spec_resolve_stack(requested, root) == requested,
        requested == Stack::Auto ==> spec_resolve_stack(requested, root) == spec_detect_stack(root),
{
}

/// Detection reads the marker files in priority order Rust, Node, Python,
/// Go, and falls back to `Other` when none is present.
pub proof fn lemma_detection_by_markers(root: RootMarkers)
    ensures
        root.cargo_toml ==> spec_detect_stack(root) == Stack::Rust,
        !root.cargo_toml && root.package_json ==> spec_detect_stack(root) == Stack::Node,
        !root.cargo_toml && !root.package_json && (root.pyproject_toml || root.setup_py || root.requirements_txt)
            ==> spec_detect_stack(root) == Stack::Python,
        !root.cargo_toml && !root.package_json && !root.pyproject_toml && !root.setup_py && !root.requirements_txt
            && root.go_mod ==> spec_detect_stack(root) == Stack::Go,
        !root.cargo_toml && !root.package_json && !root.pyproject_toml && !root.setup_py && !root.requirements_txt
            && !root.go_mod ==> spec_detect_stack(root) == Stack::Other,
{
}

/// Resolving is done once and for all: the effective stack resolves to itself.
pub proof fn lemma_resolve_stack_idempotent(requested: Stack, root: RootMarkers)
    ensures
        spec_resolve_stack(spec_resolve_stack(requested, root), root) == spec_resolve_stack(requested, root),
{
}

} // verus!
