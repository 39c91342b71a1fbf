//! Workspace isolation decisions: which project entries are mirrored into
//! the scratch tree, and the path arithmetic whose safety check guarantees
//! that every destination the builder writes stays inside the workspace.

use vstd::prelude::*;
use vstd::string::*;

use crate::text::{
    chars_of, spec_contains, spec_is_prefix, str_contains, str_eq, str_starts_with,
    string_from_chars, subvec,
};
use crate::types::{extract_file_extension, spec_file_extension, Language};

verus! {

/// Project entries never mirrored into the workspace: dotfiles, build
/// output, temporary directories, and the node cache.
pub open spec fn spec_should_skip_file(name: Seq<char>) -> bool {
    ||| spec_is_prefix("."@, name)
    ||| name == "target"@
    ||| spec_is_prefix("tmp"@, name)
    ||| name == "node_modules/.cache"@
}

/// Should this project entry be left out of the workspace mirror?
pub fn should_skip_file(name: &str) -> (r: bool)
    ensures
        r == spec_should_skip_file(name@),
{
    str_starts_with(name, ".") || str_eq(name, "target") || str_starts_with(name, "tmp") || str_eq(
        name,
        "node_modules/.cache",
    )
}

/// `base` is a path-prefix of `p`: either the same path, or `p` continues
/// under `base` after a separator.
pub open spec fn spec_is_path_prefix(base: Seq<char>, p: Seq<char>) -> bool {
    base == p || spec_is_prefix(base + "/"@, p)
}

/// Failures of the workspace builder's path arithmetic.
#[derive(Debug, Clone, Copy, PartialEq, Eq, Structural)]
pub enum WorkspaceError {
    /// The safety check failed: a destination leaves the workspace.
    OutsideWorkspace,
    /// The source directory does not lie within the project root.
    SourceNotInProject,
}

/// The safety check of workspace construction: every destination path must
/// keep the workspace as a path-prefix, so mutation can never touch the
/// developer's tree.
pub fn validate_destination_path(dst_path: &str, temp_workspace: &str) -> (r: Result<
    (),
    WorkspaceError,
>)
    ensures
        r is Ok <==> spec_is_path_prefix(temp_workspace@, dst_path@),
        r is Err ==> r == Err::<(), WorkspaceError>(WorkspaceError::OutsideWorkspace),
{
    if str_eq(dst_path, temp_workspace) {
        return Ok(());
    }
    let w = chars_of(temp_workspace);
    let mut with_sep_chars = w;
    with_sep_chars.push('/');
    let with_sep = string_from_chars(&with_sep_chars);
    proof {
        reveal_strlit("/");
        assert(with_sep@ =~= temp_workspace@ + "/"@);
    }
    if str_starts_with(dst_path, with_sep.as_str()) {
        Ok(())
    } else {
        Err(WorkspaceError::OutsideWorkspace)
    }
}

/// Strips the project root from the source path, yielding the relative
/// path of the source tree within the project. The source must equal the
/// project root or continue under it after a separator.
pub fn get_source_relative_path(source_canonical: &str, project_canonical: &str) -> (r: Result<
    String,
    WorkspaceError,
>)
    ensures
        source_canonical@ == project_canonical@ ==> (r matches Ok(rel) && rel@ == Seq::<
            char,
        >::empty()),
        source_canonical@ != project_canonical@ && spec_is_prefix(
            project_canonical@ + "/"@,
            source_canonical@,
        ) ==> (r matches Ok(rel) && project_canonical@ + "/"@ + rel@ == source_canonical@),
        !spec_is_path_prefix(project_canonical@, source_canonical@) ==> r == Err::<
            String,
            WorkspaceError,
        >(WorkspaceError::SourceNotInProject),
{
    if str_eq(source_canonical, project_canonical) {
        let empty_chars: Vec<char> = Vec::new();
        return Ok(string_from_chars(&empty_chars));
    }
    let p = chars_of(project_canonical);
    let mut with_sep_chars = p;
    with_sep_chars.push('/');
    let with_sep = string_from_chars(&with_sep_chars);
    proof {
        reveal_strlit("/");
        assert(with_sep@ =~= project_canonical@ + "/"@);
    }
    if str_starts_with(source_canonical, with_sep.as_str()) {
        let s = chars_of(source_canonical);
        let cut = with_sep_chars.len();
        let rel_chars = subvec(&s, cut, s.len());
        let rel = string_from_chars(&rel_chars);
        proof {
            assert(project_canonical@ + "/"@ + rel@ =~= source_canonical@);
        }
        Ok(rel)
    } else {
        Err(WorkspaceError::SourceNotInProject)
    }
}

/// Joins a workspace path with a relative path. The result always keeps
/// the workspace as a path-prefix: this is the shape of every destination
/// the builder creates, so writes stay inside the scratch tree.
pub fn join_workspace_path(workspace: &str, relative: &str) -> (r: String)
    ensures
        r@ == workspace@ + "/"@ + relative@,
        spec_is_path_prefix(workspace@, r@),
{
    let mut r = String::from_str(workspace);
    r.append("/");
    r.append(relative);
    proof {
        assert(spec_is_prefix(workspace@ + "/"@, r@));
    }
    r
}

/// The discovery rule for mutable sources: the extension matches the
/// language and the path avoids the language's excluded subtrees (spec and
/// test files for TypeScript; tests, build output and examples for Rust).
pub fn is_target_file(path: &str, language: &Language) -> (r: bool)
    ensures
        language is TypeScript ==> r == (spec_file_extension(path@) == Some("ts"@)
            && !spec_contains(path@, ".spec.ts"@) && !spec_contains(path@, ".test.ts"@)
            && !spec_contains(path@, "testing/moxxy/"@) && !spec_contains(
            path@,
            "testing/utils/"@,
        ) && !spec_contains(path@, "testing/setup/"@)),
        language is Rust ==> r == (spec_file_extension(path@) == Some("rs"@) && !spec_contains(
            path@,
            "tests/"@,
        ) && !spec_contains(path@, "target/"@) && !spec_contains(path@, "examples/"@)),
{
    let ext = extract_file_extension(path);
    let ext_matches: bool = match ext {
        Some(e) => {
            match language {
                Language::TypeScript => str_eq(e.as_str(), "ts"),
                Language::Rust => str_eq(e.as_str(), "rs"),
            }
        },
        None => false,
    };
    if !ext_matches {
        proof {
            if language is TypeScript {
                assert(spec_file_extension(path@) != Some("ts"@));
            } else {
                assert(spec_file_extension(path@) != Some("rs"@));
            }
        }
        return false;
    }
    match language {
        Language::TypeScript => {
            !str_contains(path, ".spec.ts") && !str_contains(path, ".test.ts") && !str_contains(
                path,
                "testing/moxxy/",
            ) && !str_contains(path, "testing/utils/") && !str_contains(path, "testing/setup/")
        },
        Language::Rust => {
            !str_contains(path, "tests/") && !str_contains(path, "target/") && !str_contains(
                path,
                "examples/",
            )
        },
    }
}

} // verus!
