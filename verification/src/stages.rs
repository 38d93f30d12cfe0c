//! The per-entry decisions of the template walk and the three
//! post-processing steps over the generated tree.
//!
//! The walk mirrors every directory into the output tree, renders every
//! file whose name carries the `.tpl` suffix (stripping the suffix from
//! the written name), and silently ignores every other file — plain
//! files inside the template tree are never copied.  The patch steps
//! are plain substring replacements over a whole file's text; locating
//! the files, reading them and writing them back is the caller's
//! (unverified) business, as is the directory rename of the package
//! restructuring step.

use vstd::prelude::*;
use crate::profiles::DatabaseType;
use crate::profiles::config_block_spec;
use crate::profiles::db_config_block;
use crate::profiles::db_dependency_fragment;
use crate::profiles::dependency_fragment_spec;
use crate::subst::matches_at;
use crate::subst::occurs_at;
use crate::subst::replace_all;
use crate::subst::replace_all_spec;

verus! {

/// A file name marks a template when it carries the `.tpl` suffix
/// behind a non-empty stem (a bare `".tpl"` is a hidden file with no
/// suffix, not a template).
pub open spec fn template_name_spec(name: Seq<char>) -> bool {
    name.len() > 4 && name.subrange(name.len() - 4, name.len() as int) == ".tpl"@
}

/// Whether `name` marks a template file, as `template_name_spec` says.
pub fn is_template_name(name: &str) -> (res: bool)
    ensures
        res == template_name_spec(name@),
{
    proof {
        reveal_strlit(".tpl");
    }
    let n = name.unicode_len();
    if n <= 4 {
        return false;
    }
    let res = matches_at(name, n - 4, ".tpl");
    assert(occurs_at(name@, ".tpl"@, n - 4) == template_name_spec(name@));
    res
}

/// The name a rendered template is written under: the template's name
/// with the `.tpl` suffix stripped.
pub fn template_output_name(name: &str) -> (res: String)
    requires
        template_name_spec(name@),
    ensures
        res@ == name@.subrange(0, name@.len() - 4),
{
    proof {
        reveal_strlit(".tpl");
    }
    let n = name.unicode_len();
    name.substring_char(0, n - 4).to_owned()
}

/// What the walk does with one directory entry.
#[derive(Debug, PartialEq, Eq)]
pub enum WalkStep {
    /// The entry is a directory: mirror it (possibly empty) into the
    /// output tree.
    MakeDir,
    /// The entry is a template file: render it and write the result
    /// under the carried name, the entry's name without its suffix.
    RenderTo(String),
    /// The entry is a plain file: it is not copied at all.
    Ignore,
}

/// Decides what the walk does with one entry of the template tree,
/// given whether it is a directory and its final name component.
/// Directories are always mirrored, even empty ones; files are rendered
/// exactly when their name marks a template, and ignored otherwise.
pub fn classify_entry(is_dir: bool, name: &str) -> (res: WalkStep)
    ensures
        is_dir ==> res == WalkStep::MakeDir,
        !is_dir && template_name_spec(name@) ==> (res matches WalkStep::RenderTo(out)
            && out@ == name@.subrange(0, name@.len() - 4)),
        !is_dir && !template_name_spec(name@) ==> res == WalkStep::Ignore,
{
    if is_dir {
        WalkStep::MakeDir
    } else if is_template_name(name) {
        WalkStep::RenderTo(template_output_name(name))
    } else {
        WalkStep::Ignore
    }
}

/// Patches the generated configuration file's text: every occurrence of
/// `{{DB_CONFIG}}` becomes the profile's settings block.  Plain
/// substring semantics: zero occurrences leave the text unchanged.
pub fn patch_config_content(content: &str, db: DatabaseType) -> (res: String)
    ensures
        res@ == replace_all_spec(content@, "{{DB_CONFIG}}"@, config_block_spec(db)),
{
    proof {
        reveal_strlit("{{DB_CONFIG}}");
    }
    replace_all(content, "{{DB_CONFIG}}", db_config_block(db))
}

/// Patches the generated build manifest's text: every occurrence of
/// `{{DB_DEPENDENCY}}` becomes the profile's dependency fragment.
pub fn patch_manifest_content(content: &str, db: DatabaseType) -> (res: String)
    ensures
        res@ == replace_all_spec(content@, "{{DB_DEPENDENCY}}"@, dependency_fragment_spec(db)),
{
    proof {
        reveal_strlit("{{DB_DEPENDENCY}}");
    }
    replace_all(content, "{{DB_DEPENDENCY}}", db_dependency_fragment(db))
}

/// The package's directory subpath: every dot becomes a path separator.
pub open spec fn dots_to_slashes(package: Seq<char>) -> Seq<char> {
    package.map_values(|c: char| if c == '.' { '/' } else { c })
}

/// Turns a dot-separated package name into its directory subpath,
/// exactly as `dots_to_slashes` states it.
pub fn package_to_path(package: &str) -> (res: String)
    ensures
        res@ == dots_to_slashes(package@),
{
    proof {
        reveal_strlit("/");
    }
    let n = package.unicode_len();
    let mut res = String::new();
    let mut i: usize = 0;
    while i < n
        invariant
            0 <= i <= n,
            n == package@.len(),
            res@ == dots_to_slashes(package@.subrange(0, i as int)),
        decreases n - i,
    {
        proof {
            reveal_strlit("/");
        }
        let c = package.get_char(i);
        if c == '.' {
            res.append("/");
        } else {
            let piece = package.substring_char(i, i + 1);
            res.append(piece);
        }
        assert(res@ =~= dots_to_slashes(package@.subrange(0, i + 1)));
        i = i + 1;
    }
    assert(package@.subrange(0, n as int) =~= package@);
    res
}

/// The fixed relative location of the configuration file inside the
/// generated project.
pub fn config_relative_path() -> (res: &'static str)
    ensures
        res@ == "src/main/resources/application.yml"@,
{
    "src/main/resources/application.yml"
}

/// The fixed relative location of the build manifest inside the
/// generated project.
pub fn manifest_relative_path() -> (res: &'static str)
    ensures
        res@ == "pom.xml"@,
{
    "pom.xml"
}

/// The fixed relative location of the source-code root the package
/// restructuring step works under.
pub fn java_source_root() -> (res: &'static str)
    ensures
        res@ == "src/main/java"@,
{
    "src/main/java"
}

/// The placeholder directory name that stands in for the package path
/// inside the template tree.
pub fn package_placeholder() -> (res: &'static str)
    ensures
        res@ == "{{PACKAGE_PATH}}"@,
{
    "{{PACKAGE_PATH}}"
}

} // verus!
