//! The invocations of the Swift toolchain.
//!
//! A command is the list of its words, the program first. The build and the
//! query for the directory of its output are two invocations with the same
//! configuration: the query is the build command with one word more.

use vstd::prelude::*;
use crate::backend::SPMBackend;
use crate::text::texts;

verus! {

/// The command that prints the manifest of the package at `repo_dir`.
pub open spec fn dump_package_command(repo_dir: Seq<char>) -> Seq<Seq<char>> {
    seq!["swift"@, "package"@, "dump-package"@, "--package-path"@, repo_dir]
}

/// The command that builds `executable` for release in the package at
/// `repo_dir`.
pub open spec fn build_command(executable: Seq<char>, repo_dir: Seq<char>) -> Seq<Seq<char>> {
    seq![
        "swift"@,
        "build"@,
        "--configuration"@,
        "release"@,
        "--product"@,
        executable,
        "--package-path"@,
        repo_dir,
    ]
}

/// The command that prints the directory of the build's output: the build
/// command and `--show-bin-path`.
pub open spec fn bin_path_command(executable: Seq<char>, repo_dir: Seq<char>) -> Seq<Seq<char>> {
    build_command(executable, repo_dir).push("--show-bin-path"@)
}

/// The two invocations that build one product.
#[derive(Debug, PartialEq, Eq)]
pub struct BuildPlan {
    /// Builds the product.
    pub build: Vec<String>,
    /// Prints the directory that holds what was built.
    pub show_bin_path: Vec<String>,
}

/// The words of a build, without the query's last word.
fn build_words(executable: &str, repo_dir: &str) -> (r: Vec<String>)
    ensures
        texts(r@) == build_command(executable@, repo_dir@),
{
    let mut words: Vec<String> = Vec::new();
    words.push("swift".to_owned());
    words.push("build".to_owned());
    words.push("--configuration".to_owned());
    words.push("release".to_owned());
    words.push("--product".to_owned());
    words.push(executable.to_owned());
    words.push("--package-path".to_owned());
    words.push(repo_dir.to_owned());
    assert(texts(words@) =~= build_command(executable@, repo_dir@));
    words
}

impl SPMBackend {
    /// The command that prints the manifest of the package at `repo_dir`.
    pub fn dump_package(repo_dir: &str) -> (r: Vec<String>)
        ensures
            texts(r@) == dump_package_command(repo_dir@),
    {
        let mut words: Vec<String> = Vec::new();
        words.push("swift".to_owned());
        words.push("package".to_owned());
        words.push("dump-package".to_owned());
        words.push("--package-path".to_owned());
        words.push(repo_dir.to_owned());
        assert(texts(words@) =~= dump_package_command(repo_dir@));
        words
    }

    /// The invocations that build `executable` for release in the package
    /// at `repo_dir` and then ask where the build put its output.
    pub fn build_executable(executable: &str, repo_dir: &str) -> (r: BuildPlan)
        ensures
            texts(r.build@) == build_command(executable@, repo_dir@),
            texts(r.show_bin_path@) == bin_path_command(executable@, repo_dir@),
    {
        let build = build_words(executable, repo_dir);
        let mut show_bin_path = build_words(executable, repo_dir);
        let ghost before = texts(show_bin_path@);
        show_bin_path.push("--show-bin-path".to_owned());
        assert(texts(show_bin_path@) =~= before.push("--show-bin-path"@));
        BuildPlan { build, show_bin_path }
    }
}

/// The query for the output directory passes the build's configuration
/// unchanged: it is the build command, word for word, and one word more.
pub proof fn lemma_query_repeats_build(executable: Seq<char>, repo_dir: Seq<char>)
    ensures
        bin_path_command(executable, repo_dir).len() == build_command(executable, repo_dir).len()
            + 1,
        bin_path_command(executable, repo_dir).take(
            build_command(executable, repo_dir).len() as int,
        ) == build_command(executable, repo_dir),
        bin_path_command(executable, repo_dir).last() == "--show-bin-path"@,
{
    let build = build_command(executable, repo_dir);
    assert(build.push("--show-bin-path"@).take(build.len() as int) =~= build);
}

} // verus!
