use spm_backend::workspace::{sanitize, workspace_dir_name};

fn replaced_in_turn(url: &str) -> String {
    url.replace("://", "_").replace("/", "_").replace("?", "_").replace("&", "_").replace(":", "_")
}

#[test]
fn url_becomes_a_directory_name() {
    assert_eq!(sanitize("https://github.com/owner/repo.git"), "https_github.com_owner_repo.git");
    assert_eq!(
        sanitize("https://github.com/o/r.git?a=1&b=2:3"),
        "https_github.com_o_r.git_a=1_b=2_3"
    );
    assert_eq!(sanitize("ssh://git@github.com:22/o/r.git"), "ssh_git@github.com_22_o_r.git");
    assert_eq!(sanitize(""), "");
    assert_eq!(sanitize("plain"), "plain");
}

#[test]
fn scheme_separator_becomes_one_underscore() {
    assert_eq!(sanitize("://"), "_");
    assert_eq!(sanitize(":///"), "__");
    assert_eq!(sanitize("a:://b"), "a__b");
    assert_eq!(sanitize("://://"), "__");
    assert_eq!(sanitize(":/"), "__");
    assert_eq!(sanitize("//:"), "___");
}

#[test]
fn sanitizing_is_replacing_in_turn() {
    for url in [
        "https://github.com/owner/repo.git",
        "https://github.com/o/r.git?x=1&y=2",
        "::///://?&:/",
        ":/:/://:",
        "a://b://c",
        "héllo://wörld/ü?&",
        "",
        "::",
        "//",
        ":////",
    ] {
        assert_eq!(sanitize(url), replaced_in_turn(url), "{}", url);
    }
}

#[test]
fn workspace_is_named_after_url_and_revision() {
    assert_eq!(
        workspace_dir_name("https://github.com/owner/repo.git", "1.0.0"),
        "https_github.com_owner_repo.git@1.0.0"
    );
    assert_eq!(workspace_dir_name("https://github.com/o/r.git", ""), "https_github.com_o_r.git@");
    assert_eq!(
        workspace_dir_name("https://github.com/o/r.git", "feature/x"),
        "https_github.com_o_r.git@feature/x"
    );
}

#[test]
fn same_url_and_revision_give_the_same_workspace() {
    let first = workspace_dir_name("https://github.com/owner/repo.git", "v2.1.0");
    let second = workspace_dir_name("https://github.com/owner/repo.git", "v2.1.0");
    assert_eq!(first, second);
    assert_ne!(first, workspace_dir_name("https://github.com/owner/repo.git", "v2.1.1"));
    assert_ne!(first, workspace_dir_name("https://github.com/owner/other.git", "v2.1.0"));
}
