use spm_backend::error::InstallError;
use spm_backend::repository::{shorthand, SwiftPackageRepo, UrlParts};

fn resolved(identifier: &str) -> Option<String> {
    match SwiftPackageRepo::from_str(identifier) {
        Ok(repo) => Some(repo.url),
        Err(_) => None,
    }
}

#[test]
fn shorthand_is_expanded() {
    assert_eq!(resolved("owner/repo"), Some("https://github.com/owner/repo.git".to_string()));
    assert_eq!(
        resolved("nicklockwood/SwiftFormat"),
        Some("https://github.com/nicklockwood/SwiftFormat.git".to_string())
    );
    assert_eq!(resolved("a_b-c/d-e_f9"), Some("https://github.com/a_b-c/d-e_f9.git".to_string()));
}

#[test]
fn github_url_is_taken_as_it_stands() {
    assert_eq!(
        resolved("https://github.com/owner/repo.git"),
        Some("https://github.com/owner/repo.git".to_string())
    );
    for url in [
        "https://github.com/owner/repo.git?tab=readme",
        "https://github.com/owner/repo.git#readme",
        "https://GitHub.com/owner/repo.git",
        "https://user@github.com:443/owner/repo.git",
        "ssh://git@github.com/owner/repo.git",
        "http://github.com/.git",
    ] {
        assert_eq!(resolved(url), Some(url.to_string()));
    }
}

#[test]
fn other_identifiers_are_refused() {
    for identifier in [
        "not a repo",
        "https://gitlab.com/owner/repo.git",
        "https://github.com/owner/repo",
        "https://github.com/owner/repo.git/",
        "https://github.com.example.org/owner/repo.git",
        "https://example.org/github.com/repo.git",
        "git@github.com:owner/repo.git",
        "github.com/owner/repo.git",
        "file:///owner/repo.git",
        "",
        "owner",
        "owner/",
        "/repo",
        "owner/repo/extra",
        "owner/re po",
        "owner/repo\n",
        "ownér/repo",
    ] {
        match SwiftPackageRepo::from_str(identifier) {
            Err(InstallError::InvalidRepositoryIdentifier { identifier: named }) => {
                assert_eq!(named, identifier)
            }
            _ => panic!("{:?} was not refused", identifier),
        }
    }
}

#[test]
fn shorthand_grammar() {
    assert!(shorthand("owner/repo"));
    assert!(shorthand("0/_"));
    assert!(shorthand("-/-"));
    assert!(!shorthand("owner"));
    assert!(!shorthand("owner//repo"));
    assert!(!shorthand("owner/repo.git"));
    assert!(!shorthand("https://github.com/owner/repo.git"));
    assert!(!shorthand("/"));
}

#[test]
fn resolution_from_given_parts() {
    let github = Some(UrlParts { host: Some("github.com".to_string()), path: "/o/r.git".to_string() });
    let repo = SwiftPackageRepo::from_parts("ssh://git@github.com/o/r.git", &github).ok().unwrap();
    assert_eq!(repo.url, "ssh://git@github.com/o/r.git");

    let elsewhere = Some(UrlParts { host: Some("example.com".to_string()), path: "/o/r.git".to_string() });
    assert!(SwiftPackageRepo::from_parts("https://example.com/o/r.git", &elsewhere).is_err());

    let no_git = Some(UrlParts { host: Some("github.com".to_string()), path: "/o/r".to_string() });
    assert!(SwiftPackageRepo::from_parts("https://github.com/o/r", &no_git).is_err());

    let no_host = Some(UrlParts { host: None, path: "/o/r.git".to_string() });
    assert!(SwiftPackageRepo::from_parts("unix:/o/r.git", &no_host).is_err());

    let repo = SwiftPackageRepo::from_parts("o/r", &None).ok().unwrap();
    assert_eq!(repo.url, "https://github.com/o/r.git");
}
