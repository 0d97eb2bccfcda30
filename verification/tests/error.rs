use spm_backend::error::InstallError;
use spm_backend::manifest::ManifestDecodeError;
use spm_backend::text::{push_decimal, push_signed_decimal};

fn s(text: &str) -> String {
    text.to_string()
}

fn decimal(n: u64) -> String {
    let mut out = String::new();
    push_decimal(&mut out, n);
    out
}

fn signed(n: i32) -> String {
    let mut out = String::new();
    push_signed_decimal(&mut out, n);
    out
}

#[test]
fn numbers_are_written_in_decimal() {
    assert_eq!(decimal(0), "0");
    assert_eq!(decimal(7), "7");
    assert_eq!(decimal(10), "10");
    assert_eq!(decimal(109), "109");
    assert_eq!(decimal(1234567890), "1234567890");
    assert_eq!(decimal(u64::MAX), "18446744073709551615");
    for n in [0u64, 9, 10, 11, 99, 100, 101, 4096, 999_999, 1_000_000] {
        assert_eq!(decimal(n), n.to_string());
    }
}

#[test]
fn negative_numbers_carry_a_sign() {
    assert_eq!(signed(0), "0");
    assert_eq!(signed(1), "1");
    assert_eq!(signed(-1), "-1");
    assert_eq!(signed(-128), "-128");
    assert_eq!(signed(i32::MAX), "2147483647");
    assert_eq!(signed(i32::MIN), "-2147483648");
}

#[test]
fn number_is_appended_to_what_is_there() {
    let mut out = s("status ");
    push_signed_decimal(&mut out, -15);
    out.push_str(" of ");
    push_decimal(&mut out, 255);
    assert_eq!(out, "status -15 of 255");
}

#[test]
fn install_errors_have_their_message() {
    let cases = [
        (
            InstallError::InvalidRepositoryIdentifier { identifier: s("not a repo") },
            "Invalid swift package repo: not a repo",
        ),
        (
            InstallError::RemoteVersionFetchFailed { detail: s("403 rate limit") },
            "Failed to list remote versions: 403 rate limit",
        ),
        (InstallError::NoStableVersionFound, "No stable versions found"),
        (
            InstallError::CloneFailed { detail: s("could not resolve host") },
            "Failed to clone the repository: could not resolve host",
        ),
        (
            InstallError::CheckoutFailed { detail: s("pathspec 'v9' did not match") },
            "Failed to check out the revision: pathspec 'v9' did not match",
        ),
        (
            InstallError::ManifestDumpFailed { detail: s("swift: command not found") },
            "Failed to dump package description: swift: command not found",
        ),
        (
            InstallError::ManifestDecodeError(ManifestDecodeError::MissingProducts),
            "Failed to parse package description. Details: missing field `products`",
        ),
        (InstallError::NoExecutablesFound, "No executables found in the package"),
        (
            InstallError::BuildFailed { product: s("swiftformat"), status: 1 },
            "Failed to build swiftformat: exit status 1",
        ),
        (
            InstallError::BuildFailed { product: s("tool"), status: -11 },
            "Failed to build tool: exit status -11",
        ),
        (
            InstallError::CopyFailed { detail: s("foo: No such file or directory") },
            "Failed to copy build artifacts: foo: No such file or directory",
        ),
        (InstallError::IOFailed { detail: s("permission denied") }, "permission denied"),
        (InstallError::IOFailed { detail: s("") }, ""),
    ];
    for (error, message) in cases {
        assert_eq!(error.message(), message);
    }
}

#[test]
fn decode_errors_have_their_message() {
    let cases = [
        (
            ManifestDecodeError::Syntax { message: s("expected value at line 1 column 1") },
            "expected value at line 1 column 1",
        ),
        (ManifestDecodeError::RootNotObject, "the description is not a map"),
        (ManifestDecodeError::MissingProducts, "missing field `products`"),
        (ManifestDecodeError::ProductsNotArray, "`products` is not a sequence"),
        (ManifestDecodeError::ProductNotObject { index: 0 }, "product 0: not a map"),
        (ManifestDecodeError::MissingName { index: 3 }, "product 3: missing field `name`"),
        (ManifestDecodeError::NameNotText { index: 12 }, "product 12: `name` is not a string"),
        (ManifestDecodeError::MissingType { index: 100 }, "product 100: missing field `type`"),
        (
            ManifestDecodeError::MalformedType { index: 7 },
            "product 7: `type` is not a map with a key 'executable' or other types",
        ),
    ];
    for (error, message) in cases {
        assert_eq!(error.message(), message);
    }
}

#[test]
fn message_of_a_text_that_is_not_json_is_the_parser_s() {
    let error = spm_backend::backend::SPMBackend::get_executable_names("not json").unwrap_err();
    assert_eq!(
        error.message(),
        "Failed to parse package description. Details: expected ident at line 1 column 2"
    );
    match error {
        InstallError::ManifestDecodeError(inner) => {
            assert_eq!(inner.message(), "expected ident at line 1 column 2")
        }
        other => panic!("{:?}", other),
    }
    let error = spm_backend::backend::SPMBackend::get_executable_names("{\"products\":[]}");
    assert_eq!(error.unwrap_err().message(), "No executables found in the package");
}
