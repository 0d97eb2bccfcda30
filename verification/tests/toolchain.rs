use spm_backend::backend::SPMBackend;

fn words(list: &[&str]) -> Vec<String> {
    list.iter().map(|w| w.to_string()).collect()
}

#[test]
fn manifest_is_dumped_for_the_workspace() {
    assert_eq!(
        SPMBackend::dump_package("/tmp/spm/repo@1.0"),
        words(&["swift", "package", "dump-package", "--package-path", "/tmp/spm/repo@1.0"])
    );
}

#[test]
fn product_is_built_for_release() {
    let plan = SPMBackend::build_executable("swiftformat", "/tmp/spm/repo@1.0");
    assert_eq!(
        plan.build,
        words(&[
            "swift",
            "build",
            "--configuration",
            "release",
            "--product",
            "swiftformat",
            "--package-path",
            "/tmp/spm/repo@1.0",
        ])
    );
    assert_eq!(
        plan.show_bin_path,
        words(&[
            "swift",
            "build",
            "--configuration",
            "release",
            "--product",
            "swiftformat",
            "--package-path",
            "/tmp/spm/repo@1.0",
            "--show-bin-path",
        ])
    );
}

#[test]
fn query_repeats_the_build() {
    let plan = SPMBackend::build_executable("a tool", "");
    assert_eq!(plan.show_bin_path.len(), plan.build.len() + 1);
    assert_eq!(plan.show_bin_path[..plan.build.len()], plan.build[..]);
    assert_eq!(plan.show_bin_path.last().unwrap(), "--show-bin-path");
    assert_eq!(plan.build[5], "a tool");
    assert_eq!(plan.build[7], "");
}
