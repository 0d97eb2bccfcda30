use spm_backend::backend::SPMBackend;
use spm_backend::error::InstallError;
use spm_backend::install::{InstallAction, InstallEvent, InstallStage, InstallState, InstallStep};
use spm_backend::manifest::ManifestDecodeError;

const URL: &str = "https://github.com/owner/repo.git";
const WORKSPACE: &str = "https_github.com_owner_repo.git@1.2.3";
const TWO_TOOLS: &str = r#"{"products":[
    {"name":"first","type":{"executable":null}},
    {"name":"Lib","type":{"library":["automatic"]}},
    {"name":"second","type":{"executable":null}}]}"#;

fn s(text: &str) -> String {
    text.to_string()
}

fn going(step: InstallStep) -> (InstallState, InstallAction) {
    match step {
        InstallStep::Continue { state, action } => (state, action),
        other => panic!("the installation is over: {:?}", other),
    }
}

fn failure(step: InstallStep) -> InstallError {
    match step {
        InstallStep::Failed(error) => error,
        other => panic!("the installation has not failed: {:?}", other),
    }
}

fn start() -> (InstallState, InstallAction) {
    going(SPMBackend::new(s("owner/repo")).install_version_impl("1.2.3"))
}

/// Reports `events` in turn and returns the state after the last.
fn after(events: Vec<InstallEvent>) -> InstallState {
    let (mut state, _) = start();
    for event in events {
        state = going(state.advance(event)).0;
    }
    state
}

fn done(n: usize) -> Vec<InstallEvent> {
    (0..n).map(|_| InstallEvent::Done).collect()
}

fn until_built() -> Vec<InstallEvent> {
    let mut events = done(4);
    events.push(InstallEvent::Output(s(TWO_TOOLS)));
    events
}

#[test]
fn named_version_is_installed_step_by_step() {
    let (state, action) = start();
    assert_eq!(state.stage(), InstallStage::ClearingWorkspace);
    assert_eq!(state.repo_url(), URL);
    assert_eq!(state.version(), "1.2.3");
    assert_eq!(state.workspace(), WORKSPACE);
    assert_eq!(action, InstallAction::ClearWorkspace { workspace: s(WORKSPACE) });

    let (state, action) = going(state.advance(InstallEvent::Done));
    assert_eq!(state.stage(), InstallStage::CreatingWorkspaceParent);
    assert_eq!(action, InstallAction::CreateWorkspaceParent { workspace: s(WORKSPACE) });

    let (state, action) = going(state.advance(InstallEvent::Done));
    assert_eq!(state.stage(), InstallStage::Cloning);
    assert_eq!(action, InstallAction::CloneRepository { url: s(URL), workspace: s(WORKSPACE) });

    let (state, action) = going(state.advance(InstallEvent::Done));
    assert_eq!(state.stage(), InstallStage::CheckingOut);
    assert_eq!(
        action,
        InstallAction::CheckoutRevision { workspace: s(WORKSPACE), revision: s("1.2.3") }
    );

    let (state, action) = going(state.advance(InstallEvent::Done));
    assert_eq!(state.stage(), InstallStage::DumpingManifest);
    assert_eq!(action, InstallAction::DumpManifest { workspace: s(WORKSPACE) });

    let (state, action) = going(state.advance(InstallEvent::Output(s(TWO_TOOLS))));
    assert_eq!(state.stage(), InstallStage::Building);
    assert_eq!(state.executables(), vec![s("first"), s("second")]);
    assert_eq!(action, InstallAction::Build { workspace: s(WORKSPACE), product: s("first") });

    let (state, action) = going(state.advance(InstallEvent::Exited(0)));
    assert_eq!(state.stage(), InstallStage::QueryingBinPath);
    assert_eq!(action, InstallAction::QueryBinPath { workspace: s(WORKSPACE), product: s("first") });

    let (state, action) = going(state.advance(InstallEvent::Output(s("/w/.build/release"))));
    assert_eq!(state.stage(), InstallStage::InstallingArtifacts);
    assert_eq!(
        action,
        InstallAction::InstallArtifacts { product: s("first"), bin_path: s("/w/.build/release") }
    );

    let (state, action) = going(state.advance(InstallEvent::Done));
    assert_eq!(state.stage(), InstallStage::Building);
    assert_eq!(action, InstallAction::Build { workspace: s(WORKSPACE), product: s("second") });

    let (state, action) = going(state.advance(InstallEvent::Exited(0)));
    assert_eq!(action, InstallAction::QueryBinPath { workspace: s(WORKSPACE), product: s("second") });

    let (state, action) = going(state.advance(InstallEvent::Output(s("/w/.build/release"))));
    assert_eq!(
        action,
        InstallAction::InstallArtifacts { product: s("second"), bin_path: s("/w/.build/release") }
    );

    let (state, action) = going(state.advance(InstallEvent::Done));
    assert_eq!(state.stage(), InstallStage::CleaningUp);
    assert_eq!(state.version(), "1.2.3");
    assert_eq!(state.workspace(), WORKSPACE);
    assert_eq!(action, InstallAction::RemoveWorkspace { workspace: s(WORKSPACE) });

    assert_eq!(state.advance(InstallEvent::Done), InstallStep::Finished);
}

#[test]
fn latest_is_resolved_from_the_remote_versions() {
    let backend = SPMBackend::new(s(URL));
    let (state, action) = going(backend.install_version_impl("latest"));
    assert_eq!(state.stage(), InstallStage::ResolvingLatest);
    assert_eq!(state.repo_url(), URL);
    assert_eq!(action, InstallAction::ListRemoteVersions);

    let versions = vec![s("v1.0.0"), s("v1.2.0"), s("v1.1.0")];
    let (state, action) = going(state.advance(InstallEvent::Versions(versions)));
    assert_eq!(state.stage(), InstallStage::ClearingWorkspace);
    assert_eq!(state.version(), "v1.1.0");
    assert_eq!(state.workspace(), "https_github.com_owner_repo.git@v1.1.0");
    assert_eq!(
        action,
        InstallAction::ClearWorkspace { workspace: s("https_github.com_owner_repo.git@v1.1.0") }
    );
}

#[test]
fn unknown_identifier_fails_at_once() {
    for identifier in ["not a repo", "https://gitlab.com/owner/repo.git"] {
        for version in ["latest", "1.0.0"] {
            let step = SPMBackend::new(s(identifier)).install_version_impl(version);
            assert_eq!(
                failure(step),
                InstallError::InvalidRepositoryIdentifier { identifier: s(identifier) }
            );
        }
    }
}

#[test]
fn latest_without_a_release_fails() {
    let (state, _) = going(SPMBackend::new(s("owner/repo")).install_version_impl("latest"));
    assert_eq!(
        failure(state.advance(InstallEvent::Versions(vec![]))),
        InstallError::NoStableVersionFound
    );
}

#[test]
fn failed_listing_of_versions_fails() {
    let (state, _) = going(SPMBackend::new(s("owner/repo")).install_version_impl("latest"));
    assert_eq!(
        failure(state.advance(InstallEvent::Failed(s("rate limit")))),
        InstallError::RemoteVersionFetchFailed { detail: s("rate limit") }
    );
}

#[test]
fn failed_fetch_steps_fail_with_their_error() {
    assert_eq!(
        failure(after(done(0)).advance(InstallEvent::Failed(s("busy")))),
        InstallError::IOFailed { detail: s("busy") }
    );
    assert_eq!(
        failure(after(done(1)).advance(InstallEvent::Failed(s("read-only")))),
        InstallError::IOFailed { detail: s("read-only") }
    );
    assert_eq!(
        failure(after(done(2)).advance(InstallEvent::Failed(s("no route")))),
        InstallError::CloneFailed { detail: s("no route") }
    );
    assert_eq!(
        failure(after(done(3)).advance(InstallEvent::Failed(s("no such tag")))),
        InstallError::CheckoutFailed { detail: s("no such tag") }
    );
    assert_eq!(
        failure(after(done(4)).advance(InstallEvent::Failed(s("swift: not found")))),
        InstallError::ManifestDumpFailed { detail: s("swift: not found") }
    );
}

#[test]
fn manifest_that_cannot_be_read_fails() {
    assert_eq!(
        failure(after(done(4)).advance(InstallEvent::Output(s("{}")))),
        InstallError::ManifestDecodeError(ManifestDecodeError::MissingProducts)
    );
    match failure(after(done(4)).advance(InstallEvent::Output(s("error: no manifest")))) {
        InstallError::ManifestDecodeError(ManifestDecodeError::Syntax { .. }) => {}
        other => panic!("{:?}", other),
    }
}

#[test]
fn package_without_executables_fails_before_any_build() {
    for manifest in [
        r#"{"products":[]}"#,
        r#"{"products":[{"name":"bar","type":{"library":["automatic"]}}]}"#,
    ] {
        let step = after(done(4)).advance(InstallEvent::Output(s(manifest)));
        assert_eq!(failure(step), InstallError::NoExecutablesFound);
    }
    let state = after(done(4));
    assert_eq!(failure(state.with_executables(Ok(vec![]))), InstallError::NoExecutablesFound);
}

#[test]
fn build_goes_on_with_the_given_executables() {
    let (state, action) = going(after(done(4)).with_executables(Ok(vec![s("x"), s("y")])));
    assert_eq!(state.stage(), InstallStage::Building);
    assert_eq!(state.executables(), vec![s("x"), s("y")]);
    assert_eq!(action, InstallAction::Build { workspace: s(WORKSPACE), product: s("x") });
    assert_eq!(
        failure(after(done(4)).with_executables(Err(InstallError::ManifestDecodeError(
            ManifestDecodeError::RootNotObject
        )))),
        InstallError::ManifestDecodeError(ManifestDecodeError::RootNotObject)
    );
    assert_eq!(
        failure(after(done(4)).with_executables(Err(InstallError::NoExecutablesFound))),
        InstallError::NoExecutablesFound
    );
}

#[test]
fn failed_build_names_product_and_status() {
    assert_eq!(
        failure(after(until_built()).advance(InstallEvent::Exited(1))),
        InstallError::BuildFailed { product: s("first"), status: 1 }
    );
    let mut events = until_built();
    events.extend([InstallEvent::Exited(0), InstallEvent::Output(s("/bin")), InstallEvent::Done]);
    assert_eq!(
        failure(after(events).advance(InstallEvent::Exited(-9))),
        InstallError::BuildFailed { product: s("second"), status: -9 }
    );
    assert_eq!(
        failure(after(until_built()).advance(InstallEvent::Failed(s("cannot run swift")))),
        InstallError::IOFailed { detail: s("cannot run swift") }
    );
}

#[test]
fn failed_query_and_copy_fail_with_their_error() {
    let mut events = until_built();
    events.push(InstallEvent::Exited(0));
    assert_eq!(
        failure(after(events).advance(InstallEvent::Failed(s("killed")))),
        InstallError::IOFailed { detail: s("killed") }
    );
    let mut events = until_built();
    events.extend([InstallEvent::Exited(0), InstallEvent::Output(s("/bin"))]);
    assert_eq!(
        failure(after(events).advance(InstallEvent::Failed(s("foo: no such file")))),
        InstallError::CopyFailed { detail: s("foo: no such file") }
    );
}

#[test]
fn failed_cleanup_fails() {
    let one = r#"{"products":[{"name":"only","type":{"executable":null}}]}"#;
    let mut events = done(4);
    events.extend([
        InstallEvent::Output(s(one)),
        InstallEvent::Exited(0),
        InstallEvent::Output(s("/bin")),
        InstallEvent::Done,
    ]);
    let state = after(events);
    assert_eq!(state.stage(), InstallStage::CleaningUp);
    assert_eq!(
        failure(state.advance(InstallEvent::Failed(s("in use")))),
        InstallError::IOFailed { detail: s("in use") }
    );
}

#[test]
fn report_of_another_kind_fails_the_stage() {
    assert_eq!(
        failure(after(done(2)).advance(InstallEvent::Output(s("cloned")))),
        InstallError::CloneFailed { detail: s("") }
    );
    assert_eq!(
        failure(after(done(4)).advance(InstallEvent::Done)),
        InstallError::ManifestDumpFailed { detail: s("") }
    );
    assert_eq!(
        failure(after(until_built()).advance(InstallEvent::Done)),
        InstallError::IOFailed { detail: s("") }
    );
    let (state, _) = going(SPMBackend::new(s("owner/repo")).install_version_impl("latest"));
    assert_eq!(
        failure(state.advance(InstallEvent::Done)),
        InstallError::RemoteVersionFetchFailed { detail: s("") }
    );
}

#[test]
fn fetch_clears_the_workspace_first() {
    let (state, action) = going(SPMBackend::clone_package_repo(s(URL), s("main")));
    assert_eq!(state.stage(), InstallStage::ClearingWorkspace);
    assert_eq!(
        action,
        InstallAction::ClearWorkspace { workspace: s("https_github.com_owner_repo.git@main") }
    );
    let (again, same) = going(SPMBackend::clone_package_repo(s(URL), s("main")));
    assert_eq!(again.workspace(), state.workspace());
    assert_eq!(same, action);
}

#[test]
fn version_is_fetched_as_it_is_named() {
    let (state, action) = going(SPMBackend::resolve_version(s(URL), "Latest"));
    assert_eq!(state.version(), "Latest");
    assert_eq!(
        action,
        InstallAction::ClearWorkspace { workspace: s("https_github.com_owner_repo.git@Latest") }
    );
    let (state, action) = going(SPMBackend::resolve_version(s(URL), "latest"));
    assert_eq!(state.stage(), InstallStage::ResolvingLatest);
    assert_eq!(action, InstallAction::ListRemoteVersions);
}
