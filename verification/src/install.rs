//! The course of one installation.
//!
//! An installation alternates between work that only the caller can do
//! (fetching, running the toolchain, copying files) and decisions. The
//! decisions are here: the installation starts with
//! [`SPMBackend::install_version_impl`], which answers with the first action
//! to perform; after each action the caller reports what came of it to
//! [`InstallState::advance`] and is told the next one, until the
//! installation has finished or failed. Every failure ends the attempt.

use vstd::prelude::*;
use crate::backend::SPMBackend;
use crate::error::{InstallError, InstallErrorView};
use crate::json::json_document;
use crate::manifest::{
    executable_names, executables_found, manifest_of, ManifestDecodeErrorView, ProductView,
};
use crate::repository::{parsed_url, repository_url, SwiftPackageRepo, UrlPartsView};
use crate::text::{copy_texts, same_text, texts};
use crate::versions::{latest, latest_stable_version};
use crate::workspace::{workspace_dir_name, workspace_name};

verus! {

/// What an installation is waiting for.
#[derive(Clone, Copy, Debug, PartialEq, Eq, Structural)]
pub enum InstallStage {
    /// The list of remote versions, to resolve `latest`.
    ResolvingLatest,
    /// The removal of what a former attempt left in the workspace.
    ClearingWorkspace,
    /// The directory that will hold the workspace.
    CreatingWorkspaceParent,
    /// The clone of the repository.
    Cloning,
    /// The checkout of the revision.
    CheckingOut,
    /// The manifest, as the toolchain prints it.
    DumpingManifest,
    /// The build of the current product.
    Building,
    /// The directory of the build's output.
    QueryingBinPath,
    /// The installation of the current product's files.
    InstallingArtifacts,
    /// The removal of the workspace.
    CleaningUp,
}

/// An installation under way.
#[derive(Debug, PartialEq, Eq)]
pub struct InstallState {
    stage: InstallStage,
    repo_url: String,
    version: String,
    workspace: String,
    executables: Vec<String>,
    next: usize,
}

/// The mathematical view of [`InstallState`]: the same value over sequences of
/// characters.
pub struct InstallStateView {
    pub stage: InstallStage,
    /// The URL of the repository.
    pub repo_url: Seq<char>,
    /// The version asked for; past `ResolvingLatest`, the revision installed.
    pub version: Seq<char>,
    /// The name of the workspace directory; empty while `latest` is resolved.
    pub workspace: Seq<char>,
    /// The executables of the package, in the order of the manifest.
    pub executables: Seq<Seq<char>>,
    /// The position of the current product among the executables.
    pub next: int,
}

impl InstallStateView {
    /// Whether the stage works on a product.
    pub open spec fn has_product(self) -> bool {
        self.stage == InstallStage::Building || self.stage == InstallStage::QueryingBinPath
            || self.stage == InstallStage::InstallingArtifacts
    }

    /// A stage that works on a product has one: the current position lies
    /// among the executables.
    pub open spec fn well_formed(self) -> bool {
        self.has_product() ==> 0 <= self.next < self.executables.len()
    }
}

impl View for InstallState {
    type V = InstallStateView;

    closed spec fn view(&self) -> InstallStateView {
        InstallStateView {
            stage: self.stage,
            repo_url: self.repo_url@,
            version: self.version@,
            workspace: self.workspace@,
            executables: texts(self.executables@),
            next: self.next as int,
        }
    }
}

/// What came of the action that was asked for last.
#[derive(Debug, PartialEq, Eq)]
pub enum InstallEvent {
    /// The action succeeded and has nothing to report.
    Done,
    /// The action succeeded and printed this.
    Output(String),
    /// The remote versions, oldest first.
    Versions(Vec<String>),
    /// The process ran and exited with this status.
    Exited(i32),
    /// The action failed; the text says how.
    Failed(String),
}

/// The mathematical view of [`InstallEvent`]: the same value over sequences of
/// characters.
pub enum InstallEventView {
    Done,
    Output(Seq<char>),
    Versions(Seq<Seq<char>>),
    Exited(i32),
    Failed(Seq<char>),
}

impl View for InstallEvent {
    type V = InstallEventView;

    open spec fn view(&self) -> InstallEventView {
        match self {
            InstallEvent::Done => InstallEventView::Done,
            InstallEvent::Output(text) => InstallEventView::Output(text@),
            InstallEvent::Versions(list) => InstallEventView::Versions(texts(list@)),
            InstallEvent::Exited(status) => InstallEventView::Exited(*status),
            InstallEvent::Failed(detail) => InstallEventView::Failed(detail@),
        }
    }
}

/// What the caller is asked to do next. `workspace` is the name of the
/// workspace directory below the scratch directory.
#[derive(Debug, PartialEq, Eq)]
pub enum InstallAction {
    /// List the remote versions, oldest first; report `Versions`.
    ListRemoteVersions,
    /// Remove the workspace directory and all it holds, if it exists.
    ClearWorkspace { workspace: String },
    /// Create the directory that will hold the workspace.
    CreateWorkspaceParent { workspace: String },
    /// Clone the repository into the workspace.
    CloneRepository { url: String, workspace: String },
    /// Check out the revision in the workspace.
    CheckoutRevision { workspace: String, revision: String },
    /// Have the toolchain print the manifest; report `Output`.
    DumpManifest { workspace: String },
    /// Build the product for release; report `Exited`.
    Build { workspace: String, product: String },
    /// Ask the toolchain for the directory of the build's output; report
    /// `Output`.
    QueryBinPath { workspace: String, product: String },
    /// Install the product and the artifacts beside it from `bin_path`.
    InstallArtifacts { product: String, bin_path: String },
    /// Remove the workspace directory and all it holds.
    RemoveWorkspace { workspace: String },
}

/// The mathematical view of [`InstallAction`]: the same value over sequences of
/// characters.
pub enum InstallActionView {
    ListRemoteVersions,
    ClearWorkspace { workspace: Seq<char> },
    CreateWorkspaceParent { workspace: Seq<char> },
    CloneRepository { url: Seq<char>, workspace: Seq<char> },
    CheckoutRevision { workspace: Seq<char>, revision: Seq<char> },
    DumpManifest { workspace: Seq<char> },
    Build { workspace: Seq<char>, product: Seq<char> },
    QueryBinPath { workspace: Seq<char>, product: Seq<char> },
    InstallArtifacts { product: Seq<char>, bin_path: Seq<char> },
    RemoveWorkspace { workspace: Seq<char> },
}

impl View for InstallAction {
    type V = InstallActionView;

    open spec fn view(&self) -> InstallActionView {
        match self {
            InstallAction::ListRemoteVersions => InstallActionView::ListRemoteVersions,
            InstallAction::ClearWorkspace { workspace } => InstallActionView::ClearWorkspace {
                workspace: workspace@,
            },
            InstallAction::CreateWorkspaceParent { workspace } => {
                InstallActionView::CreateWorkspaceParent { workspace: workspace@ }
            },
            InstallAction::CloneRepository { url, workspace } => {
                InstallActionView::CloneRepository { url: url@, workspace: workspace@ }
            },
            InstallAction::CheckoutRevision { workspace, revision } => {
                InstallActionView::CheckoutRevision { workspace: workspace@, revision: revision@ }
            },
            InstallAction::DumpManifest { workspace } => InstallActionView::DumpManifest {
                workspace: workspace@,
            },
            InstallAction::Build { workspace, product } => InstallActionView::Build {
                workspace: workspace@,
                product: product@,
            },
            InstallAction::QueryBinPath { workspace, product } => InstallActionView::QueryBinPath {
                workspace: workspace@,
                product: product@,
            },
            InstallAction::InstallArtifacts { product, bin_path } => {
                InstallActionView::InstallArtifacts { product: product@, bin_path: bin_path@ }
            },
            InstallAction::RemoveWorkspace { workspace } => InstallActionView::RemoveWorkspace {
                workspace: workspace@,
            },
        }
    }
}

/// How an installation goes on.
#[derive(Debug, PartialEq, Eq)]
pub enum InstallStep {
    /// Perform `action` and report to `state`.
    Continue { state: InstallState, action: InstallAction },
    /// Everything was installed and the workspace is gone.
    Finished,
    /// The attempt has failed.
    Failed(InstallError),
}

/// The mathematical view of [`InstallStep`]: the same value over sequences of
/// characters.
pub enum InstallStepView {
    Continue { state: InstallStateView, action: InstallActionView },
    Finished,
    Failed(InstallErrorView),
}

impl View for InstallStep {
    type V = InstallStepView;

    open spec fn view(&self) -> InstallStepView {
        match self {
            InstallStep::Continue { state, action } => InstallStepView::Continue {
                state: state@,
                action: action@,
            },
            InstallStep::Finished => InstallStepView::Finished,
            InstallStep::Failed(error) => InstallStepView::Failed(error@),
        }
    }
}

/// What a failed action said, or nothing where the report is of another kind.
pub open spec fn detail(event: InstallEventView) -> Seq<char> {
    match event {
        InstallEventView::Failed(text) => text,
        _ => Seq::empty(),
    }
}

/// The start of a fetch: the workspace of the revision is to be cleared.
pub open spec fn fetch(repo_url: Seq<char>, revision: Seq<char>) -> InstallStepView {
    let workspace = workspace_name(repo_url, revision);
    InstallStepView::Continue {
        state: InstallStateView {
            stage: InstallStage::ClearingWorkspace,
            repo_url,
            version: revision,
            workspace,
            executables: Seq::empty(),
            next: 0,
        },
        action: InstallActionView::ClearWorkspace { workspace },
    }
}

/// The step that follows the resolution of the repository: `latest` asks
/// for the remote versions, any other version is fetched as it is named.
pub open spec fn version_step(repo_url: Seq<char>, requested: Seq<char>) -> InstallStepView {
    if requested == "latest"@ {
        InstallStepView::Continue {
            state: InstallStateView {
                stage: InstallStage::ResolvingLatest,
                repo_url,
                version: requested,
                workspace: Seq::empty(),
                executables: Seq::empty(),
                next: 0,
            },
            action: InstallActionView::ListRemoteVersions,
        }
    } else {
        fetch(repo_url, requested)
    }
}

/// The first step of an installation, given what the URL parser made of the
/// identifier.
pub open spec fn first_step(
    identifier: Seq<char>,
    parsed: Option<UrlPartsView>,
    requested: Seq<char>,
) -> InstallStepView {
    match repository_url(identifier, parsed) {
        None => InstallStepView::Failed(
            InstallErrorView::InvalidRepositoryIdentifier { identifier },
        ),
        Some(repo_url) => version_step(repo_url, requested),
    }
}

/// The build of the executable at `position`.
pub open spec fn build_step(
    state: InstallStateView,
    executables: Seq<Seq<char>>,
    position: int,
) -> InstallStepView {
    InstallStepView::Continue {
        state: InstallStateView {
            stage: InstallStage::Building,
            executables,
            next: position,
            ..state
        },
        action: InstallActionView::Build {
            workspace: state.workspace,
            product: executables[position],
        },
    }
}

/// The step that follows the reading of the manifest: a manifest that could
/// not be read and a package without executables end the attempt; otherwise
/// the first executable is built.
pub open spec fn manifest_step(
    state: InstallStateView,
    names: Result<Seq<Seq<char>>, InstallErrorView>,
) -> InstallStepView {
    match names {
        Err(error) => InstallStepView::Failed(error),
        Ok(executables) => if executables.len() == 0 {
            InstallStepView::Failed(InstallErrorView::NoExecutablesFound)
        } else {
            build_step(state, executables, 0)
        },
    }
}

/// The same installation at another stage.
pub open spec fn at_stage(state: InstallStateView, stage: InstallStage) -> InstallStateView {
    InstallStateView { stage, ..state }
}

/// The step that follows a report.
///
/// Each stage waits for one kind of report and goes on when it comes; any
/// other report ends the attempt with the error of the stage. A build that
/// exits with a status other than 0 has failed. After the last product the
/// workspace is removed, and with that the installation has finished.
pub open spec fn next_step(state: InstallStateView, event: InstallEventView) -> InstallStepView {
    match state.stage {
        InstallStage::ResolvingLatest => match event {
            InstallEventView::Versions(versions) => match latest(versions) {
                None => InstallStepView::Failed(InstallErrorView::NoStableVersionFound),
                Some(version) => fetch(state.repo_url, version),
            },
            _ => InstallStepView::Failed(
                InstallErrorView::RemoteVersionFetchFailed { detail: detail(event) },
            ),
        },
        InstallStage::ClearingWorkspace => match event {
            InstallEventView::Done => InstallStepView::Continue {
                state: at_stage(state, InstallStage::CreatingWorkspaceParent),
                action: InstallActionView::CreateWorkspaceParent { workspace: state.workspace },
            },
            _ => InstallStepView::Failed(InstallErrorView::IOFailed { detail: detail(event) }),
        },
        InstallStage::CreatingWorkspaceParent => match event {
            InstallEventView::Done => InstallStepView::Continue {
                state: at_stage(state, InstallStage::Cloning),
                action: InstallActionView::CloneRepository {
                    url: state.repo_url,
                    workspace: state.workspace,
                },
            },
            _ => InstallStepView::Failed(InstallErrorView::IOFailed { detail: detail(event) }),
        },
        InstallStage::Cloning => match event {
            InstallEventView::Done => InstallStepView::Continue {
                state: at_stage(state, InstallStage::CheckingOut),
                action: InstallActionView::CheckoutRevision {
                    workspace: state.workspace,
                    revision: state.version,
                },
            },
            _ => InstallStepView::Failed(InstallErrorView::CloneFailed { detail: detail(event) }),
        },
        InstallStage::CheckingOut => match event {
            InstallEventView::Done => InstallStepView::Continue {
                state: at_stage(state, InstallStage::DumpingManifest),
                action: InstallActionView::DumpManifest { workspace: state.workspace },
            },
            _ => InstallStepView::Failed(
                InstallErrorView::CheckoutFailed { detail: detail(event) },
            ),
        },
        InstallStage::DumpingManifest => match event {
            InstallEventView::Output(text) => manifest_step(
                state,
                executables_found(manifest_of(json_document(text))),
            ),
            _ => InstallStepView::Failed(
                InstallErrorView::ManifestDumpFailed { detail: detail(event) },
            ),
        },
        InstallStage::Building => match event {
            InstallEventView::Exited(status) => if status == 0 {
                InstallStepView::Continue {
                    state: at_stage(state, InstallStage::QueryingBinPath),
                    action: InstallActionView::QueryBinPath {
                        workspace: state.workspace,
                        product: state.executables[state.next],
                    },
                }
            } else {
                InstallStepView::Failed(
                    InstallErrorView::BuildFailed {
                        product: state.executables[state.next],
                        status,
                    },
                )
            },
            _ => InstallStepView::Failed(InstallErrorView::IOFailed { detail: detail(event) }),
        },
        InstallStage::QueryingBinPath => match event {
            InstallEventView::Output(bin_path) => InstallStepView::Continue {
                state: at_stage(state, InstallStage::InstallingArtifacts),
                action: InstallActionView::InstallArtifacts {
                    product: state.executables[state.next],
                    bin_path,
                },
            },
            _ => InstallStepView::Failed(InstallErrorView::IOFailed { detail: detail(event) }),
        },
        InstallStage::InstallingArtifacts => match event {
            InstallEventView::Done => if state.next + 1 < state.executables.len() {
                build_step(state, state.executables, state.next + 1)
            } else {
                InstallStepView::Continue {
                    state: at_stage(state, InstallStage::CleaningUp),
                    action: InstallActionView::RemoveWorkspace { workspace: state.workspace },
                }
            },
            _ => InstallStepView::Failed(InstallErrorView::CopyFailed { detail: detail(event) }),
        },
        InstallStage::CleaningUp => match event {
            InstallEventView::Done => InstallStepView::Finished,
            _ => InstallStepView::Failed(InstallErrorView::IOFailed { detail: detail(event) }),
        },
    }
}

/// What a failed action said, or nothing where the report is of another kind.
fn detail_of(event: InstallEvent) -> (r: String)
    ensures
        r@ == detail(event@),
{
    match event {
        InstallEvent::Failed(text) => text,
        _ => String::new(),
    }
}

impl InstallState {
    #[verifier::type_invariant]
    spec fn has_its_product(&self) -> bool {
        self@.well_formed()
    }

    /// What the installation is waiting for.
    pub fn stage(&self) -> (r: InstallStage)
        ensures
            r == self@.stage,
    {
        self.stage
    }

    /// The URL of the repository.
    pub fn repo_url(&self) -> (r: &str)
        ensures
            r@ == self@.repo_url,
    {
        self.repo_url.as_str()
    }

    /// The version asked for; past `ResolvingLatest`, the revision installed.
    pub fn version(&self) -> (r: &str)
        ensures
            r@ == self@.version,
    {
        self.version.as_str()
    }

    /// The name of the workspace directory.
    pub fn workspace(&self) -> (r: &str)
        ensures
            r@ == self@.workspace,
    {
        self.workspace.as_str()
    }

    /// The executables of the package, in the order of the manifest.
    pub fn executables(&self) -> (r: Vec<String>)
        ensures
            texts(r@) == self@.executables,
    {
        copy_texts(&self.executables)
    }

    /// The build of the executable at `position`.
    fn build(self, executables: Vec<String>, position: usize) -> (r: InstallStep)
        requires
            position < executables@.len(),
        ensures
            r@ == build_step(self@, texts(executables@), position as int),
    {
        let product = executables[position].clone();
        let action = InstallAction::Build { workspace: self.workspace.clone(), product };
        InstallStep::Continue {
            state: InstallState {
                stage: InstallStage::Building,
                repo_url: self.repo_url,
                version: self.version,
                workspace: self.workspace,
                executables,
                next: position,
            },
            action,
        }
    }

    /// The same installation at another stage that works on no product, or
    /// on the same product.
    fn moved(self, stage: InstallStage) -> (r: InstallState)
        requires
            stage == InstallStage::Building || stage == InstallStage::QueryingBinPath || stage
                == InstallStage::InstallingArtifacts ==> self@.has_product(),
        ensures
            r@ == at_stage(self@, stage),
    {
        proof {
            use_type_invariant(&self);
        }
        InstallState {
            stage,
            repo_url: self.repo_url,
            version: self.version,
            workspace: self.workspace,
            executables: self.executables,
            next: self.next,
        }
    }

    /// Goes on after the manifest was read: `names` holds the executables of
    /// the package in the order of the manifest, or why there are none to
    /// build.
    ///
    /// A failure ends the attempt with the error that is handed in, and so
    /// does a list without executables: nothing is built then. Otherwise
    /// the first executable is built.
    pub fn with_executables(self, names: Result<Vec<String>, InstallError>) -> (r: InstallStep)
        ensures
            r@ == manifest_step(
                self@,
                match names {
                    Ok(list) => Ok(texts(list@)),
                    Err(error) => Err(error@),
                },
            ),
    {
        match names {
            Err(error) => InstallStep::Failed(error),
            Ok(list) => {
                if list.len() == 0 {
                    InstallStep::Failed(InstallError::NoExecutablesFound)
                } else {
                    self.build(list, 0)
                }
            },
        }
    }

    /// Goes on after the caller has performed the action asked for last and
    /// reports what came of it.
    ///
    /// The answer is the step that [`next_step`] describes: the next action
    /// with the state to report to, the end of the installation, or its
    /// failure.
    pub fn advance(self, event: InstallEvent) -> (r: InstallStep)
        ensures
            r@ == next_step(self@, event@),
    {
        proof {
            use_type_invariant(&self);
        }
        match self.stage {
            InstallStage::ResolvingLatest => match event {
                InstallEvent::Versions(versions) => match latest_stable_version(&versions) {
                    None => InstallStep::Failed(InstallError::NoStableVersionFound),
                    Some(version) => SPMBackend::clone_package_repo(self.repo_url, version),
                },
                other => InstallStep::Failed(
                    InstallError::RemoteVersionFetchFailed { detail: detail_of(other) },
                ),
            },
            InstallStage::ClearingWorkspace => match event {
                InstallEvent::Done => {
                    let action = InstallAction::CreateWorkspaceParent {
                        workspace: self.workspace.clone(),
                    };
                    InstallStep::Continue {
                        state: self.moved(InstallStage::CreatingWorkspaceParent),
                        action,
                    }
                },
                other => InstallStep::Failed(InstallError::IOFailed { detail: detail_of(other) }),
            },
            InstallStage::CreatingWorkspaceParent => match event {
                InstallEvent::Done => {
                    let action = InstallAction::CloneRepository {
                        url: self.repo_url.clone(),
                        workspace: self.workspace.clone(),
                    };
                    InstallStep::Continue { state: self.moved(InstallStage::Cloning), action }
                },
                other => InstallStep::Failed(InstallError::IOFailed { detail: detail_of(other) }),
            },
            InstallStage::Cloning => match event {
                InstallEvent::Done => {
                    let action = InstallAction::CheckoutRevision {
                        workspace: self.workspace.clone(),
                        revision: self.version.clone(),
                    };
                    InstallStep::Continue { state: self.moved(InstallStage::CheckingOut), action }
                },
                other => InstallStep::Failed(
                    InstallError::CloneFailed { detail: detail_of(other) },
                ),
            },
            InstallStage::CheckingOut => match event {
                InstallEvent::Done => {
                    let action = InstallAction::DumpManifest { workspace: self.workspace.clone() };
                    InstallStep::Continue {
                        state: self.moved(InstallStage::DumpingManifest),
                        action,
                    }
                },
                other => InstallStep::Failed(
                    InstallError::CheckoutFailed { detail: detail_of(other) },
                ),
            },
            InstallStage::DumpingManifest => match event {
                InstallEvent::Output(text) => {
                    let names = SPMBackend::get_executable_names(text.as_str());
                    self.with_executables(names)
                },
                other => InstallStep::Failed(
                    InstallError::ManifestDumpFailed { detail: detail_of(other) },
                ),
            },
            InstallStage::Building => match event {
                InstallEvent::Exited(status) => {
                    let product = self.executables[self.next].clone();
                    if status == 0 {
                        let action = InstallAction::QueryBinPath {
                            workspace: self.workspace.clone(),
                            product,
                        };
                        InstallStep::Continue {
                            state: self.moved(InstallStage::QueryingBinPath),
                            action,
                        }
                    } else {
                        InstallStep::Failed(InstallError::BuildFailed { product, status })
                    }
                },
                other => InstallStep::Failed(InstallError::IOFailed { detail: detail_of(other) }),
            },
            InstallStage::QueryingBinPath => match event {
                InstallEvent::Output(bin_path) => {
                    let action = InstallAction::InstallArtifacts {
                        product: self.executables[self.next].clone(),
                        bin_path,
                    };
                    InstallStep::Continue {
                        state: self.moved(InstallStage::InstallingArtifacts),
                        action,
                    }
                },
                other => InstallStep::Failed(InstallError::IOFailed { detail: detail_of(other) }),
            },
            InstallStage::InstallingArtifacts => match event {
                InstallEvent::Done => {
                    let count: usize = self.executables.len();
                    if self.next + 1 < count {
                        let position = self.next + 1;
                        let executables = copy_texts(&self.executables);
                        self.build(executables, position)
                    } else {
                        let action = InstallAction::RemoveWorkspace {
                            workspace: self.workspace.clone(),
                        };
                        InstallStep::Continue {
                            state: self.moved(InstallStage::CleaningUp),
                            action,
                        }
                    }
                },
                other => InstallStep::Failed(
                    InstallError::CopyFailed { detail: detail_of(other) },
                ),
            },
            InstallStage::CleaningUp => match event {
                InstallEvent::Done => InstallStep::Finished,
                other => InstallStep::Failed(InstallError::IOFailed { detail: detail_of(other) }),
            },
        }
    }
}

impl SPMBackend {
    /// Starts the fetch of a revision of a repository.
    ///
    /// The workspace is named after the URL and the revision. The first
    /// action clears it; the directory that holds it, the clone and the
    /// checkout follow as each of them succeeds.
    pub fn clone_package_repo(repo_url: String, revision: String) -> (r: InstallStep)
        ensures
            r@ == fetch(repo_url@, revision@),
    {
        let workspace = workspace_dir_name(repo_url.as_str(), revision.as_str());
        let action = InstallAction::ClearWorkspace { workspace: workspace.clone() };
        let executables: Vec<String> = Vec::new();
        assert(texts(executables@) =~= Seq::empty());
        InstallStep::Continue {
            state: InstallState {
                stage: InstallStage::ClearingWorkspace,
                repo_url,
                version: revision,
                workspace,
                executables,
                next: 0,
            },
            action,
        }
    }

    /// Goes on after the repository was resolved: `latest` asks for the
    /// remote versions first, any other version is fetched as it is named.
    pub fn resolve_version(repo_url: String, requested_version: &str) -> (r: InstallStep)
        ensures
            r@ == version_step(repo_url@, requested_version@),
    {
        if same_text(requested_version, "latest") {
            let executables: Vec<String> = Vec::new();
            assert(texts(executables@) =~= Seq::empty());
            InstallStep::Continue {
                state: InstallState {
                    stage: InstallStage::ResolvingLatest,
                    repo_url,
                    version: requested_version.to_owned(),
                    workspace: String::new(),
                    executables,
                    next: 0,
                },
                action: InstallAction::ListRemoteVersions,
            }
        } else {
            SPMBackend::clone_package_repo(repo_url, requested_version.to_owned())
        }
    }

    /// Starts the installation of a version of the package.
    ///
    /// An identifier that names no repository ends the attempt at once.
    /// Otherwise the answer is the first action: for `latest` the listing of
    /// the remote versions, for any other version the clearing of its
    /// workspace. An identifier without a colon is no URL: it is resolved as
    /// a shorthand or refused.
    pub fn install_version_impl(&self, requested_version: &str) -> (r: InstallStep)
        ensures
            r@ == first_step(
                self.identifier(),
                parsed_url(self.identifier()),
                requested_version@,
            ),
            !self.identifier().contains(':') ==> r@ == first_step(
                self.identifier(),
                None,
                requested_version@,
            ),
    {
        match SwiftPackageRepo::from_str(self.name()) {
            Err(error) => InstallStep::Failed(error),
            Ok(repo) => SPMBackend::resolve_version(repo.url, requested_version),
        }
    }
}

/// A package whose manifest names no executable is not installed: the
/// attempt ends when the manifest is read, and no build is asked for.
pub proof fn lemma_no_executables_fails(
    state: InstallStateView,
    text: Seq<char>,
    products: Seq<ProductView>,
)
    requires
        state.stage == InstallStage::DumpingManifest,
        manifest_of(json_document(text)) == Ok::<Seq<ProductView>, ManifestDecodeErrorView>(
            products,
        ),
        executable_names(products).len() == 0,
    ensures
        next_step(state, InstallEventView::Output(text)) == InstallStepView::Failed(
            InstallErrorView::NoExecutablesFound,
        ),
{
}

/// A build is asked for only when the manifest was read or a product was
/// installed, and only of an executable of the package: the one at the
/// position that the next state holds. After a product the next in the
/// order of the manifest is built.
pub proof fn lemma_build_has_executable(state: InstallStateView, event: InstallEventView)
    requires
        state.well_formed(),
        next_step(state, event) is Continue,
        next_step(state, event)->action is Build,
    ensures
        state.stage == InstallStage::DumpingManifest || state.stage
            == InstallStage::InstallingArtifacts,
        ({
            let then = next_step(state, event)->state;
            &&& then.stage == InstallStage::Building
            &&& 0 <= then.next < then.executables.len()
            &&& next_step(state, event)->action == InstallActionView::Build {
                workspace: state.workspace,
                product: then.executables[then.next],
            }
            &&& state.stage == InstallStage::DumpingManifest ==> then.next == 0
            &&& state.stage == InstallStage::InstallingArtifacts ==> then.next == state.next + 1
                && then.executables == state.executables
        }),
{
}

/// The repository is cloned only into a workspace that was cleared: the
/// clone follows the creation of the workspace's parent, that follows the
/// clearing, each when it has succeeded, and a fetch starts with the
/// clearing of the workspace that is named after the URL and the revision.
pub proof fn lemma_workspace_is_cleared_before_clone(
    state: InstallStateView,
    event: InstallEventView,
)
    requires
        next_step(state, event) is Continue,
    ensures
        ({
            let then = next_step(state, event)->state;
            let action = next_step(state, event)->action;
            &&& action is CloneRepository ==> state.stage == InstallStage::CreatingWorkspaceParent
                && event is Done && action == (InstallActionView::CloneRepository {
                url: state.repo_url,
                workspace: state.workspace,
            })
            &&& then.stage == InstallStage::CreatingWorkspaceParent ==> state.stage
                == InstallStage::ClearingWorkspace && event is Done && then.workspace
                == state.workspace
            &&& then.stage == InstallStage::ClearingWorkspace ==> then.workspace == workspace_name(
                then.repo_url,
                then.version,
            ) && action == (InstallActionView::ClearWorkspace { workspace: then.workspace })
        }),
{
}

/// An installation finishes only when its workspace was removed, and the
/// removal is asked for only when the last product was installed.
pub proof fn lemma_finishes_after_cleanup(state: InstallStateView, event: InstallEventView)
    ensures
        next_step(state, event) is Finished ==> state.stage == InstallStage::CleaningUp
            && event is Done,
        next_step(state, event) is Continue && next_step(state, event)->action
            is RemoveWorkspace ==> {
            &&& state.stage == InstallStage::InstallingArtifacts
            &&& event is Done
            &&& state.next + 1 >= state.executables.len()
            &&& next_step(state, event)->state.stage == InstallStage::CleaningUp
            &&& next_step(state, event)->action == (InstallActionView::RemoveWorkspace {
                workspace: state.workspace,
            })
        },
{
}

/// Once the revision is chosen, the repository, the revision and the
/// workspace stay as they are to the end.
pub proof fn lemma_revision_is_kept(state: InstallStateView, event: InstallEventView)
    requires
        state.stage != InstallStage::ResolvingLatest,
        next_step(state, event) is Continue,
    ensures
        ({
            let then = next_step(state, event)->state;
            &&& then.repo_url == state.repo_url
            &&& then.version == state.version
            &&& then.workspace == state.workspace
        }),
{
}

/// Well-formed states are followed by well-formed states.
pub proof fn lemma_steps_keep_well_formed(state: InstallStateView, event: InstallEventView)
    requires
        state.well_formed(),
        next_step(state, event) is Continue,
    ensures
        next_step(state, event)->state.well_formed(),
{
}

/// An installation fails at once exactly where the identifier names no
/// repository. Otherwise it starts in a well-formed state: with `latest` by
/// listing the remote versions, with any other version by clearing the
/// workspace of that version.
pub proof fn lemma_first_step(
    identifier: Seq<char>,
    parsed: Option<UrlPartsView>,
    requested: Seq<char>,
)
    ensures
        first_step(identifier, parsed, requested) is Failed <==> repository_url(
            identifier,
            parsed,
        ) is None,
        !(first_step(identifier, parsed, requested) is Finished),
        first_step(identifier, parsed, requested) is Continue ==> ({
            let then = first_step(identifier, parsed, requested)->state;
            let action = first_step(identifier, parsed, requested)->action;
            &&& then.well_formed()
            &&& repository_url(identifier, parsed) == Some(then.repo_url)
            &&& requested == "latest"@ ==> action is ListRemoteVersions
            &&& requested != "latest"@ ==> action == (InstallActionView::ClearWorkspace {
                workspace: workspace_name(then.repo_url, requested),
            })
        }),
{
}

} // verus!
