//! Which entries of a build output directory are installed, and in what order.
//!
//! The caller walks the build output directory and reports every entry it
//! finds; [`SPMBackend::copy_build_artifacts`] answers with the ordered list of filesystem
//! steps that install the product and the shared libraries and bundles found
//! beside it. Paths in the plan are relative: sources to the build output
//! directory, destinations to the destination directory.

use vstd::prelude::*;
use crate::backend::SPMBackend;
use crate::text::{chars_of, text_of};

verus! {

/// One entry found while walking the build output directory.
#[derive(Debug, PartialEq, Eq)]
pub struct BuildEntry {
    /// Path of the entry relative to the build output directory.
    pub relative_path: String,
    /// Last component of the entry's path.
    pub file_name: String,
    /// Whether the entry is a directory.
    pub is_dir: bool,
}

/// The mathematical view of [`BuildEntry`]: the same value over sequences of
/// characters.
pub struct BuildEntryView {
    pub relative_path: Seq<char>,
    pub file_name: Seq<char>,
    pub is_dir: bool,
}

impl View for BuildEntry {
    type V = BuildEntryView;

    open spec fn view(&self) -> BuildEntryView {
        BuildEntryView {
            relative_path: self.relative_path@,
            file_name: self.file_name@,
            is_dir: self.is_dir,
        }
    }
}

/// One filesystem step of an installation.
#[derive(Debug, PartialEq, Eq)]
pub enum ArtifactStep {
    /// Create the destination directory and its missing ancestors.
    CreateDestination,
    /// Create the missing ancestors of the destination of `relative_path`.
    CreateParent { relative_path: String },
    /// Copy the file at `relative_path`.
    CopyFile { relative_path: String },
    /// Copy the directory at `relative_path` with everything below it.
    CopyDirectory { relative_path: String },
}

/// The mathematical view of [`ArtifactStep`]: the same value over sequences of
/// characters.
pub enum ArtifactStepView {
    CreateDestination,
    CreateParent { relative_path: Seq<char> },
    CopyFile { relative_path: Seq<char> },
    CopyDirectory { relative_path: Seq<char> },
}

impl View for ArtifactStep {
    type V = ArtifactStepView;

    open spec fn view(&self) -> ArtifactStepView {
        match self {
            ArtifactStep::CreateDestination => ArtifactStepView::CreateDestination,
            ArtifactStep::CreateParent { relative_path } => ArtifactStepView::CreateParent {
                relative_path: relative_path@,
            },
            ArtifactStep::CopyFile { relative_path } => ArtifactStepView::CopyFile {
                relative_path: relative_path@,
            },
            ArtifactStep::CopyDirectory { relative_path } => ArtifactStepView::CopyDirectory {
                relative_path: relative_path@,
            },
        }
    }
}

/// The views of the entries, in order.
pub open spec fn entry_views(entries: Seq<BuildEntry>) -> Seq<BuildEntryView> {
    Seq::new(entries.len(), |i: int| entries[i]@)
}

/// The views of the steps, in order.
pub open spec fn step_views(steps: Seq<ArtifactStep>) -> Seq<ArtifactStepView> {
    Seq::new(steps.len(), |i: int| steps[i]@)
}

/// Index of the last `.` in `name`, or -1 where it holds none.
pub open spec fn last_dot(name: Seq<char>) -> int
    decreases name.len(),
{
    if name.len() == 0 {
        -1
    } else if name.last() == '.' {
        name.len() - 1
    } else {
        last_dot(name.drop_last())
    }
}

/// The extension of a file name: what follows its last `.`, unless the name
/// is `..`, holds no `.`, or holds its only `.` in front.
pub open spec fn extension(name: Seq<char>) -> Option<Seq<char>> {
    if name == seq!['.', '.'] || last_dot(name) <= 0 {
        None
    } else {
        Some(name.subrange(last_dot(name) + 1, name.len() as int))
    }
}

/// Whether an extension marks a shared library or a bundle.
pub open spec fn is_artifact_extension(ext: Option<Seq<char>>) -> bool {
    ext == Some("dylib"@) || ext == Some("bundle"@)
}

/// Whether a file of that name is installed beside the product.
pub open spec fn is_artifact(file_name: Seq<char>) -> bool {
    is_artifact_extension(extension(file_name))
}

/// The step that copies one artifact: directories whole, files singly.
pub open spec fn copy_step(entry: BuildEntryView) -> ArtifactStepView {
    if entry.is_dir {
        ArtifactStepView::CopyDirectory { relative_path: entry.relative_path }
    } else {
        ArtifactStepView::CopyFile { relative_path: entry.relative_path }
    }
}

/// The steps for the artifacts among `entries`: for each, in the order of the
/// walk, its parent directories and then its copy.
pub open spec fn artifact_steps(entries: Seq<BuildEntryView>) -> Seq<ArtifactStepView>
    decreases entries.len(),
{
    if entries.len() == 0 {
        Seq::empty()
    } else {
        let before = artifact_steps(entries.drop_last());
        let entry = entries.last();
        if is_artifact(entry.file_name) {
            before.push(ArtifactStepView::CreateParent { relative_path: entry.relative_path }).push(
                copy_step(entry),
            )
        } else {
            before
        }
    }
}

/// The whole installation of one product: the destination directory, the
/// product's own file, then the artifacts.
pub open spec fn install_steps(product: Seq<char>, entries: Seq<BuildEntryView>) -> Seq<
    ArtifactStepView,
> {
    seq![
        ArtifactStepView::CreateDestination,
        ArtifactStepView::CopyFile { relative_path: product },
    ] + artifact_steps(entries)
}

/// `last_dot` is the one position that holds a `.` with none behind it.
pub proof fn lemma_last_dot(name: Seq<char>)
    ensures
        -1 <= last_dot(name) < name.len(),
        last_dot(name) >= 0 ==> name[last_dot(name)] == '.',
        forall|j: int| last_dot(name) < j < name.len() ==> name[j] != '.',
    decreases name.len(),
{
    if name.len() > 0 && name.last() != '.' {
        lemma_last_dot(name.drop_last());
        assert forall|j: int| last_dot(name) < j < name.len() implies name[j] != '.' by {
            if j < name.len() - 1 {
                assert(name.drop_last()[j] == name[j]);
            }
        }
    }
}

/// A position that holds a `.` with none behind it is `last_dot`.
pub proof fn lemma_last_dot_is(name: Seq<char>, dot: int)
    requires
        -1 <= dot < name.len(),
        dot >= 0 ==> name[dot] == '.',
        forall|j: int| dot < j < name.len() ==> name[j] != '.',
    ensures
        last_dot(name) == dot,
{
    lemma_last_dot(name);
}

/// Every step for the artifacts belongs to an entry of the walk that is an
/// artifact: it creates the parents of that entry's destination or copies
/// the entry. An entry with another extension is never copied.
pub proof fn lemma_only_artifacts_are_copied(entries: Seq<BuildEntryView>, i: int)
    requires
        0 <= i < artifact_steps(entries).len(),
    ensures
        exists|j: int|
            0 <= j < entries.len() && is_artifact(#[trigger] entries[j].file_name) && (
            artifact_steps(entries)[i] == copy_step(entries[j]) || artifact_steps(entries)[i]
                == (ArtifactStepView::CreateParent { relative_path: entries[j].relative_path })),
    decreases entries.len(),
{
    let before = artifact_steps(entries.drop_last());
    if i < before.len() {
        lemma_only_artifacts_are_copied(entries.drop_last(), i);
        let j = choose|j: int|
            0 <= j < entries.drop_last().len() && is_artifact(
                #[trigger] entries.drop_last()[j].file_name,
            ) && (before[i] == copy_step(entries.drop_last()[j]) || before[i]
                == (ArtifactStepView::CreateParent {
                relative_path: entries.drop_last()[j].relative_path,
            }));
        assert(entries[j] == entries.drop_last()[j]);
        assert(is_artifact(entries[j].file_name));
    } else {
        let j = entries.len() - 1;
        assert(is_artifact(entries[j].file_name));
    }
}

/// Every artifact of the walk is copied, after the parents of its
/// destination were created, and artifacts are copied in the order of the
/// walk.
pub proof fn lemma_every_artifact_is_copied(entries: Seq<BuildEntryView>, j: int)
    requires
        0 <= j < entries.len(),
        is_artifact(entries[j].file_name),
    ensures
        ({
            let at = artifact_steps(entries.take(j)).len() as int;
            &&& at + 1 < artifact_steps(entries).len()
            &&& artifact_steps(entries)[at] == (ArtifactStepView::CreateParent {
                relative_path: entries[j].relative_path,
            })
            &&& artifact_steps(entries)[at + 1] == copy_step(entries[j])
        }),
    decreases entries.len(),
{
    if j == entries.len() - 1 {
        assert(entries.take(j) =~= entries.drop_last());
    } else {
        lemma_every_artifact_is_copied(entries.drop_last(), j);
        assert(entries.drop_last().take(j) =~= entries.take(j));
        assert(entries.drop_last()[j] == entries[j]);
    }
}

/// The extension of a file name.
pub fn extension_of(file_name: &str) -> (r: Option<String>)
    ensures
        match r {
            Some(ext) => extension(file_name@) == Some(ext@),
            None => extension(file_name@) is None,
        },
{
    let chars = chars_of(file_name);
    let n: usize = chars.len();
    if n == 2 && chars[0] == '.' && chars[1] == '.' {
        assert(chars@ =~= seq!['.', '.']);
        return None;
    }
    let mut i: usize = n;
    while i > 0 && chars[i - 1] != '.'
        invariant
            i <= n == chars@.len(),
            forall|j: int| i <= j < n ==> chars@[j] != '.',
        decreases i,
    {
        i -= 1;
    }
    proof {
        lemma_last_dot_is(chars@, i - 1);
        assert(chars@ != seq!['.', '.']) by {
            if chars@ == seq!['.', '.'] {
                assert(chars@.len() == 2);
                assert(chars@[0] == '.' && chars@[1] == '.');
            }
        }
    }
    if i <= 1 {
        None
    } else {
        Some(text_of(&chars, i, n))
    }
}

/// Whether a file of that name is installed beside the product.
pub fn is_artifact_name(file_name: &str) -> (r: bool)
    ensures
        r == is_artifact(file_name@),
{
    match extension_of(file_name) {
        Some(ext) => {
            let dylib = "dylib".to_owned();
            let bundle = "bundle".to_owned();
            ext == dylib || ext == bundle
        },
        None => false,
    }
}

impl SPMBackend {
    /// Plans the installation of `executable` from a build output directory whose
    /// walk reported `entries`.
    ///
    /// The plan creates the destination, copies the product's own file, and then,
    /// for each entry whose extension is `dylib` or `bundle`, in the order of the
    /// walk, creates the parent directories of its destination and copies it: a
    /// directory with everything below it, a file singly. No other entry is
    /// touched.
    pub fn copy_build_artifacts(executable: &str, entries: &Vec<BuildEntry>) -> (steps: Vec<
        ArtifactStep,
    >)
        ensures
            step_views(steps@) == install_steps(executable@, entry_views(entries@)),
    {
        let mut steps: Vec<ArtifactStep> = Vec::new();
        steps.push(ArtifactStep::CreateDestination);
        steps.push(ArtifactStep::CopyFile { relative_path: executable.to_owned() });
        assert(step_views(steps@) =~= install_steps(executable@, entry_views(entries@).take(0)))
            by {
            assert(entry_views(entries@).take(0).len() == 0);
        }
        let n: usize = entries.len();
        let mut i: usize = 0;
        while i < n
            invariant
                i <= n == entries@.len(),
                step_views(steps@) == install_steps(
                    executable@,
                    entry_views(entries@).take(i as int),
                ),
            decreases n - i,
        {
            let entry = &entries[i];
            let ghost views = entry_views(entries@);
            let ghost old_steps = step_views(steps@);
            proof {
                assert(views.take(i + 1).drop_last() =~= views.take(i as int));
                assert(views.take(i + 1).last() == entry@);
            }
            if is_artifact_name(entry.file_name.as_str()) {
                let relative_path = entry.relative_path.clone();
                steps.push(ArtifactStep::CreateParent { relative_path });
                let relative_path = entry.relative_path.clone();
                if entry.is_dir {
                    steps.push(ArtifactStep::CopyDirectory { relative_path });
                } else {
                    steps.push(ArtifactStep::CopyFile { relative_path });
                }
                assert(step_views(steps@) =~= old_steps.push(
                    ArtifactStepView::CreateParent { relative_path: entry@.relative_path },
                ).push(copy_step(entry@)));
            }
            assert(step_views(steps@) =~= install_steps(executable@, views.take(i + 1)));
            i += 1;
        }
        assert(entry_views(entries@).take(n as int) =~= entry_views(entries@));
        steps
    }
}

} // verus!
