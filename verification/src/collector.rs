//! Collecting what the generator produced: which entries of its output
//! directory are artifacts, and where each is copied to.

use crate::error::{text_views, BackendError, ErrorView};
use crate::text::{ends_with, join_path, spec_ends_with, spec_join};
use vstd::prelude::*;

verus! {

/// One file to copy from the generator's output directory to the user's.
#[derive(Clone, Debug, PartialEq, Eq)]
pub struct CopyTask {
    pub file_name: String,
    pub source: String,
    pub target: String,
}

/// The mathematical value of a [`CopyTask`].
pub struct CopyTaskView {
    pub file_name: Seq<char>,
    pub source: Seq<char>,
    pub target: Seq<char>,
}

impl View for CopyTask {
    type V = CopyTaskView;

    open spec fn view(&self) -> CopyTaskView {
        CopyTaskView { file_name: self.file_name@, source: self.source@, target: self.target@ }
    }
}

/// The views of a sequence of tasks, in order.
pub open spec fn task_views(tasks: Seq<CopyTask>) -> Seq<CopyTaskView> {
    Seq::new(tasks.len(), |i: int| tasks[i]@)
}

/// An artifact is a file named with the extension `pdf` after a non-empty stem.
pub open spec fn spec_is_artifact(file_name: Seq<char>) -> bool {
    file_name.len() > 4 && spec_ends_with(file_name, ".pdf"@)
}

/// The directory below the generator's root into which it writes.
pub open spec fn spec_generator_output_dir(backend: Seq<char>) -> Seq<char> {
    spec_join(backend, "out"@)
}

/// The task that copies `file_name`, keeping its name.
pub open spec fn spec_task(backend: Seq<char>, output_dir: Seq<char>, file_name: Seq<char>)
    -> CopyTaskView {
    CopyTaskView {
        file_name,
        source: spec_join(spec_generator_output_dir(backend), file_name),
        target: spec_join(output_dir, file_name),
    }
}

/// The artifacts among `entries`, in the order in which they were listed.
pub open spec fn spec_artifacts(entries: Seq<Seq<char>>) -> Seq<Seq<char>> {
    entries.filter(|name: Seq<char>| spec_is_artifact(name))
}

/// The copies to make for a listing of the output directory.
pub open spec fn spec_collection(
    backend: Seq<char>,
    output_dir: Seq<char>,
    entries: Seq<Seq<char>>,
) -> Seq<CopyTaskView> {
    spec_artifacts(entries).map_values(
        |name: Seq<char>| spec_task(backend, output_dir, name),
    )
}

/// Tests whether a file name carries the artifact extension.
pub fn is_artifact(file_name: &str) -> (yes: bool)
    ensures
        yes == spec_is_artifact(file_name@),
{
    file_name.unicode_len() > 4 && ends_with(file_name, ".pdf")
}

/// The generator's output directory.
pub fn generator_output_dir(backend: &str) -> (dir: String)
    ensures
        dir@ == spec_generator_output_dir(backend@),
{
    join_path(backend, "out")
}

/// Plans the copy for one entry of the generator's output directory: an
/// artifact is copied under its own name into `output_dir`, anything else is
/// passed over.
pub fn plan_copy(backend: &str, output_dir: &str, file_name: &str) -> (task: Option<CopyTask>)
    ensures
        task is Some <==> spec_is_artifact(file_name@),
        task is Some ==> task.unwrap()@ == spec_task(backend@, output_dir@, file_name@),
{
    if is_artifact(file_name) {
        let source_dir = generator_output_dir(backend);
        Some(
            CopyTask {
                file_name: String::from_str(file_name),
                source: join_path(source_dir.as_str(), file_name),
                target: join_path(output_dir, file_name),
            },
        )
    } else {
        None
    }
}

/// Plans the copies for one collection.
///
/// `entries` holds the names found in the generator's output directory in
/// iteration order, or `None` when that directory does not exist, which is not
/// an error: nothing is copied then. Every artifact is copied under its own
/// name into `output_dir`; other entries are passed over.
pub fn plan_collection(backend: &str, output_dir: &str, entries: Option<&Vec<String>>) -> (tasks:
    Vec<CopyTask>)
    ensures
        entries is None ==> tasks@.len() == 0,
        entries is Some ==> task_views(tasks@) == spec_collection(
            backend@,
            output_dir@,
            text_views(entries.unwrap()@),
        ),
{
    let mut tasks: Vec<CopyTask> = Vec::new();
    let names = match entries {
        Some(names) => names,
        None => {
            return tasks;
        },
    };
    let ghost all = text_views(names@);
    let mut i: usize = 0;
    assert(all.take(0) =~= Seq::<Seq<char>>::empty());
    assert(task_views(tasks@) =~= spec_collection(backend@, output_dir@, all.take(0))) by {
        reveal(Seq::filter);
    }
    while i < names.len()
        invariant
            i <= names.len(),
            all == text_views(names@),
            task_views(tasks@) == spec_collection(backend@, output_dir@, all.take(i as int)),
        decreases names.len() - i,
    {
        let name = names[i].as_str();
        let ghost before = task_views(tasks@);
        proof {
            reveal(Seq::filter);
            assert(all.take(i + 1).drop_last() =~= all.take(i as int));
            assert(all.take(i + 1).last() == name@);
        }
        match plan_copy(backend, output_dir, name) {
            Some(task) => {
                tasks.push(task);
                assert(task_views(tasks@) =~= before.push(
                    spec_task(backend@, output_dir@, name@),
                ));
                assert(spec_artifacts(all.take(i + 1)) == spec_artifacts(all.take(i as int)).push(
                    name@,
                ));
                assert(task_views(tasks@) =~= spec_collection(
                    backend@,
                    output_dir@,
                    all.take(i + 1),
                ));
            },
            None => {
                assert(spec_artifacts(all.take(i + 1)) == spec_artifacts(all.take(i as int)));
            },
        }
        i = i + 1;
    }
    assert(all.take(i as int) =~= all);
    tasks
}

/// The names of the files that the tasks copy, in order.
pub fn copied_names(tasks: &Vec<CopyTask>) -> (names: Vec<String>)
    ensures
        names@.len() == tasks@.len(),
        forall|i: int| 0 <= i < names@.len() ==> (#[trigger] names[i])@ == tasks[i].file_name@,
{
    let mut names: Vec<String> = Vec::new();
    let mut i: usize = 0;
    while i < tasks.len()
        invariant
            i <= tasks.len(),
            names@.len() == i,
            forall|k: int| 0 <= k < i ==> (#[trigger] names[k])@ == tasks[k].file_name@,
        decreases tasks.len() - i,
    {
        names.push(tasks[i].file_name.clone());
        i = i + 1;
    }
    names
}

/// The failure reported when a task's copy did not succeed: it names the file.
pub fn copy_failure(task: &CopyTask, cause: &str) -> (error: BackendError)
    ensures
        error@ == (ErrorView::OutputCopyFailed { file: task.file_name@, cause: cause@ }),
{
    BackendError::OutputCopyFailed {
        file: task.file_name.clone(),
        cause: String::from_str(cause),
    }
}

} // verus!
