//! What a loader asks of its host.
//!
//! A loader never touches the file system or the console. It returns steps,
//! and the host carries them out in the order given. Two kinds of step send
//! the host back to the library with what it has read: [`Step::Scan`] with the
//! listing of the source directory, [`Step::Compile`] with the text of one
//! source file.

use vstd::prelude::*;
use super::info::Info;
use super::naming::artifact_name;
use super::naming::spec_artifact_name;

verus! {

/// One thing for the host to do.
#[derive(Clone, Debug, PartialEq, Eq)]
pub enum Step {
    /// Remove the output directory with all that is in it, and create it again,
    /// empty. A failure is fatal.
    Reset,
    /// List the entries directly inside the source directory, hand them to
    /// [`scan_steps`], and carry out what it returns. A failure to list is fatal.
    Scan,
    /// Read the source file of this name, hand its text to
    /// [`Loader::compile_file`](super::Loader::compile_file), and carry out what
    /// it returns. A failure to read is fatal.
    Compile { source: String },
    /// Write the artifact of this name, over what may be there. A failure is
    /// fatal.
    Write { artifact: String, content: String },
    /// Delete the artifact of this name if there is one. Where there is none,
    /// nothing is wrong; a deletion that fails is fatal.
    Remove { artifact: String },
    /// Print one line on the console.
    Print { line: String },
}

/// A [`Step`] as plain text.
pub enum StepView {
    Reset,
    Scan,
    Compile { source: Seq<char> },
    Write { artifact: Seq<char>, content: Seq<char> },
    Remove { artifact: Seq<char> },
    Print { line: Seq<char> },
}

impl View for Step {
    type V = StepView;

    open spec fn view(&self) -> StepView {
        match *self {
            Step::Reset => StepView::Reset,
            Step::Scan => StepView::Scan,
            Step::Compile { source } => StepView::Compile { source: source@ },
            Step::Write { artifact, content } => StepView::Write {
                artifact: artifact@,
                content: content@,
            },
            Step::Remove { artifact } => StepView::Remove { artifact: artifact@ },
            Step::Print { line } => StepView::Print { line: line@ },
        }
    }
}

impl DeepView for Step {
    type V = StepView;

    open spec fn deep_view(&self) -> StepView {
        self@
    }
}

/// One entry of the source directory, as the host lists it.
#[derive(Clone, Debug, PartialEq, Eq)]
pub struct Entry {
    /// The entry's file name.
    pub name: String,
    /// Whether the entry is a regular file. Only those are sources.
    pub regular: bool,
}

/// An [`Entry`] as plain text.
pub struct EntryView {
    pub name: Seq<char>,
    pub regular: bool,
}

impl View for Entry {
    type V = EntryView;

    open spec fn view(&self) -> EntryView {
        EntryView { name: self.name@, regular: self.regular }
    }
}

impl DeepView for Entry {
    type V = EntryView;

    open spec fn deep_view(&self) -> EntryView {
        self@
    }
}

/// What a backend made of a source text, as plain text.
pub open spec fn result_view(result: Result<String, String>) -> Result<Seq<char>, Seq<char>> {
    match result {
        Ok(content) => Ok(content@),
        Err(diagnostic) => Err(diagnostic@),
    }
}

/// A full compile: wipe the output directory, then compile what the source
/// directory holds.
pub open spec fn spec_full_compile_steps() -> Seq<StepView> {
    seq![StepView::Reset, StepView::Scan]
}

/// The step that an entry of the source directory calls for, if any: a regular
/// file is compiled, anything else is passed over.
pub open spec fn spec_entry_step(entry: EntryView) -> Option<StepView> {
    if entry.regular {
        Some(StepView::Compile { source: entry.name })
    } else {
        None
    }
}

/// The steps for a listing of the source directory: one compile for each
/// regular file, in the order listed.
pub open spec fn spec_scan_steps(entries: Seq<EntryView>) -> Seq<StepView> {
    entries.filter_map(|entry: EntryView| spec_entry_step(entry))
}

/// The line that reports the source file `source` as compiled.
pub open spec fn spec_compiled_line(source: Seq<char>) -> Seq<char> {
    "Compiled "@ + source
}

/// The line that shows a diagnostic: the diagnostic after an empty line.
pub open spec fn spec_diagnostic_line(diagnostic: Seq<char>) -> Seq<char> {
    seq!['\n'] + diagnostic
}

/// The steps that follow from what the backend made of the source file
/// `source`. A compiled text is written to the file's artifact and reported;
/// a diagnostic is shown and nothing is written.
pub open spec fn spec_file_steps(
    extension: Seq<char>,
    source: Seq<char>,
    result: Result<Seq<char>, Seq<char>>,
) -> Seq<StepView> {
    match result {
        Ok(content) => seq![
            StepView::Write { artifact: spec_artifact_name(source, extension), content },
            StepView::Print { line: spec_compiled_line(source) },
        ],
        Err(diagnostic) => seq![StepView::Print { line: spec_diagnostic_line(diagnostic) }],
    }
}

/// The steps of a full compile.
pub fn full_compile_steps() -> (steps: Vec<Step>)
    ensures
        steps.deep_view() == spec_full_compile_steps(),
{
    let mut steps: Vec<Step> = Vec::new();
    steps.push(Step::Reset);
    steps.push(Step::Scan);
    assert(steps.deep_view() =~= spec_full_compile_steps());
    steps
}

/// The steps for a listing of the source directory.
pub fn scan_steps(entries: &Vec<Entry>) -> (steps: Vec<Step>)
    ensures
        steps.deep_view() == spec_scan_steps(entries.deep_view()),
{
    let ghost listed = entries.deep_view();
    let ghost pick = |entry: EntryView| spec_entry_step(entry);
    let mut steps: Vec<Step> = Vec::new();
    let mut i: usize = 0;
    assert(listed.take(0) =~= Seq::<EntryView>::empty());
    assert(steps.deep_view() =~= listed.take(0).filter_map(pick));
    while i < entries.len()
        invariant
            i <= entries.len(),
            listed == entries.deep_view(),
            pick == |entry: EntryView| spec_entry_step(entry),
            steps.deep_view() == listed.take(i as int).filter_map(pick),
        decreases entries.len() - i,
    {
        let ghost before = steps.deep_view();
        proof {
            listed.lemma_filter_map_take_succ(pick, i as int);
        }
        if entries[i].regular {
            steps.push(Step::Compile { source: entries[i].name.clone() });
            assert(steps.deep_view() =~= before + seq![spec_entry_step(listed[i as int])->0]);
        }
        i = i + 1;
    }
    assert(listed.take(i as int) =~= listed);
    steps
}

/// The steps that follow from what the backend made of one source file.
pub fn file_steps(info: &Info, source: &str, result: Result<String, String>) -> (steps: Vec<Step>)
    ensures
        steps.deep_view() == spec_file_steps(
            info@.output_extension,
            source@,
            result_view(result),
        ),
{
    let mut steps: Vec<Step> = Vec::new();
    match result {
        Ok(content) => {
            let artifact = artifact_name(source, info.output_extension());
            let line = String::from_str("Compiled ").concat(source);
            steps.push(Step::Write { artifact, content });
            steps.push(Step::Print { line });
        },
        Err(diagnostic) => {
            proof {
                reveal_strlit("\n");
            }
            let line = String::from_str("\n").concat(diagnostic.as_str());
            assert(line@ =~= spec_diagnostic_line(diagnostic@));
            steps.push(Step::Print { line });
        },
    }
    assert(steps.deep_view() =~= spec_file_steps(
        info@.output_extension,
        source@,
        result_view(result),
    ));
    steps
}

} // verus!
