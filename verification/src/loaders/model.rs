//! What the steps do to the output directory.
//!
//! The output directory is a flat set of named texts. A [`World`] is all that
//! a run of steps meets besides: the backend, and the source directory as the
//! host would list and read it. `World::after_all` says what the output
//! directory holds once the host has carried a list of steps out. It speaks of
//! the runs that come to an end: a host that cannot read, write or delete
//! stops where it stands.

use vstd::prelude::*;
use super::info::Info;
use super::naming::spec_artifact_name;
use super::step::result_view;
use super::step::spec_entry_step;
use super::step::spec_file_steps;
use super::step::spec_full_compile_steps;
use super::step::spec_scan_steps;
use super::step::EntryView;
use super::step::Step;
use super::step::StepView;
use super::watcher::spec_event_steps;
use super::watcher::EventView;
use super::Loader;

verus! {

/// The output directory: each artifact's text under its name.
pub type Artifacts = Map<Seq<char>, Seq<char>>;

/// The surroundings of a run.
pub struct World {
    /// The output extension of the loader.
    pub extension: Seq<char>,
    /// The backend, as the function of the source text that it is.
    pub capability: spec_fn(Seq<char>) -> Result<Seq<char>, Seq<char>>,
    /// The entries of the source directory, in the order in which the host
    /// lists them.
    pub listing: Seq<EntryView>,
    /// The text of each source file, under its name.
    pub texts: Map<Seq<char>, Seq<char>>,
}

impl World {
    /// Every regular file that the listing names can be read.
    pub open spec fn wf(self) -> bool {
        forall|i: int|
            0 <= i < self.listing.len() && self.listing[i].regular
                ==> self.texts.dom().contains(#[trigger] self.listing[i].name)
    }

    /// The artifact of the source file `source`.
    pub open spec fn artifact(self, source: Seq<char>) -> Seq<char> {
        spec_artifact_name(source, self.extension)
    }

    /// What the backend makes of the source file `source`.
    pub open spec fn result(self, source: Seq<char>) -> Result<Seq<char>, Seq<char>> {
        (self.capability)(self.texts[source])
    }

    /// Whether compiling `entry` writes the artifact called `artifact`.
    pub open spec fn produces(self, entry: EntryView, artifact: Seq<char>) -> bool {
        &&& entry.regular
        &&& self.result(entry.name) is Ok
        &&& self.artifact(entry.name) == artifact
    }

    /// The output directory after the source file `source` was compiled: with
    /// its artifact where the text compiles, as it was where it does not.
    pub open spec fn after_compile(self, source: Seq<char>, out: Artifacts) -> Artifacts {
        match self.result(source) {
            Ok(content) => out.insert(self.artifact(source), content),
            Err(_) => out,
        }
    }

    /// The output directory after the regular files among `entries` were
    /// compiled, one after the other.
    pub open spec fn after_scan(self, entries: Seq<EntryView>, out: Artifacts) -> Artifacts
        decreases entries.len(),
    {
        if entries.len() == 0 {
            out
        } else {
            let before = self.after_scan(entries.drop_last(), out);
            if entries.last().regular {
                self.after_compile(entries.last().name, before)
            } else {
                before
            }
        }
    }

    /// The output directory after one step.
    pub open spec fn after(self, step: StepView, out: Artifacts) -> Artifacts {
        match step {
            StepView::Reset => Map::empty(),
            StepView::Scan => self.after_scan(self.listing, out),
            StepView::Compile { source } => self.after_compile(source, out),
            StepView::Write { artifact, content } => out.insert(artifact, content),
            StepView::Remove { artifact } => out.remove(artifact),
            StepView::Print { line } => out,
        }
    }

    /// The output directory after a list of steps, carried out in order.
    pub open spec fn after_all(self, steps: Seq<StepView>, out: Artifacts) -> Artifacts
        decreases steps.len(),
    {
        if steps.len() == 0 {
            out
        } else {
            self.after(steps.last(), self.after_all(steps.drop_last(), out))
        }
    }

    /// The output directory after a full compile.
    pub open spec fn after_full_compile(self, out: Artifacts) -> Artifacts {
        self.after_all(spec_full_compile_steps(), out)
    }

    /// The output directory after the watcher has dealt with `event`.
    pub open spec fn after_event(self, event: EventView, out: Artifacts) -> Artifacts {
        self.after_all(spec_event_steps(self.extension, event), out)
    }

    /// This world is the one that `loader` runs in: the extension is that of
    /// its configuration, and the capability returns what its `compile_string`
    /// does.
    pub open spec fn describes<L: Loader>(self, loader: &L) -> bool {
        &&& forall|info: Info| #[trigger]
            call_ensures(L::info, (), info) ==> info@.output_extension == self.extension
        &&& forall|text: String, result: Result<String, String>| #[trigger]
            call_ensures(L::compile_string, (loader, text), result) ==> result_view(result) == (
            self.capability)(text@)
    }

    /// Steps in a row have the effect of the first part, then that of the
    /// second.
    pub proof fn lemma_after_all_concat(
        self,
        first: Seq<StepView>,
        second: Seq<StepView>,
        out: Artifacts,
    )
        ensures
            self.after_all(first + second, out) == self.after_all(
                second,
                self.after_all(first, out),
            ),
        decreases second.len(),
    {
        if second.len() == 0 {
            assert(first + second =~= first);
        } else {
            assert((first + second).drop_last() =~= first + second.drop_last());
            self.lemma_after_all_concat(first, second.drop_last(), out);
        }
    }

    /// A single step has its own effect.
    pub proof fn lemma_after_all_one(self, step: StepView, out: Artifacts)
        ensures
            self.after_all(seq![step], out) == self.after(step, out),
    {
        assert(seq![step].drop_last() =~= Seq::<StepView>::empty());
        assert(self.after_all(Seq::<StepView>::empty(), out) == out);
    }

    /// Two steps have the effect of the first, then that of the second.
    pub proof fn lemma_after_all_two(self, first: StepView, second: StepView, out: Artifacts)
        ensures
            self.after_all(seq![first, second], out) == self.after(
                second,
                self.after(first, out),
            ),
    {
        self.lemma_after_all_one(first, out);
        assert(seq![first, second].drop_last() =~= seq![first]);
    }

    /// A compile step is carried out by handing the file's text to the loader
    /// and carrying out what comes back. That has the effect which the model
    /// gives to the step.
    pub proof fn lemma_file_steps(self, source: Seq<char>, out: Artifacts)
        ensures
            self.after_all(spec_file_steps(self.extension, source, self.result(source)), out)
                == self.after(StepView::Compile { source }, out),
    {
        match self.result(source) {
            Ok(content) => {
                let steps = spec_file_steps(self.extension, source, self.result(source));
                self.lemma_after_all_two(steps[0], steps[1], out);
                assert(steps =~= seq![steps[0], steps[1]]);
            },
            Err(diagnostic) => {
                let steps = spec_file_steps(self.extension, source, self.result(source));
                self.lemma_after_all_one(steps[0], out);
                assert(steps =~= seq![steps[0]]);
            },
        }
    }

    /// The steps for a listing have the effect of compiling its regular files
    /// in order.
    pub proof fn lemma_scan_steps_of(self, entries: Seq<EntryView>, out: Artifacts)
        ensures
            self.after_all(spec_scan_steps(entries), out) == self.after_scan(entries, out),
        decreases entries.len(),
    {
        if entries.len() > 0 {
            let pick = |entry: EntryView| spec_entry_step(entry);
            let rest = entries.drop_last();
            self.lemma_scan_steps_of(rest, out);
            assert(spec_scan_steps(rest) == rest.filter_map(pick));
            if entries.last().regular {
                let step = StepView::Compile { source: entries.last().name };
                assert(spec_scan_steps(entries) == spec_scan_steps(rest) + seq![step]);
                self.lemma_after_all_concat(spec_scan_steps(rest), seq![step], out);
                self.lemma_after_all_one(step, self.after_all(spec_scan_steps(rest), out));
            } else {
                assert(spec_scan_steps(entries) == spec_scan_steps(rest));
            }
        }
    }

    /// A scan step is carried out by handing the listing to the library and
    /// carrying out what comes back. That has the effect which the model gives
    /// to the step.
    pub proof fn lemma_scan_steps(self, out: Artifacts)
        ensures
            self.after_all(spec_scan_steps(self.listing), out) == self.after(StepView::Scan, out),
    {
        self.lemma_scan_steps_of(self.listing, out);
    }

    /// What a loader's `compile_file` returns for a source file has the effect
    /// which the model gives to compiling that file, in every world that
    /// describes the loader.
    pub proof fn lemma_compile_file<L: Loader>(
        self,
        loader: &L,
        source: &str,
        text: String,
        steps: Vec<Step>,
        out: Artifacts,
    )
        requires
            self.describes(loader),
            self.texts.dom().contains(source@),
            text@ == self.texts[source@],
            call_ensures(L::compile_file, (loader, source, text), steps),
        ensures
            self.after_all(steps.deep_view(), out) == self.after(
                StepView::Compile { source: source@ },
                out,
            ),
    {
        let (info, result) = choose|info: Info, result: Result<String, String>|
            {
                &&& call_ensures(L::info, (), info)
                &&& call_ensures(L::compile_string, (loader, text), result)
                &&& steps.deep_view() == spec_file_steps(
                    info@.output_extension,
                    source@,
                    result_view(result),
                )
            };
        self.lemma_file_steps(source@, out);
    }
}

} // verus!
