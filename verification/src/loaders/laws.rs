//! What holds of every full compile and of every event.
//!
//! Each law is stated over the steps that the engine returns and over what
//! the model says they do, for every world and every output directory.

use vstd::prelude::*;
use super::model::Artifacts;
use super::model::World;
use super::step::EntryView;
use super::step::StepView;
use super::watcher::spec_event_steps;
use super::watcher::EventView;

verus! {

impl World {
    /// The number of source files: the regular files of the listing.
    pub open spec fn source_count(self) -> nat {
        self.listing.filter(|entry: EntryView| entry.regular).len()
    }

    /// Entry `i` of `entries` writes `artifact`, and no later entry does.
    pub open spec fn last_to_produce(
        self,
        entries: Seq<EntryView>,
        i: int,
        artifact: Seq<char>,
    ) -> bool {
        &&& 0 <= i < entries.len()
        &&& self.produces(entries[i], artifact)
        &&& forall|j: int| i < j < entries.len() ==> !self.produces(#[trigger] entries[j], artifact)
    }

    /// Every source file compiles.
    pub open spec fn all_compile(self) -> bool {
        forall|i: int|
            0 <= i < self.listing.len() && (#[trigger] self.listing[i]).regular ==> self.result(
                self.listing[i].name,
            ) is Ok
    }

    /// No two source files have the same artifact.
    pub open spec fn artifacts_apart(self) -> bool {
        forall|i: int, j: int|
            0 <= i < j < self.listing.len() && (#[trigger] self.listing[i]).regular && (
            #[trigger] self.listing[j]).regular ==> self.artifact(self.listing[i].name)
                != self.artifact(self.listing[j].name)
    }

    /// After a scan an artifact holds what the last entry to write it wrote.
    /// One that no entry writes is as it was.
    pub proof fn lemma_after_scan(self, entries: Seq<EntryView>, out: Artifacts, artifact: Seq<char>)
        ensures
            (exists|i: int| self.last_to_produce(entries, i, artifact)) || (forall|i: int|
                0 <= i < entries.len() ==> !self.produces(#[trigger] entries[i], artifact)),
            forall|i: int| #[trigger]
                self.last_to_produce(entries, i, artifact) ==> {
                    &&& self.after_scan(entries, out).dom().contains(artifact)
                    &&& self.result(entries[i].name) == Ok::<Seq<char>, Seq<char>>(
                        self.after_scan(entries, out)[artifact],
                    )
                },
            (forall|i: int|
                0 <= i < entries.len() ==> !self.produces(#[trigger] entries[i], artifact)) ==> {
                &&& self.after_scan(entries, out).dom().contains(artifact) == out.dom().contains(
                    artifact,
                )
                &&& self.after_scan(entries, out)[artifact] == out[artifact]
            },
        decreases entries.len(),
    {
        if entries.len() > 0 {
            let rest = entries.drop_last();
            let last = entries.len() - 1;
            self.lemma_after_scan(rest, out, artifact);
            assert forall|i: int| 0 <= i < rest.len() implies rest[i] == entries[i] by {}
            if self.produces(entries[last], artifact) {
                assert(self.last_to_produce(entries, last, artifact));
                assert forall|i: int| #[trigger]
                    self.last_to_produce(entries, i, artifact) implies i == last by {
                    if i < last {
                        assert(!self.produces(entries[last], artifact));
                    }
                }
            } else {
                assert(self.after_scan(entries, out).dom().contains(artifact) == self.after_scan(
                    rest,
                    out,
                ).dom().contains(artifact));
                assert(self.after_scan(entries, out)[artifact] == self.after_scan(
                    rest,
                    out,
                )[artifact]);
                assert forall|i: int| #[trigger]
                    self.last_to_produce(entries, i, artifact) implies self.last_to_produce(
                    rest,
                    i,
                    artifact,
                ) by {
                    assert(i != last);
                    assert forall|j: int| i < j < rest.len() implies !self.produces(
                        #[trigger] rest[j],
                        artifact,
                    ) by {
                        assert(rest[j] == entries[j]);
                    }
                }
                if exists|i: int| self.last_to_produce(rest, i, artifact) {
                    let i = choose|i: int| self.last_to_produce(rest, i, artifact);
                    assert(self.last_to_produce(entries, i, artifact)) by {
                        assert forall|j: int| i < j < entries.len() implies !self.produces(
                            #[trigger] entries[j],
                            artifact,
                        ) by {
                            if j < last {
                                assert(rest[j] == entries[j]);
                            }
                        }
                    }
                } else {
                    assert forall|i: int| 0 <= i < entries.len() implies !self.produces(
                        #[trigger] entries[i],
                        artifact,
                    ) by {
                        if i < last {
                            assert(rest[i] == entries[i]);
                        }
                    }
                }
            }
        }
    }

    /// Where every source file compiles and no two share an artifact, a scan
    /// into an empty directory leaves as many artifacts as there are source
    /// files.
    proof fn lemma_scan_count(self, entries: Seq<EntryView>)
        requires
            forall|i: int|
                0 <= i < entries.len() && (#[trigger] entries[i]).regular ==> self.result(
                    entries[i].name,
                ) is Ok,
            forall|i: int, j: int|
                0 <= i < j < entries.len() && (#[trigger] entries[i]).regular && (
                #[trigger] entries[j]).regular ==> self.artifact(entries[i].name) != self.artifact(
                    entries[j].name,
                ),
        ensures
            self.after_scan(entries, Map::empty()).dom().finite(),
            self.after_scan(entries, Map::empty()).dom().len() == entries.filter(
                |entry: EntryView| entry.regular,
            ).len(),
        decreases entries.len(),
    {
        let regular = |entry: EntryView| entry.regular;
        reveal(Seq::filter);
        if entries.len() > 0 {
            let rest = entries.drop_last();
            let last = entries.len() - 1;
            assert forall|i: int| 0 <= i < rest.len() implies rest[i] == entries[i] by {}
            self.lemma_scan_count(rest);
            let before = self.after_scan(rest, Map::empty());
            if entries[last].regular {
                let artifact = self.artifact(entries[last].name);
                self.lemma_after_scan(rest, Map::empty(), artifact);
                assert forall|i: int| 0 <= i < rest.len() implies !self.produces(
                    #[trigger] rest[i],
                    artifact,
                ) by {
                    assert(rest[i] == entries[i]);
                }
                assert(!before.dom().contains(artifact));
                assert(self.after_scan(entries, Map::empty()).dom() =~= before.dom().insert(
                    artifact,
                ));
                assert(entries.filter(regular) == rest.filter(regular).push(entries[last]));
            } else {
                assert(entries.filter(regular) == rest.filter(regular));
            }
        } else {
            assert(self.after_scan(entries, Map::empty()).dom() =~= Set::<Seq<char>>::empty());
        }
    }

    /// A full compile rebuilds the output directory from nothing: what the
    /// directory held before has no part in what it holds after.
    pub proof fn law_full_compile_rebuilds(self, out: Artifacts)
        ensures
            self.after_full_compile(out) == self.after_scan(self.listing, Map::empty()),
    {
        self.lemma_after_all_two(StepView::Reset, StepView::Scan, out);
    }

    /// After a full compile the output directory holds the artifacts that the
    /// source files wrote and no others, each with the text from the last
    /// source file that wrote it.
    pub proof fn law_full_compile_contents(self, out: Artifacts, artifact: Seq<char>)
        ensures
            self.after_full_compile(out).dom().contains(artifact) <==> exists|i: int|
                self.last_to_produce(self.listing, i, artifact),
            forall|i: int| #[trigger]
                self.last_to_produce(self.listing, i, artifact) ==> self.result(
                    self.listing[i].name,
                ) == Ok::<Seq<char>, Seq<char>>(self.after_full_compile(out)[artifact]),
    {
        self.law_full_compile_rebuilds(out);
        self.lemma_after_scan(self.listing, Map::empty(), artifact);
    }

    /// Where every source file compiles and no two share an artifact, a full
    /// compile leaves exactly one artifact for each source file: under the
    /// file's base name with the output extension, holding what the backend
    /// made of the file's text. The directory holds nothing else.
    pub proof fn law_full_compile_one_artifact_per_source(self, out: Artifacts)
        requires
            self.wf(),
            self.all_compile(),
            self.artifacts_apart(),
        ensures
            forall|i: int|
                0 <= i < self.listing.len() && (#[trigger] self.listing[i]).regular ==> {
                    &&& self.after_full_compile(out).dom().contains(
                        self.artifact(self.listing[i].name),
                    )
                    &&& self.result(self.listing[i].name) == Ok::<Seq<char>, Seq<char>>(
                        self.after_full_compile(out)[self.artifact(self.listing[i].name)],
                    )
                },
            forall|artifact: Seq<char>| #[trigger]
                self.after_full_compile(out).dom().contains(artifact) ==> exists|i: int|
                    0 <= i < self.listing.len() && (#[trigger] self.listing[i]).regular
                        && self.artifact(self.listing[i].name) == artifact,
            self.after_full_compile(out).dom().finite(),
            self.after_full_compile(out).dom().len() == self.source_count(),
    {
        let after = self.after_full_compile(out);
        self.law_full_compile_rebuilds(out);
        self.lemma_scan_count(self.listing);
        assert forall|i: int|
            0 <= i < self.listing.len() && (#[trigger] self.listing[i]).regular implies {
            &&& after.dom().contains(self.artifact(self.listing[i].name))
            &&& self.result(self.listing[i].name) == Ok::<Seq<char>, Seq<char>>(
                after[self.artifact(self.listing[i].name)],
            )
        } by {
            let artifact = self.artifact(self.listing[i].name);
            self.law_full_compile_contents(out, artifact);
            assert(self.produces(self.listing[i], artifact));
            assert(self.last_to_produce(self.listing, i, artifact));
        }
        assert forall|artifact: Seq<char>| #[trigger]
            after.dom().contains(artifact) implies exists|i: int|
            0 <= i < self.listing.len() && (#[trigger] self.listing[i]).regular && self.artifact(
                self.listing[i].name,
            ) == artifact by {
            self.law_full_compile_contents(out, artifact);
            let i = choose|i: int| self.last_to_produce(self.listing, i, artifact);
            assert(self.listing[i].regular);
        }
    }

    /// A second full compile of unchanged sources leaves the output directory
    /// as the first one left it.
    pub proof fn law_full_compile_idempotent(self, out: Artifacts)
        ensures
            self.after_full_compile(self.after_full_compile(out)) == self.after_full_compile(out),
    {
        self.law_full_compile_rebuilds(out);
        self.law_full_compile_rebuilds(self.after_full_compile(out));
    }

    /// A source file that does not compile leaves no artifact in a full
    /// compile, unless another source file writes the artifact that would have
    /// been its own. Every source file that does compile still has its
    /// artifact, with its own text where no later file writes the same one.
    pub proof fn law_full_compile_survives_failure(self, out: Artifacts, failed: int)
        requires
            self.wf(),
            0 <= failed < self.listing.len(),
            self.listing[failed].regular,
            self.result(self.listing[failed].name) is Err,
        ensures
            (forall|j: int|
                0 <= j < self.listing.len() ==> !self.produces(
                    #[trigger] self.listing[j],
                    self.artifact(self.listing[failed].name),
                )) ==> !self.after_full_compile(out).dom().contains(
                self.artifact(self.listing[failed].name),
            ),
            forall|i: int|
                0 <= i < self.listing.len() && (#[trigger] self.listing[i]).regular && self.result(
                    self.listing[i].name,
                ) is Ok ==> self.after_full_compile(out).dom().contains(
                    self.artifact(self.listing[i].name),
                ),
            forall|i: int| #[trigger]
                self.last_to_produce(self.listing, i, self.artifact(self.listing[i].name))
                    ==> self.result(self.listing[i].name) == Ok::<Seq<char>, Seq<char>>(
                    self.after_full_compile(out)[self.artifact(self.listing[i].name)],
                ),
    {
        let after = self.after_full_compile(out);
        let lost = self.artifact(self.listing[failed].name);
        self.law_full_compile_contents(out, lost);
        assert forall|i: int|
            0 <= i < self.listing.len() && (#[trigger] self.listing[i]).regular && self.result(
                self.listing[i].name,
            ) is Ok implies after.dom().contains(self.artifact(self.listing[i].name)) by {
            let artifact = self.artifact(self.listing[i].name);
            self.law_full_compile_rebuilds(out);
            self.lemma_after_scan(self.listing, Map::empty(), artifact);
            assert(self.produces(self.listing[i], artifact));
        }
        assert forall|i: int| #[trigger]
            self.last_to_produce(
                self.listing,
                i,
                self.artifact(self.listing[i].name),
            ) implies self.result(self.listing[i].name) == Ok::<Seq<char>, Seq<char>>(
            after[self.artifact(self.listing[i].name)],
        ) by {
            self.law_full_compile_contents(out, self.artifact(self.listing[i].name));
        }
    }

    /// A created source file that does not compile changes nothing in the
    /// output directory, and neither does one that was written to: its
    /// artifact, if it has one, stays as it was.
    pub proof fn law_failed_compile_changes_nothing(self, source: Seq<char>, out: Artifacts)
        requires
            self.texts.dom().contains(source),
            self.result(source) is Err,
        ensures
            self.after_event(EventView::Create { source }, out) == out,
            self.after_event(EventView::Write { source }, out) == out,
    {
        self.lemma_after_all_one(StepView::Compile { source }, out);
    }

    /// A created source file that compiles gains its artifact, with what the
    /// backend made of its text, and the rest of the output directory stays as
    /// it was. The same holds of a file that was written to.
    pub proof fn law_create_adds_artifact(
        self,
        source: Seq<char>,
        content: Seq<char>,
        out: Artifacts,
    )
        requires
            self.texts.dom().contains(source),
            self.result(source) == Ok::<Seq<char>, Seq<char>>(content),
        ensures
            self.after_event(EventView::Create { source }, out) == out.insert(
                self.artifact(source),
                content,
            ),
            self.after_event(EventView::Write { source }, out) == out.insert(
                self.artifact(source),
                content,
            ),
    {
        self.lemma_after_all_one(StepView::Compile { source }, out);
    }

    /// A removed source file loses its artifact, and the rest of the output
    /// directory stays as it was. Where there was no artifact, nothing changes.
    pub proof fn law_remove_deletes_artifact(self, source: Seq<char>, out: Artifacts)
        ensures
            self.after_event(EventView::Remove { source }, out) == out.remove(
                self.artifact(source),
            ),
            !self.after_event(EventView::Remove { source }, out).dom().contains(
                self.artifact(source),
            ),
            !out.dom().contains(self.artifact(source)) ==> self.after_event(
                EventView::Remove { source },
                out,
            ) == out,
    {
        self.lemma_after_all_one(StepView::Remove { artifact: self.artifact(source) }, out);
        if !out.dom().contains(self.artifact(source)) {
            assert(out.remove(self.artifact(source)) =~= out);
        }
    }

    /// A renamed source file is compiled under its new name into a directory
    /// that has lost the artifact under the old name. So the old artifact is
    /// gone whether or not the file compiles, unless both names share it, and
    /// where the file compiles the new artifact holds what the backend made of
    /// it.
    pub proof fn law_rename_moves_artifact(
        self,
        from: Seq<char>,
        to: Seq<char>,
        out: Artifacts,
    )
        requires
            self.texts.dom().contains(to),
        ensures
            self.after_event(EventView::Rename { from, to }, out) == self.after_compile(
                to,
                out.remove(self.artifact(from)),
            ),
            self.artifact(from) != self.artifact(to) ==> !self.after_event(
                EventView::Rename { from, to },
                out,
            ).dom().contains(self.artifact(from)),
            self.result(to) is Ok ==> {
                &&& self.after_event(EventView::Rename { from, to }, out).dom().contains(
                    self.artifact(to),
                )
                &&& self.result(to) == Ok::<Seq<char>, Seq<char>>(
                    self.after_event(EventView::Rename { from, to }, out)[self.artifact(to)],
                )
            },
    {
        self.lemma_after_all_two(
            StepView::Remove { artifact: self.artifact(from) },
            StepView::Compile { source: to },
            out,
        );
    }

    /// An event that is neither a creation, a write, a removal nor a renaming
    /// changes nothing, and neither does a failure of the event channel.
    pub proof fn law_other_events_change_nothing(self, error: Seq<char>, out: Artifacts)
        ensures
            self.after_event(EventView::Other, out) == out,
            self.after_event(EventView::Disconnected { error }, out) == out,
    {
        let steps = spec_event_steps(self.extension, EventView::Disconnected { error });
        self.lemma_after_all_one(steps[0], out);
        assert(steps =~= seq![steps[0]]);
    }
}

} // verus!
