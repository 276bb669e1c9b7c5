//! Hot reloading: what to do when a source file changes.
//!
//! The host watches the source directory and hands each settled change to
//! [`HotReload::on_event`]. There is one state, waiting for the next event,
//! and no event ends it.

use vstd::prelude::*;
use super::info::Info;
use super::naming::artifact_name;
use super::naming::spec_artifact_name;
use super::step::Step;
use super::step::StepView;

verus! {

/// How long the host lets the changes to one path settle before it reports
/// them as one event, in milliseconds.
pub const DEBOUNCE_MILLIS: u64 = 100;

/// A settled change in the source directory, or the loss of the channel that
/// brings them. A file is known by its name: the watch does not look into
/// subdirectories.
#[derive(Clone, Debug, PartialEq, Eq)]
pub enum Event {
    /// A file was created.
    Create { source: String },
    /// A file was written to.
    Write { source: String },
    /// A file was removed.
    Remove { source: String },
    /// A file was renamed.
    Rename { from: String, to: String },
    /// Anything else that the host hears of.
    Other,
    /// The channel failed to deliver an event. `error` describes the failure.
    Disconnected { error: String },
}

/// An [`Event`] as plain text.
pub enum EventView {
    Create { source: Seq<char> },
    Write { source: Seq<char> },
    Remove { source: Seq<char> },
    Rename { from: Seq<char>, to: Seq<char> },
    Other,
    Disconnected { error: Seq<char> },
}

impl View for Event {
    type V = EventView;

    open spec fn view(&self) -> EventView {
        match *self {
            Event::Create { source } => EventView::Create { source: source@ },
            Event::Write { source } => EventView::Write { source: source@ },
            Event::Remove { source } => EventView::Remove { source: source@ },
            Event::Rename { from, to } => EventView::Rename { from: from@, to: to@ },
            Event::Other => EventView::Other,
            Event::Disconnected { error } => EventView::Disconnected { error: error@ },
        }
    }
}

/// The watch that the host registers.
#[derive(Clone, Debug, PartialEq, Eq)]
pub struct Watch {
    /// The directory to watch.
    pub directory: String,
    /// Whether to watch its subdirectories too.
    pub recursive: bool,
    /// The debounce window, in milliseconds.
    pub debounce_millis: u64,
}

/// A [`Watch`] as plain text.
pub struct WatchView {
    pub directory: Seq<char>,
    pub recursive: bool,
    pub debounce_millis: u64,
}

impl View for Watch {
    type V = WatchView;

    open spec fn view(&self) -> WatchView {
        WatchView {
            directory: self.directory@,
            recursive: self.recursive,
            debounce_millis: self.debounce_millis,
        }
    }
}

/// The watch for a loader's sources: its source directory alone, without
/// subdirectories, with the fixed debounce window.
pub open spec fn spec_watch(source_directory: Seq<char>) -> WatchView {
    WatchView { directory: source_directory, recursive: false, debounce_millis: DEBOUNCE_MILLIS }
}

/// The line that announces hot reloading for the loader called `name`.
pub open spec fn spec_banner(name: Seq<char>) -> Seq<char> {
    "⚡️ "@ + name + " Hot Reloading enabled"@
}

/// The line that reports a failure of the event channel.
pub open spec fn spec_watch_error_line(error: Seq<char>) -> Seq<char> {
    "watch error: "@ + error
}

/// The steps that an event calls for.
///
/// A created or written file is compiled. The artifact of a removed file is
/// deleted. A renamed file loses the artifact under its old name first and is
/// compiled under its new name after, so that no artifact stays behind under
/// the old name when the compilation fails. A channel failure is reported.
/// Nothing else calls for anything.
pub open spec fn spec_event_steps(extension: Seq<char>, event: EventView) -> Seq<StepView> {
    match event {
        EventView::Create { source } => seq![StepView::Compile { source }],
        EventView::Write { source } => seq![StepView::Compile { source }],
        EventView::Remove { source } => seq![
            StepView::Remove { artifact: spec_artifact_name(source, extension) },
        ],
        EventView::Rename { from, to } => seq![
            StepView::Remove { artifact: spec_artifact_name(from, extension) },
            StepView::Compile { source: to },
        ],
        EventView::Other => Seq::empty(),
        EventView::Disconnected { error } => seq![
            StepView::Print { line: spec_watch_error_line(error) },
        ],
    }
}

/// What the host needs to reload artifacts as their sources change: a loader
/// of its own, the configuration, the line to announce itself with and the
/// watch to register.
pub struct HotReload<L> {
    /// The loader that compiles the changed files. It is the watcher's alone.
    pub loader: L,
    /// The loader's configuration.
    pub info: Info,
    /// The line to print before the first event.
    pub banner: String,
    /// The watch to register.
    pub watch: Watch,
}

impl<L> HotReload<L> {
    /// The banner and the watch are those of the configuration.
    pub open spec fn wf(&self) -> bool {
        &&& self.banner@ == spec_banner(self.info@.name)
        &&& self.watch@ == spec_watch(self.info@.source_directory)
    }

    /// Sets up hot reloading for `loader` under the configuration `info`.
    pub fn new(loader: L, info: Info) -> (reload: HotReload<L>)
        ensures
            reload.loader == loader,
            reload.info == info,
            reload.wf(),
    {
        let banner = String::from_str("⚡️ ").concat(info.name()).concat(" Hot Reloading enabled");
        let watch = Watch {
            directory: info.source_directory().clone(),
            recursive: false,
            debounce_millis: DEBOUNCE_MILLIS,
        };
        HotReload { loader, info, banner, watch }
    }

    /// The steps that `event` calls for. The watcher goes on waiting after
    /// every event.
    pub fn on_event(&self, event: Event) -> (steps: Vec<Step>)
        ensures
            steps.deep_view() == spec_event_steps(self.info@.output_extension, event@),
    {
        let extension = self.info.output_extension();
        let mut steps: Vec<Step> = Vec::new();
        match event {
            Event::Create { source } => {
                steps.push(Step::Compile { source });
            },
            Event::Write { source } => {
                steps.push(Step::Compile { source });
            },
            Event::Remove { source } => {
                let artifact = artifact_name(source.as_str(), extension);
                steps.push(Step::Remove { artifact });
            },
            Event::Rename { from, to } => {
                let artifact = artifact_name(from.as_str(), extension);
                steps.push(Step::Remove { artifact });
                steps.push(Step::Compile { source: to });
            },
            Event::Other => {},
            Event::Disconnected { error } => {
                let line = String::from_str("watch error: ").concat(error.as_str());
                steps.push(Step::Print { line });
            },
        }
        assert(steps.deep_view() =~= spec_event_steps(self.info@.output_extension, event@));
        steps
    }
}

} // verus!
