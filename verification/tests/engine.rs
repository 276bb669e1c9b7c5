use std::collections::BTreeMap;

use asset_loaders::loaders::info::Info;
use asset_loaders::loaders::step::file_steps;
use asset_loaders::loaders::step::full_compile_steps;
use asset_loaders::loaders::step::scan_steps;
use asset_loaders::loaders::step::Entry;
use asset_loaders::loaders::step::Step;
use asset_loaders::loaders::watcher::Event;
use asset_loaders::loaders::watcher::HotReload;
use asset_loaders::loaders::watcher::Watch;
use asset_loaders::loaders::watcher::DEBOUNCE_MILLIS;
use asset_loaders::loaders::Hook;
use asset_loaders::loaders::Loader;
use asset_loaders::loaders::Registration;

/// Hands every text back as it is.
struct Echo;

impl Loader for Echo {
    fn info() -> Info {
        Info::new("Echo", "echo-loader", String::from("/app/src"), String::from("/app/out"), "out")
            .unwrap()
    }

    fn new() -> Self {
        Echo
    }

    fn compile_string(&self, source: String) -> Result<String, String> {
        Ok(source)
    }

    fn duplicate(&self) -> Self {
        Echo
    }
}

/// Puts a text in upper case, and refuses one that holds an exclamation mark.
struct Shout {
    generation: u32,
}

impl Loader for Shout {
    fn info() -> Info {
        Info::new("Shout", "shout-loader", String::from("styles"), String::from("public"), "css")
            .unwrap()
    }

    fn new() -> Self {
        Shout { generation: 0 }
    }

    fn compile_string(&self, source: String) -> Result<String, String> {
        if source.contains('!') {
            Err(format!("unexpected `!` in {source:?}"))
        } else {
            Ok(source.to_uppercase())
        }
    }

    fn duplicate(&self) -> Self {
        Shout { generation: self.generation + 1 }
    }
}

/// A host in memory: a source directory, an output directory and a console.
struct Host {
    sources: BTreeMap<String, Option<String>>,
    output: BTreeMap<String, String>,
    console: Vec<String>,
}

impl Host {
    fn new() -> Self {
        Host { sources: BTreeMap::new(), output: BTreeMap::new(), console: Vec::new() }
    }

    fn with_sources(files: &[(&str, &str)]) -> Self {
        let mut host = Host::new();
        for (name, text) in files {
            host.sources.insert(String::from(*name), Some(String::from(*text)));
        }
        host
    }

    fn perform<L: Loader>(&mut self, loader: &L, steps: Vec<Step>) {
        for step in steps {
            match step {
                Step::Reset => self.output.clear(),
                Step::Scan => {
                    let mut entries = Vec::new();
                    for (name, text) in &self.sources {
                        entries.push(Entry { name: name.clone(), regular: text.is_some() });
                    }
                    let steps = scan_steps(&entries);
                    self.perform(loader, steps);
                }
                Step::Compile { source } => {
                    let text = match self.sources.get(&source) {
                        Some(Some(text)) => text.clone(),
                        _ => panic!("Unable to read {source:?}"),
                    };
                    let steps = loader.compile_file(&source, text);
                    self.perform(loader, steps);
                }
                Step::Write { artifact, content } => {
                    self.output.insert(artifact, content);
                }
                Step::Remove { artifact } => {
                    self.output.remove(&artifact);
                }
                Step::Print { line } => self.console.push(line),
            }
        }
    }

    fn output(&self) -> Vec<(&str, &str)> {
        let mut files = Vec::new();
        for (name, content) in &self.output {
            files.push((name.as_str(), content.as_str()));
        }
        files
    }
}

fn write(artifact: &str, content: &str) -> Step {
    Step::Write { artifact: String::from(artifact), content: String::from(content) }
}

fn print(line: &str) -> Step {
    Step::Print { line: String::from(line) }
}

fn compile(source: &str) -> Step {
    Step::Compile { source: String::from(source) }
}

fn remove(artifact: &str) -> Step {
    Step::Remove { artifact: String::from(artifact) }
}

#[test]
fn a_full_compile_resets_then_scans() {
    assert_eq!(full_compile_steps(), vec![Step::Reset, Step::Scan]);
    assert_eq!(Echo.compile_files(), vec![Step::Reset, Step::Scan]);
    assert_eq!(Shout::new().compile_files(), vec![Step::Reset, Step::Scan]);
}

#[test]
fn a_scan_compiles_the_regular_files_in_order() {
    let entries = vec![
        Entry { name: String::from("b.src"), regular: true },
        Entry { name: String::from("nested"), regular: false },
        Entry { name: String::from("a.src"), regular: true },
        Entry { name: String::from("socket"), regular: false },
    ];
    assert_eq!(scan_steps(&entries), vec![compile("b.src"), compile("a.src")]);
}

#[test]
fn a_scan_of_nothing_asks_for_nothing() {
    assert_eq!(scan_steps(&Vec::new()), Vec::new());
    let entries = vec![Entry { name: String::from("nested"), regular: false }];
    assert_eq!(scan_steps(&entries), Vec::new());
}

#[test]
fn a_compiled_text_is_written_and_reported() {
    let steps = file_steps(&Shout::info(), "main.scss", Ok(String::from("BODY {}")));
    assert_eq!(steps, vec![write("main.css", "BODY {}"), print("Compiled main.scss")]);
}

#[test]
fn a_diagnostic_is_shown_and_nothing_is_written() {
    let steps = file_steps(&Shout::info(), "main.scss", Err(String::from("line 3: no such mixin")));
    assert_eq!(steps, vec![print("\nline 3: no such mixin")]);
}

#[test]
fn compile_file_goes_by_what_the_backend_returns() {
    let loader = Shout::new();
    assert_eq!(
        loader.compile_file("main.scss", String::from("body {}")),
        vec![write("main.css", "BODY {}"), print("Compiled main.scss")]
    );
    assert_eq!(
        loader.compile_file("main.scss", String::from("body {!}")),
        vec![print("\nunexpected `!` in \"body {!}\"")]
    );
}

#[test]
fn compile_file_overwrites_an_artifact() {
    let mut host = Host::with_sources(&[("a.src", "new")]);
    host.output.insert(String::from("a.out"), String::from("old"));
    host.perform(&Echo, vec![compile("a.src")]);
    assert_eq!(host.output(), vec![("a.out", "new")]);
    assert_eq!(host.console, vec!["Compiled a.src"]);
}

#[test]
fn full_compile_makes_one_artifact_per_source() {
    let mut host = Host::with_sources(&[("x.scss", "a"), ("y.sass", "b"), ("notes", "c")]);
    host.sources.insert(String::from("partials"), None);
    let loader = Shout::new();
    host.perform(&loader, loader.compile_files());
    assert_eq!(host.output(), vec![("notes.css", "C"), ("x.css", "A"), ("y.css", "B")]);
    assert_eq!(host.console, vec!["Compiled notes", "Compiled x.scss", "Compiled y.sass"]);
}

#[test]
fn full_compile_wipes_what_was_there() {
    let mut host = Host::with_sources(&[("a.src", "valid")]);
    host.output.insert(String::from("stale.out"), String::from("left over"));
    host.output.insert(String::from("a.out"), String::from("old"));
    host.perform(&Echo, Echo.compile_files());
    assert_eq!(host.output(), vec![("a.out", "valid")]);
}

#[test]
fn full_compile_of_an_empty_directory_leaves_an_empty_directory() {
    let mut host = Host::new();
    host.output.insert(String::from("stale.out"), String::from("left over"));
    host.perform(&Echo, Echo.compile_files());
    assert_eq!(host.output(), Vec::new());
    assert!(host.console.is_empty());
}

#[test]
fn full_compile_twice_gives_the_same_directory() {
    let mut host = Host::with_sources(&[("a.scss", "one"), ("b.scss", "two!"), ("c.scss", "three")]);
    let loader = Shout::new();
    host.perform(&loader, loader.compile_files());
    let once = host.output.clone();
    host.perform(&loader, loader.compile_files());
    assert_eq!(host.output, once);
    assert_eq!(host.output(), vec![("a.css", "ONE"), ("c.css", "THREE")]);
}

#[test]
fn a_source_that_fails_costs_only_its_own_artifact() {
    let mut host = Host::with_sources(&[("a.scss", "fine"), ("b.scss", "not ! fine"), ("c.scss", "fine too")]);
    host.output.insert(String::from("b.css"), String::from("from the last run"));
    let loader = Shout::new();
    host.perform(&loader, loader.compile_files());
    assert_eq!(host.output(), vec![("a.css", "FINE"), ("c.css", "FINE TOO")]);
    assert_eq!(
        host.console,
        vec![
            "Compiled a.scss",
            "\nunexpected `!` in \"not ! fine\"",
            "Compiled c.scss",
        ]
    );
}

#[test]
fn the_later_of_two_sources_with_one_artifact_wins() {
    let mut host = Host::with_sources(&[("a.sass", "first"), ("a.scss", "second")]);
    let loader = Shout::new();
    host.perform(&loader, loader.compile_files());
    assert_eq!(host.output(), vec![("a.css", "SECOND")]);
}

#[test]
fn hot_reloading_watches_the_source_directory() {
    let reload = Shout { generation: 4 }.enable_hot_reloading();
    assert_eq!(reload.loader.generation, 5);
    assert_eq!(reload.info, Shout::info());
    assert_eq!(reload.banner, "\u{26a1}\u{fe0f} Shout Hot Reloading enabled");
    assert_eq!(
        reload.watch,
        Watch { directory: String::from("styles"), recursive: false, debounce_millis: 100 }
    );
    assert_eq!(DEBOUNCE_MILLIS, 100);
}

#[test]
fn hot_reload_is_made_from_loader_and_configuration() {
    let reload = HotReload::new(Echo, Echo::info());
    assert_eq!(reload.info.source_directory(), "/app/src");
    assert_eq!(reload.banner, "\u{26a1}\u{fe0f} Echo Hot Reloading enabled");
    assert_eq!(reload.watch.directory, "/app/src");
    assert!(!reload.watch.recursive);
    assert_eq!(reload.watch.debounce_millis, 100);
}

#[test]
fn a_created_or_written_file_is_compiled() {
    let reload = Echo.enable_hot_reloading();
    assert_eq!(reload.on_event(Event::Create { source: String::from("n.src") }), vec![compile("n.src")]);
    assert_eq!(reload.on_event(Event::Write { source: String::from("n.src") }), vec![compile("n.src")]);
}

#[test]
fn a_removed_file_loses_its_artifact() {
    let reload = Shout::new().enable_hot_reloading();
    assert_eq!(reload.on_event(Event::Remove { source: String::from("n.scss") }), vec![remove("n.css")]);
}

#[test]
fn a_renamed_file_is_removed_then_compiled() {
    let reload = Shout::new().enable_hot_reloading();
    let event = Event::Rename { from: String::from("old.scss"), to: String::from("new.scss") };
    assert_eq!(reload.on_event(event), vec![remove("old.css"), compile("new.scss")]);
}

#[test]
fn other_events_ask_for_nothing() {
    let reload = Echo.enable_hot_reloading();
    assert_eq!(reload.on_event(Event::Other), Vec::new());
}

#[test]
fn a_channel_failure_is_reported() {
    let reload = Echo.enable_hot_reloading();
    let event = Event::Disconnected { error: String::from("RecvError") };
    assert_eq!(reload.on_event(event), vec![print("watch error: RecvError")]);
}

#[test]
fn creating_a_source_adds_exactly_its_artifact() {
    let mut host = Host::with_sources(&[("a.src", "valid")]);
    host.perform(&Echo, Echo.compile_files());
    let reload = Echo.enable_hot_reloading();
    host.sources.insert(String::from("new.src"), Some(String::from("fresh")));
    let steps = reload.on_event(Event::Create { source: String::from("new.src") });
    host.perform(&reload.loader, steps);
    assert_eq!(host.output(), vec![("a.out", "valid"), ("new.out", "fresh")]);
}

#[test]
fn writing_a_source_that_fails_keeps_the_old_artifact() {
    let mut host = Host::with_sources(&[("a.scss", "good")]);
    let loader = Shout::new();
    host.perform(&loader, loader.compile_files());
    let reload = loader.enable_hot_reloading();
    host.sources.insert(String::from("a.scss"), Some(String::from("bad!")));
    let steps = reload.on_event(Event::Write { source: String::from("a.scss") });
    host.perform(&reload.loader, steps);
    assert_eq!(host.output(), vec![("a.css", "GOOD")]);
    assert_eq!(host.console, vec!["Compiled a.scss", "\nunexpected `!` in \"bad!\""]);
}

#[test]
fn removing_a_source_removes_its_artifact() {
    let mut host = Host::with_sources(&[("a.src", "valid"), ("b.src", "valid")]);
    host.perform(&Echo, Echo.compile_files());
    let reload = Echo.enable_hot_reloading();
    host.sources.remove("a.src");
    let steps = reload.on_event(Event::Remove { source: String::from("a.src") });
    host.perform(&reload.loader, steps);
    assert_eq!(host.output(), vec![("b.out", "valid")]);
}

#[test]
fn removing_a_source_without_artifact_changes_nothing() {
    let mut host = Host::with_sources(&[("b.src", "valid")]);
    host.perform(&Echo, Echo.compile_files());
    let reload = Echo.enable_hot_reloading();
    let steps = reload.on_event(Event::Remove { source: String::from("never.src") });
    host.perform(&reload.loader, steps);
    assert_eq!(host.output(), vec![("b.out", "valid")]);
}

#[test]
fn renaming_a_source_moves_its_artifact() {
    let mut host = Host::with_sources(&[("a.src", "text")]);
    host.perform(&Echo, Echo.compile_files());
    let reload = Echo.enable_hot_reloading();
    let text = host.sources.remove("a.src").unwrap();
    host.sources.insert(String::from("b.src"), text);
    let steps = reload.on_event(Event::Rename { from: String::from("a.src"), to: String::from("b.src") });
    host.perform(&reload.loader, steps);
    assert_eq!(host.output(), vec![("b.out", "text")]);
}

#[test]
fn renaming_to_a_source_that_fails_still_removes_the_old_artifact() {
    let mut host = Host::with_sources(&[("a.scss", "fine")]);
    let loader = Shout::new();
    host.perform(&loader, loader.compile_files());
    let reload = loader.enable_hot_reloading();
    host.sources.remove("a.scss");
    host.sources.insert(String::from("b.scss"), Some(String::from("oh no!")));
    let steps = reload.on_event(Event::Rename { from: String::from("a.scss"), to: String::from("b.scss") });
    host.perform(&reload.loader, steps);
    assert_eq!(host.output(), Vec::new());
}

#[test]
fn renaming_within_one_artifact_keeps_it() {
    let mut host = Host::with_sources(&[("a.sass", "text")]);
    let loader = Shout::new();
    host.perform(&loader, loader.compile_files());
    let reload = loader.enable_hot_reloading();
    let text = host.sources.remove("a.sass").unwrap();
    host.sources.insert(String::from("a.scss"), text);
    let steps = reload.on_event(Event::Rename { from: String::from("a.sass"), to: String::from("a.scss") });
    host.perform(&reload.loader, steps);
    assert_eq!(host.output(), vec![("a.css", "TEXT")]);
}

#[test]
fn two_valid_sources_then_a_removal_and_a_write() {
    let mut host = Host::with_sources(&[("a.src", "valid"), ("b.src", "valid")]);
    let launch = Echo.as_fairing().on_launch(true);
    host.perform(&Echo, launch.steps);
    assert_eq!(host.output(), vec![("a.out", "valid"), ("b.out", "valid")]);

    let reload = launch.reload.unwrap();
    host.sources.remove("a.src");
    let steps = reload.on_event(Event::Remove { source: String::from("a.src") });
    host.perform(&reload.loader, steps);
    assert_eq!(host.output(), vec![("b.out", "valid")]);

    host.sources.insert(String::from("c.src"), Some(String::from("valid")));
    let steps = reload.on_event(Event::Write { source: String::from("c.src") });
    host.perform(&reload.loader, steps);
    assert_eq!(host.output(), vec![("b.out", "valid"), ("c.out", "valid")]);
}

#[test]
fn the_hook_registers_for_launch_under_the_loader_name() {
    let fairing = Shout::fairing();
    assert_eq!(fairing.loader.generation, 0);
    assert_eq!(fairing.info(), Registration { name: "shout-loader", hook: Hook::Launch });
    assert_eq!(Echo.as_fairing().info().name, "echo-loader");
}

#[test]
fn as_fairing_keeps_the_loader() {
    let fairing = Shout { generation: 7 }.as_fairing();
    assert_eq!(fairing.loader.generation, 7);
}

#[test]
fn launch_in_production_compiles_and_stops() {
    let launch = Shout { generation: 1 }.as_fairing().on_launch(false);
    assert_eq!(launch.steps, vec![Step::Reset, Step::Scan]);
    assert!(launch.reload.is_none());
}

#[test]
fn launch_in_development_compiles_and_watches() {
    let launch = Shout { generation: 1 }.as_fairing().on_launch(true);
    assert_eq!(launch.steps, vec![Step::Reset, Step::Scan]);
    let reload = launch.reload.unwrap();
    assert_eq!(reload.loader.generation, 2);
    assert_eq!(reload.watch.directory, "styles");
    assert_eq!(reload.banner, "\u{26a1}\u{fe0f} Shout Hot Reloading enabled");
}
