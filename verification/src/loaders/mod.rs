//! Loaders: the backend's contract, the compilation engine, and the hook
//! that the host calls at launch.

pub mod info;
pub mod laws;
pub mod model;
pub mod naming;
pub mod step;
pub mod typescript;
pub mod watcher;

use vstd::prelude::*;
use self::info::Info;
use self::step::file_steps;
use self::step::full_compile_steps;
use self::step::result_view;
use self::step::spec_file_steps;
use self::step::spec_full_compile_steps;
use self::step::Step;
use self::watcher::HotReload;

verus! {

/// A compiler backend, and the engine that runs on it.
///
/// An implementation provides the four methods without a body. `compile_string`
/// is a function of the text it is given: it reads no file and keeps no state
/// between calls. `info` returns the same configuration every time. Nothing
/// here can hold an implementation to either, so the contracts of the engine
/// speak of what those methods returned, whatever it was.
pub trait Loader: Sized + Send + 'static {
    /// The configuration of this kind of loader.
    fn info() -> Info;

    /// A loader ready to compile.
    fn new() -> Self;

    /// Compiles one source text: the compiled text, or a diagnostic that says
    /// why there is none.
    fn compile_string(&self, source: String) -> Result<String, String>;

    /// An independent loader that compiles as this one does.
    fn duplicate(&self) -> Self;

    /// A launch hook around a new loader.
    fn fairing() -> (fairing: LoaderFairing<Self>)
        ensures
            call_ensures(Self::new, (), fairing.loader),
    {
        LoaderFairing { loader: Self::new() }
    }

    /// A launch hook around this loader.
    fn as_fairing(self) -> (fairing: LoaderFairing<Self>)
        ensures
            fairing.loader == self,
    {
        LoaderFairing { loader: self }
    }

    /// The full compile: the output directory is rebuilt from nothing out of
    /// the files that the source directory holds now.
    fn compile_files(&self) -> (steps: Vec<Step>)
        ensures
            steps.deep_view() == spec_full_compile_steps(),
    {
        full_compile_steps()
    }

    /// Compiles the source file called `source`, whose text is `text`.
    ///
    /// The steps are those of [`file_steps`] for the loader's configuration and
    /// for what `compile_string` made of `text`. A text that does not compile
    /// costs a line on the console and nothing else.
    fn compile_file(&self, source: &str, text: String) -> (steps: Vec<Step>)
        ensures
            exists|info: Info, result: Result<String, String>|
                {
                    &&& call_ensures(Self::info, (), info)
                    &&& call_ensures(Self::compile_string, (self, text), result)
                    &&& steps.deep_view() == spec_file_steps(
                        info@.output_extension,
                        source@,
                        result_view(result),
                    )
                },
    {
        let info = Self::info();
        let result = self.compile_string(text);
        file_steps(&info, source, result)
    }

    /// Sets up hot reloading: a duplicate of this loader for the watcher to
    /// own, and the watch on the source directory.
    fn enable_hot_reloading(&self) -> (reload: HotReload<Self>)
        ensures
            call_ensures(Self::duplicate, (self,), reload.loader),
            call_ensures(Self::info, (), reload.info),
            reload.wf(),
    {
        HotReload::new(self.duplicate(), Self::info())
    }
}

/// The points of its life at which a host calls a hook.
#[derive(Clone, Copy, Debug, PartialEq, Eq)]
pub enum Hook {
    /// When the hook is attached.
    Attach,
    /// Once, when the host launches, before it serves a request.
    Launch,
    /// On every request.
    Request,
    /// On every response.
    Response,
}

/// How a launch hook registers with the host.
#[derive(Clone, Copy, Debug, PartialEq, Eq)]
pub struct Registration {
    /// The name to register under.
    pub name: &'static str,
    /// The point at which the host is to call.
    pub hook: Hook,
}

/// What the host does at launch, in this order: the steps, then, where there
/// is one, the watcher, on a thread of its own for as long as the process
/// lives.
pub struct Launch<L> {
    /// The full compile.
    pub steps: Vec<Step>,
    /// Hot reloading, in development.
    pub reload: Option<HotReload<L>>,
}

/// The launch hook of a loader.
pub struct LoaderFairing<L: Loader> {
    /// The loader that the hook compiles with.
    pub loader: L,
}

impl<L: Loader> LoaderFairing<L> {
    /// Registers under the loader's name, for the launch.
    pub fn info(&self) -> (registration: Registration)
        ensures
            registration.hook == Hook::Launch,
            exists|info: Info|
                call_ensures(L::info, (), info) && registration.name@ == info@.loader_name,
    {
        let info = L::info();
        Registration { name: info.loader_name(), hook: Hook::Launch }
    }

    /// The launch: always a full compile, and hot reloading after it where the
    /// host runs in development mode.
    pub fn on_launch(&self, development: bool) -> (launch: Launch<L>)
        ensures
            launch.steps.deep_view() == spec_full_compile_steps(),
            launch.reload is Some <==> development,
            launch.reload matches Some(reload) ==> {
                &&& call_ensures(L::duplicate, (&self.loader,), reload.loader)
                &&& call_ensures(L::info, (), reload.info)
                &&& reload.wf()
            },
    {
        let steps = self.loader.compile_files();
        let reload = if development {
            Some(self.loader.enable_hot_reloading())
        } else {
            None
        };
        Launch { steps, reload }
    }
}

} // verus!
