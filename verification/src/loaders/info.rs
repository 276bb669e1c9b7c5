//! A loader's configuration.

use vstd::prelude::*;

verus! {

/// What an [`Info`] holds, as plain text.
pub struct InfoView {
    /// The label that log lines show.
    pub name: Seq<char>,
    /// The name under which the loader registers with the host.
    pub loader_name: Seq<char>,
    /// The directory whose files are compiled.
    pub source_directory: Seq<char>,
    /// The directory that receives the artifacts.
    pub output_directory: Seq<char>,
    /// The extension of every artifact.
    pub output_extension: Seq<char>,
}

impl InfoView {
    /// The output directory is wiped on every full compile, so it is never the
    /// directory that holds the sources.
    pub open spec fn wf(self) -> bool {
        self.source_directory != self.output_directory
    }
}

/// The configuration of one loader, fixed for the life of the process.
///
/// The output directory belongs to the loader: a full compile removes it with
/// everything in it. Every value of this type keeps it apart from the source
/// directory.
#[derive(Debug, PartialEq, Eq)]
pub struct Info {
    name: &'static str,
    loader_name: &'static str,
    source_directory: String,
    output_directory: String,
    output_extension: &'static str,
}

impl View for Info {
    type V = InfoView;

    closed spec fn view(&self) -> InfoView {
        InfoView {
            name: self.name@,
            loader_name: self.loader_name@,
            source_directory: self.source_directory@,
            output_directory: self.output_directory@,
            output_extension: self.output_extension@,
        }
    }
}

impl Info {
    #[verifier::type_invariant]
    closed spec fn directories_apart(self) -> bool {
        self@.wf()
    }

    /// Makes a configuration, or nothing where the two directories are the same.
    pub fn new(
        name: &'static str,
        loader_name: &'static str,
        source_directory: String,
        output_directory: String,
        output_extension: &'static str,
    ) -> (made: Option<Info>)
        ensures
            made is None <==> source_directory@ == output_directory@,
            made matches Some(info) ==> info@ == (InfoView {
                name: name@,
                loader_name: loader_name@,
                source_directory: source_directory@,
                output_directory: output_directory@,
                output_extension: output_extension@,
            }),
    {
        if source_directory == output_directory {
            None
        } else {
            Some(Info { name, loader_name, source_directory, output_directory, output_extension })
        }
    }

    /// The label that log lines show.
    pub fn name(&self) -> (name: &'static str)
        ensures
            name@ == self@.name,
    {
        self.name
    }

    /// The name under which the loader registers with the host.
    pub fn loader_name(&self) -> (loader_name: &'static str)
        ensures
            loader_name@ == self@.loader_name,
    {
        self.loader_name
    }

    /// The directory whose files are compiled.
    pub fn source_directory(&self) -> (directory: &String)
        ensures
            directory@ == self@.source_directory,
            directory@ != self@.output_directory,
    {
        proof {
            use_type_invariant(self);
        }
        &self.source_directory
    }

    /// The directory that receives the artifacts.
    pub fn output_directory(&self) -> (directory: &String)
        ensures
            directory@ == self@.output_directory,
            directory@ != self@.source_directory,
    {
        proof {
            use_type_invariant(self);
        }
        &self.output_directory
    }

    /// The extension of every artifact.
    pub fn output_extension(&self) -> (extension: &'static str)
        ensures
            extension@ == self@.output_extension,
    {
        self.output_extension
    }
}

} // verus!
