//! Drives compilation of a native C++ project into a WebAssembly artifact:
//! it detects which build system the project uses, consults a registry of
//! UI-library handlers, assembles the toolchain flags for the requested build
//! mode and target environment, plans the external toolchain invocations, and
//! collects the resulting binary and loader script into an output directory.
//!
//! The crate holds the decision logic only.  Everything that touches the
//! outside world — reading the project tree, spawning the toolchain, copying
//! files — is performed by the embedding program, which feeds the observed
//! facts back into the verified pipeline as plain values.

use vstd::prelude::*;

pub mod artifacts;
pub mod cef_handler;
pub mod cmake_handler;
pub mod command_runner;
pub mod compiler;
pub mod config;
pub mod emscripten_runner;
pub mod flags;
pub mod fltk_handler;
pub mod gtkmm_handler;
pub mod imgui_handler;
pub mod juce_handler;
pub mod library_handlers;
pub mod make_handler;
pub mod opencv_handler;
pub mod pathutil;
pub mod pipeline;
pub mod probe;
pub mod qt_handler;
pub mod strutil;
pub mod ultimate_handler;
pub mod webapp_generator;
pub mod wxwidgets_handler;

verus! {

/// The closed set of error categories the compilation core can surface.
/// Each variant carries a human-readable message with enough context
/// (paths, tool names, captured stderr) to diagnose a failed run.
#[derive(Debug, Clone, PartialEq, Eq)]
pub enum Error {
    /// A file-system or process-spawn failure.
    Io(String),
    /// Invalid or missing configuration, e.g. a project path that is not a directory.
    Config(String),
    /// No build system and no compilable source file was found.
    Detection(String),
    /// A toolchain invocation failed or an unsupported library was detected.
    Compilation(String),
    /// An external command could not be executed.
    Command(String),
    /// An artifact was missing after the build, or copying it failed.
    FileSystem(String),
}

/// Ghost model of an `Error`.
#[verifier::ext_equal]
pub enum ErrorV {
    Io(Seq<char>),
    Config(Seq<char>),
    Detection(Seq<char>),
    Compilation(Seq<char>),
    Command(Seq<char>),
    FileSystem(Seq<char>),
}

impl View for Error {
    type V = ErrorV;

    open spec fn view(&self) -> ErrorV {
        match self {
            Error::Io(m) => ErrorV::Io(m@),
            Error::Config(m) => ErrorV::Config(m@),
            Error::Detection(m) => ErrorV::Detection(m@),
            Error::Compilation(m) => ErrorV::Compilation(m@),
            Error::Command(m) => ErrorV::Command(m@),
            Error::FileSystem(m) => ErrorV::FileSystem(m@),
        }
    }
}

impl Error {
    /// The message carried by the error, whatever its category.
    pub fn message(&self) -> (r: &String)
        ensures
            r@ == self.spec_message(),
    {
        match self {
            Error::Io(m) => m,
            Error::Config(m) => m,
            Error::Detection(m) => m,
            Error::Compilation(m) => m,
            Error::Command(m) => m,
            Error::FileSystem(m) => m,
        }
    }

    pub open spec fn spec_message(&self) -> Seq<char> {
        match self {
            Error::Io(m) => m@,
            Error::Config(m) => m@,
            Error::Detection(m) => m@,
            Error::Compilation(m) => m@,
            Error::Command(m) => m@,
            Error::FileSystem(m) => m@,
        }
    }
}

} // verus!
