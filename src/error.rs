use vstd::prelude::*;

use crate::runtime::HSDep;
use std::io::Error as IoError;
use which::Error as WhichError;

verus! {

/// std's I/O error, carried through unchanged.
#[verifier::external_type_specification]
#[verifier::external_body]
pub struct ExIoError(IoError);

/// `which::Error`, the failure to find an executable, carried through unchanged.
#[verifier::external_type_specification]
#[verifier::external_body]
pub struct ExWhichError(WhichError);

/// Type for errors that may occur.
#[derive(Debug)]
pub enum Error {
    /// Invoking `cabal` failed.
    CabalError(InvocationError),
    /// Invoking `ghc-pkg` failed.
    GHCPkgError(InvocationError),
    /// Building the foreign library failed: with the I/O error where `cabal`
    /// could not be run or read, with none where the build itself failed.
    BuildError(Option<IoError>),
    /// Generating the bindings failed.
    BindingsError(BindingsError),
    /// The path of the built library has no containing directory.
    PathError,
    /// The runtime's library directory could not be resolved or listed.
    DirectoryListingError(IoError),
    /// No file of the runtime's library directory is the shared library of
    /// this required dependency.
    MissingLibrary(HSDep),
}

/// An error that occurs when invoking `cabal` or `ghc-pkg`.
#[derive(Debug)]
pub enum InvocationError {
    /// The executable was not found.
    ResolutionError(WhichError),
    /// The executable could not be run, or its output not read.
    IoError(IoError),
}

/// An error that occurs while generating bindings.
#[derive(Debug)]
pub enum BindingsError {
    /// Querying the runtime's include directory failed.
    IoError(IoError),
    /// The binding generator failed, with its message.
    BindgenError(String),
}

} // verus!
