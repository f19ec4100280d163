//! Building and linking a Cabal foreign library from a Cargo build script.
//!
//! The library decides everything that does not need the outside world: the
//! command lines given to `cabal` and `ghc-pkg`, the classification of the
//! files in the GHC runtime's library directory, and the linker directives
//! that follow. Running the commands, listing directories and printing the
//! directives is left to the caller.
pub mod builder;
pub mod error;
pub mod grammar;
pub mod paths;
pub mod runtime;

pub use runtime::{HSDep, Platform, RTSVersion};
pub use builder::{BindingsRequest, Build, DirectiveKind, Invocation, Lib, LinkDirective};
pub use error::{BindingsError, Error, InvocationError};
pub use grammar::{is_dependency_library, is_runtime_library, link_name, matched_link_names};
