//! Decisions of the DotRush editor extension: where the .NET host and the
//! DotRush components live, how they are installed, and how debug sessions
//! for the Mono and the .NET Core debuggers are described.

pub mod debugger;
pub mod dotnet;
pub mod env;
pub mod extension;
pub mod github;
pub mod install;
pub mod platform;
pub mod text;

use vstd::prelude::*;

verus! {

/// The directory, relative to the extension's working directory, that holds
/// every downloaded component.
pub const ROOT_DIR: &'static str = "./bin";

/// The GitHub repository whose releases carry the DotRush bundles.
pub const GITHUB_REPO: &'static str = "JaneySprings/DotRush";

} // verus!
