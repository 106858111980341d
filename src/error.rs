use vstd::prelude::*;

verus! {

/// Why an expansion failed.
#[derive(Debug, Clone, PartialEq, Eq)]
pub enum ExpandError {
    /// No package of the dependency graph has the requested name.
    PackageNotFound(String),
    /// The metadata query itself failed; carries its message.
    MetadataQueryFailed(String),
    /// The build tool refused a manifest that lacks workspace context.
    MissingWorkspace,
    /// The build process could not be spawned or waited for.
    InvocationError(String),
    /// The build tool wrote an empty output file.
    EmptyOutput,
    /// A file or directory operation failed.
    IoError(String),
    /// The expanded text is not a complete source file.
    ParseError,
}

} // verus!
