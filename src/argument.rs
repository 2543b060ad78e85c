//! How one argument is handed to the process builder.
use vstd::prelude::*;

verus! {

/// A filesystem path, handed to the process builder as it is.
#[verifier::external_type_specification]
#[verifier::external_body]
pub struct ExPath(std::path::Path);

/// The operating-system family the process is started on.
#[derive(Debug, Clone, Copy, PartialEq, Eq, Structural)]
pub enum Platform {
    Windows,
    Unix,
}

/// One process argument, and the way it must be delivered.
#[derive(Debug, Clone, Copy)]
pub enum Argument<'a> {
    /// Text, escaped by the process builder as usual.
    Normal(&'a str),
    /// A filesystem path.
    Path(&'a std::path::Path),
    /// Text that must reach the process without the builder's escaping.
    Raw(&'a str),
}

impl<'a> Argument<'a> {
    /// Whether the argument bypasses the process builder's escaping on the
    /// given platform. Only Windows has an unescaped form; elsewhere raw text
    /// is delivered as normal text.
    pub fn is_verbatim(&self, platform: Platform) -> (r: bool)
        ensures
            r == (self is Raw && platform == Platform::Windows),
    {
        match self {
            Argument::Raw(_) => platform == Platform::Windows,
            _ => false,
        }
    }
}

} // verus!
