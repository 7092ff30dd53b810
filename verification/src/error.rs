//! The failures that end a build.

use vstd::prelude::*;

verus! {

#[verifier::external_type_specification]
#[verifier::external_body]
pub struct ExTemplateError(liquid::Error);

#[verifier::external_type_specification]
#[verifier::external_body]
pub struct ExStylesheetError(grass::Error);

/// A failure that ends the build. Each names the page it came from, by the
/// page's path at that moment, and carries the cause as the engine gave it.
#[derive(Debug)]
#[allow(inconsistent_fields)]
pub enum BuildError {
    /// The content of a page is no template, or did not render.
    Template { page: String, cause: liquid::Error },
    /// The stylesheet source of a page did not compile.
    Stylesheet { page: String, cause: Box<grass::Error> },
    /// The layout of a page is no template, or did not render.
    Layout { page: String, layout: String, cause: liquid::Error },
}

/// What a failure holds.
#[allow(inconsistent_fields)]
pub enum Failure {
    Template { page: Seq<char>, cause: liquid::Error },
    Stylesheet { page: Seq<char>, cause: Box<grass::Error> },
    Layout { page: Seq<char>, layout: Seq<char>, cause: liquid::Error },
}

impl View for BuildError {
    type V = Failure;

    open spec fn view(&self) -> Failure {
        match *self {
            BuildError::Template { page, cause } => Failure::Template { page: page@, cause },
            BuildError::Stylesheet { page, cause } => Failure::Stylesheet { page: page@, cause },
            BuildError::Layout { page, layout, cause } => Failure::Layout {
                page: page@,
                layout: layout@,
                cause,
            },
        }
    }
}

/// The classes of failure that an operator is told apart by.
#[derive(Clone, Copy, Debug, PartialEq, Eq, Structural)]
pub enum ErrorClass {
    /// An input was not found.
    NoInput,
    /// An input could not be read, or is not what it should be.
    Data,
    /// The output could not be written.
    Output,
    /// A renderer failed on input that should have rendered.
    Internal,
}

impl BuildError {
    /// The path of the page that the failure came from.
    pub open spec fn page_path(self) -> Seq<char> {
        match self {
            BuildError::Template { page, .. } => page@,
            BuildError::Stylesheet { page, .. } => page@,
            BuildError::Layout { page, .. } => page@,
        }
    }

    /// The path of the page that the failure came from.
    pub fn page(&self) -> (path: &String)
        ensures
            path@ == self.page_path(),
    {
        match self {
            BuildError::Template { page, .. } => page,
            BuildError::Stylesheet { page, .. } => page,
            BuildError::Layout { page, .. } => page,
        }
    }

    /// The class of the failure. What a template or a stylesheet holds is
    /// its author's: each failure of a build is one of the data.
    pub fn class(&self) -> (class: ErrorClass)
        ensures
            class == ErrorClass::Data,
    {
        ErrorClass::Data
    }
}

} // verus!
