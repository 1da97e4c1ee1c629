//! The errors of the library.

use crate::names::NamingError;
use vstd::prelude::*;
use vstd::string::*;

verus! {

/// A path is not what an operation needs it to be.
#[derive(Debug, Clone, Copy, PartialEq, Eq, Structural)]
pub enum PathError {
    /// The path is missing, or is no directory.
    NotADirectory,
    /// Something lies already where a directory was to be made.
    AlreadyExists,
    /// The name is no name of a directory: it is empty, `.` or `..`, or holds
    /// a slash.
    InvalidName,
}

/// The configuration names something unusable.
#[derive(Debug, Clone, Copy, PartialEq, Eq, Structural)]
pub enum ConfigError {
    /// The path of a mirror exists and is no symlink.
    NotASymlink,
    /// The configuration is no TOML document.
    Unparsable,
    /// The configuration names no entry point.
    MissingEntryPoint,
    /// The entry point of the configuration is no text.
    EntryPointNotText,
}

/// A sidecar file or a mirror could not be read or written.
#[derive(Debug, Clone, Copy, PartialEq, Eq, Structural)]
pub enum PersistenceError {
    /// The file cannot be read, or what it holds cannot be understood.
    Unreadable,
    /// The file or link cannot be made where it belongs.
    Unwritable,
}

/// The part of a reference that names nothing.
#[derive(Debug, Clone, Copy, PartialEq, Eq, Structural)]
pub enum Segment {
    /// The semester of a reference with two parts, or of a working directory.
    Semester,
    /// The course of a reference with two parts, or of a working directory.
    Course,
    /// A single name that is neither a semester nor a course.
    Name,
}

/// A reference or a working directory selects nothing.
#[derive(Debug, Clone, Copy, PartialEq, Eq, Structural)]
pub enum ReferenceError {
    /// The reference is empty or has more than two parts.
    InvalidReference,
    /// A part of the reference names no semester or course.
    NotFound(Segment),
    /// The working directory does not lie at or below the entry point.
    OutOfScope,
}

/// Any error of the library.
#[derive(Debug, Clone, Copy, PartialEq, Eq, Structural)]
pub enum Error {
    Path(PathError),
    Naming(NamingError),
    Config(ConfigError),
    Reference(ReferenceError),
    Persistence(PersistenceError),
}

impl Error {
    /// What the error says.
    pub open spec fn message_spec(self) -> Seq<char> {
        match self {
            Error::Path(PathError::NotADirectory) => "The path is not a valid directory."@,
            Error::Path(PathError::AlreadyExists) => "The path already exists."@,
            Error::Path(PathError::InvalidName) => "The name is not a valid directory name."@,
            Error::Naming(NamingError::InvalidPattern) => "Failed to build the pattern of the semester names."@,
            Error::Naming(NamingError::MissingCapture) => "The pattern of the semester names lacks a capture group."@,
            Error::Naming(NamingError::IncompleteMapping) => "The study cycle mapping leaves a study cycle without a token."@,
            Error::Naming(NamingError::NoMatch) => "Provided name is not a valid semester name."@,
            Error::Naming(NamingError::EmptyCapture) => "Failed to extract semester number or study cycle."@,
            Error::Naming(NamingError::NotNumeric) => "Failed to parse semester number."@,
            Error::Naming(NamingError::UnmappedCycle) => "The semester name could not be matched to a study cycle."@,
            Error::Naming(NamingError::MissingCycle) => "A study cycle must be provided as currently no semester is active."@,
            Error::Naming(NamingError::NotCanonical) => "The naming policy does not read the canonical name of the semester."@,
            Error::Config(ConfigError::NotASymlink) => "The path of a link already exists and is not a symlink."@,
            Error::Config(ConfigError::Unparsable) => "Failed to parse the config file."@,
            Error::Config(ConfigError::MissingEntryPoint) => "The key 'entry_point' could not be found in the config file."@,
            Error::Config(ConfigError::EntryPointNotText) => "entry_point is not a valid string."@,
            Error::Reference(ReferenceError::InvalidReference) => "Please provide a valid reference."@,
            Error::Reference(ReferenceError::NotFound(Segment::Semester)) => "No semester found matching the reference."@,
            Error::Reference(ReferenceError::NotFound(Segment::Course)) => "No course found matching the reference."@,
            Error::Reference(ReferenceError::NotFound(Segment::Name)) => "No semester or course found by reference."@,
            Error::Reference(ReferenceError::OutOfScope) => "The current working directory must be a subfolder of the entry point."@,
            Error::Persistence(PersistenceError::Unreadable) => "Failed to read a data file."@,
            Error::Persistence(PersistenceError::Unwritable) => "Failed to write to the directory."@,
        }
    }

    /// What the error says of the path, name or reference `what`.
    pub open spec fn about_spec(self, what: Seq<char>) -> Seq<char> {
        self.message_spec() + " ("@ + what + ")"@
    }

    /// What the error says of the path, name or reference `what`.
    pub fn message_about(&self, what: &str) -> (r: String)
        ensures
            r@ == self.about_spec(what@),
    {
        self.message().concat(" (").concat(what).concat(")")
    }

    /// What the error says.
    pub fn message(&self) -> (r: String)
        ensures
            r@ == self.message_spec(),
    {
        let text = match self {
            Error::Path(PathError::NotADirectory) => "The path is not a valid directory.",
            Error::Path(PathError::AlreadyExists) => "The path already exists.",
            Error::Path(PathError::InvalidName) => "The name is not a valid directory name.",
            Error::Naming(NamingError::InvalidPattern) => "Failed to build the pattern of the semester names.",
            Error::Naming(NamingError::MissingCapture) => "The pattern of the semester names lacks a capture group.",
            Error::Naming(NamingError::IncompleteMapping) => "The study cycle mapping leaves a study cycle without a token.",
            Error::Naming(NamingError::NoMatch) => "Provided name is not a valid semester name.",
            Error::Naming(NamingError::EmptyCapture) => "Failed to extract semester number or study cycle.",
            Error::Naming(NamingError::NotNumeric) => "Failed to parse semester number.",
            Error::Naming(NamingError::UnmappedCycle) => "The semester name could not be matched to a study cycle.",
            Error::Naming(NamingError::MissingCycle) => "A study cycle must be provided as currently no semester is active.",
            Error::Naming(NamingError::NotCanonical) => "The naming policy does not read the canonical name of the semester.",
            Error::Config(ConfigError::NotASymlink) => "The path of a link already exists and is not a symlink.",
            Error::Config(ConfigError::Unparsable) => "Failed to parse the config file.",
            Error::Config(ConfigError::MissingEntryPoint) => "The key 'entry_point' could not be found in the config file.",
            Error::Config(ConfigError::EntryPointNotText) => "entry_point is not a valid string.",
            Error::Reference(ReferenceError::InvalidReference) => "Please provide a valid reference.",
            Error::Reference(ReferenceError::NotFound(Segment::Semester)) => "No semester found matching the reference.",
            Error::Reference(ReferenceError::NotFound(Segment::Course)) => "No course found matching the reference.",
            Error::Reference(ReferenceError::NotFound(Segment::Name)) => "No semester or course found by reference.",
            Error::Reference(ReferenceError::OutOfScope) => "The current working directory must be a subfolder of the entry point.",
            Error::Persistence(PersistenceError::Unreadable) => "Failed to read a data file.",
            Error::Persistence(PersistenceError::Unwritable) => "Failed to write to the directory.",
        };
        text.to_owned()
    }
}

} // verus!
