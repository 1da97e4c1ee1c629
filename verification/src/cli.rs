//! The commands, as plain values.

use crate::cycle::StudyCycleDO;
use vstd::prelude::*;

verus! {

/// A command line.
#[derive(Debug)]
pub struct Cli {
    pub command: Commands,
}

#[derive(Debug)]
#[allow(inconsistent_fields)]
/// The commands.
pub enum Commands {
    /// Show the active semester or course.
    Status {  },
    /// Switch to a semester or course.
    Switch { reference: Option<String> },
    /// Manage semesters.
    Semester { command: Option<SemesterCommands> },
    /// Manage courses.
    Course { command: Option<CourseCommands> },
    /// Manage exercises.
    Exercise { command: ExerciseCommands },
    /// Change the configuration.
    Config { command: Option<ConfigCommands> },
}

#[derive(Debug)]
/// The commands on semesters.
pub enum SemesterCommands {
    List,
    Add { number: u16, study_cycle: Option<StudyCycleDO> },
    Remove { name: String },
}

#[derive(Debug)]
/// The commands on courses.
pub enum CourseCommands {
    List,
    Add { name: String },
    Remove { name: String },
}

#[derive(Debug)]
#[allow(inconsistent_fields)]
/// The commands on exercises.
pub enum ExerciseCommands {
    List,
    Add { name: Option<String> },
    Remove { name: String },
    Move { from: Option<String>, to: String },
}

#[derive(Debug)]
/// The commands on the configuration.
pub enum ConfigCommands {
    List,
    SetValue { key: String, value: String },
    Remove { key: String },
}

} // verus!
