//! Academic records kept as directories: an entry point holds the directories
//! of the semesters, and each of these the directories of its courses. The
//! library knows which semester and which course are the active ones, keeps
//! that in sidecar files and in two optional symlinks, and finds what a
//! reference or the working directory selects.
//!
//! The library never touches the file system. It works on an [`image::Image`]
//! of the directory, held by a [`disk::Disk`], and notes every change as an
//! [`journal::Action`]; whoever took the image does the pending actions on
//! the real directory. What each operation reads, changes and gives back is
//! stated in its contract over the views of these types, and proved.
//!
//! - [`names`]: the naming policy of the semester directories.
//! - [`image`], [`journal`], [`disk`]: the image, the actions, and the steps.
//! - [`paths`]: the handles of the entry point, the directories and the mirrors.
//! - [`course`], [`semester`], [`store`]: the entities and the store.
//! - [`switch`]: what a reference or a working directory selects.
//! - [`config`], [`cli`], [`format`], [`service`]: the commands and what they say.

pub mod cycle;
pub mod error;
pub mod pattern;
pub mod text;
pub mod names;
pub mod image;
pub mod journal;
pub mod disk;
pub mod paths;
pub mod config;
pub mod course;
pub mod semester;
pub mod store;
pub mod switch;
pub mod format;
pub mod cli;
pub mod service;
