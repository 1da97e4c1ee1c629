//! The changes that the library asks for: each is one step on the real
//! directory, and one step on its image.

use crate::image::{DiskView, LinkView, Slot};
use crate::text::opt_text;
use vstd::prelude::*;

verus! {

/// One change to the directory.
#[derive(Debug, PartialEq, Eq)]
pub enum Action {
    /// Make the store's sidecar file, empty.
    CreateStoreFile,
    /// Make the sidecar file of a semester, empty.
    CreateSemesterFile { semester: String },
    /// Make the sidecar file of a course, with no data.
    CreateCourseFile { semester: String, course: String },
    /// Write the active semester into the store's sidecar file.
    WriteStoreFile { active: Option<String> },
    /// Write the active course into the sidecar file of a semester.
    WriteSemesterFile { semester: String, active: Option<String> },
    /// Make the directory of a semester.
    CreateSemesterDir { name: String },
    /// Make the directory of a course.
    CreateCourseDir { semester: String, name: String },
    /// Remove the directory of a semester with all that it holds.
    RemoveSemesterDir { name: String },
    /// Remove the directory of a course with all that it holds.
    RemoveCourseDir { semester: String, name: String },
    /// Give the directory of a course another name.
    RenameCourseDir { semester: String, from: String, to: String },
    /// Make a symlink to `target` at the path of a mirror.
    Link { slot: Slot, target: String },
    /// Remove the symlink at the path of a mirror.
    Unlink { slot: Slot },
}

/// An action in contracts.
pub enum ActionView {
    CreateStoreFile,
    CreateSemesterFile { semester: Seq<char> },
    CreateCourseFile { semester: Seq<char>, course: Seq<char> },
    WriteStoreFile { active: Option<Seq<char>> },
    WriteSemesterFile { semester: Seq<char>, active: Option<Seq<char>> },
    CreateSemesterDir { name: Seq<char> },
    CreateCourseDir { semester: Seq<char>, name: Seq<char> },
    RemoveSemesterDir { name: Seq<char> },
    RemoveCourseDir { semester: Seq<char>, name: Seq<char> },
    RenameCourseDir { semester: Seq<char>, from: Seq<char>, to: Seq<char> },
    Link { slot: Slot, target: Seq<char> },
    Unlink { slot: Slot },
}

impl View for Action {
    type V = ActionView;

    open spec fn view(&self) -> ActionView {
        match self {
            Action::CreateStoreFile => ActionView::CreateStoreFile,
            Action::CreateSemesterFile { semester } => ActionView::CreateSemesterFile {
                semester: semester@,
            },
            Action::CreateCourseFile { semester, course } => ActionView::CreateCourseFile {
                semester: semester@,
                course: course@,
            },
            Action::WriteStoreFile { active } => ActionView::WriteStoreFile {
                active: opt_text(*active),
            },
            Action::WriteSemesterFile { semester, active } => ActionView::WriteSemesterFile {
                semester: semester@,
                active: opt_text(*active),
            },
            Action::CreateSemesterDir { name } => ActionView::CreateSemesterDir { name: name@ },
            Action::CreateCourseDir { semester, name } => ActionView::CreateCourseDir {
                semester: semester@,
                name: name@,
            },
            Action::RemoveSemesterDir { name } => ActionView::RemoveSemesterDir { name: name@ },
            Action::RemoveCourseDir { semester, name } => ActionView::RemoveCourseDir {
                semester: semester@,
                name: name@,
            },
            Action::RenameCourseDir { semester, from, to } => ActionView::RenameCourseDir {
                semester: semester@,
                from: from@,
                to: to@,
            },
            Action::Link { slot, target } => ActionView::Link { slot: *slot, target: target@ },
            Action::Unlink { slot } => ActionView::Unlink { slot: *slot },
        }
    }
}

/// The views of a list of actions.
pub open spec fn action_views(actions: Seq<Action>) -> Seq<ActionView> {
    actions.map_values(|a: Action| a@)
}

/// The image after one action. Making an empty sidecar file changes nothing
/// that can be read: a file that is not there reads as an empty one.
pub open spec fn apply(disk: DiskView, action: ActionView) -> DiskView {
    match action {
        ActionView::CreateStoreFile => disk,
        ActionView::CreateSemesterFile { semester } => disk,
        ActionView::CreateCourseFile { semester, course } => disk,
        ActionView::WriteStoreFile { active } => disk.with_active(active),
        ActionView::WriteSemesterFile { semester, active } => disk.with_active_course(
            semester,
            active,
        ),
        ActionView::CreateSemesterDir { name } => disk.with_semester(name),
        ActionView::CreateCourseDir { semester, name } => disk.with_course(semester, name),
        ActionView::RemoveSemesterDir { name } => disk.without_semester(name),
        ActionView::RemoveCourseDir { semester, name } => disk.without_course(semester, name),
        ActionView::RenameCourseDir { semester, from, to } => disk.with_course_renamed(
            semester,
            from,
            to,
        ),
        ActionView::Link { slot, target } => disk.with_link(slot, LinkView::Link(target)),
        ActionView::Unlink { slot } => disk.with_link(slot, LinkView::Absent),
    }
}

/// A sidecar file: the store's, a semester's, or that of a course of a semester.
pub enum FileKey {
    Store,
    Semester(Seq<char>),
    Course(Seq<char>, Seq<char>),
}

/// What the library keeps beside the image: the sidecar files that are
/// there, and the actions that are still to be done.
pub struct Notes {
    pub made: Set<FileKey>,
    pub pending: Seq<ActionView>,
}

impl Notes {
    /// The notes after a sidecar file was asked for: where it is not there,
    /// it is made, and the making is noted.
    pub open spec fn touch(self, key: FileKey, action: ActionView) -> Notes {
        if self.made.contains(key) {
            self
        } else {
            Notes { made: self.made.insert(key), pending: self.pending.push(action) }
        }
    }

    /// The notes after a sidecar file was asked for, where `possible` says
    /// whether its directory is there.
    pub open spec fn touch_if(self, possible: bool, key: FileKey, action: ActionView) -> Notes {
        if possible {
            self.touch(key, action)
        } else {
            self
        }
    }

    /// The notes after the store's sidecar file was asked for.
    pub open spec fn touch_store(self, possible: bool) -> Notes {
        self.touch_if(possible, FileKey::Store, ActionView::CreateStoreFile)
    }

    /// The notes after the sidecar file of a semester was asked for.
    pub open spec fn touch_semester(self, possible: bool, semester: Seq<char>) -> Notes {
        self.touch_if(
            possible,
            FileKey::Semester(semester),
            ActionView::CreateSemesterFile { semester: semester },
        )
    }

    /// The notes after the sidecar file of a course was asked for.
    pub open spec fn touch_course(self, possible: bool, semester: Seq<char>, course: Seq<char>) -> Notes {
        self.touch_if(
            possible,
            FileKey::Course(semester, course),
            ActionView::CreateCourseFile { semester: semester, course: course },
        )
    }

    /// The notes after a sidecar file was written: it is there afterwards,
    /// and the writing is noted.
    pub open spec fn write(self, key: FileKey, action: ActionView) -> Notes {
        Notes { made: self.made.insert(key), pending: self.pending.push(action) }
    }

    /// The notes after an action that makes or removes no sidecar file.
    pub open spec fn noting(self, action: ActionView) -> Notes {
        Notes { pending: self.pending.push(action), ..self }
    }

    /// The notes after the directory of a semester was removed: its sidecar
    /// file and those of its courses are gone with it.
    pub open spec fn remove_semester(self, name: Seq<char>) -> Notes {
        Notes {
            made: Set::new(
                |key: FileKey|
                    self.made.contains(key) && match key {
                        FileKey::Store => true,
                        FileKey::Semester(s) => s != name,
                        FileKey::Course(s, c) => s != name,
                    },
            ),
            pending: self.pending.push(ActionView::RemoveSemesterDir { name: name }),
        }
    }

    /// The notes after the directory of a course was removed: its sidecar
    /// file is gone with it.
    pub open spec fn remove_course(self, semester: Seq<char>, name: Seq<char>) -> Notes {
        Notes {
            made: self.made.remove(FileKey::Course(semester, name)),
            pending: self.pending.push(
                ActionView::RemoveCourseDir { semester: semester, name: name },
            ),
        }
    }

    /// The notes after the directory of a course was given another name: its
    /// sidecar file goes with it.
    pub open spec fn rename_course(self, semester: Seq<char>, from: Seq<char>, to: Seq<char>) -> Notes {
        Notes {
            made: if self.made.contains(FileKey::Course(semester, from)) {
                self.made.remove(FileKey::Course(semester, from)).insert(
                    FileKey::Course(semester, to),
                )
            } else {
                self.made.remove(FileKey::Course(semester, to))
            },
            pending: self.pending.push(
                ActionView::RenameCourseDir { semester: semester, from: from, to: to },
            ),
        }
    }
}

/// Whether an action only makes a sidecar file that is not there yet. Such an
/// action touches nothing that is there.
pub open spec fn is_creation(action: ActionView) -> bool {
    action is CreateStoreFile || action is CreateSemesterFile || action is CreateCourseFile
}

/// The actions that change what is there: all but the making of sidecar
/// files, in their order.
pub open spec fn changes_of(actions: Seq<ActionView>) -> Seq<ActionView>
    decreases actions.len(),
{
    if actions.len() == 0 {
        Seq::empty()
    } else if is_creation(actions.last()) {
        changes_of(actions.drop_last())
    } else {
        changes_of(actions.drop_last()).push(actions.last())
    }
}

/// The image after a list of actions, taken in their order.
pub open spec fn replay(disk: DiskView, actions: Seq<ActionView>) -> DiskView
    decreases actions.len(),
{
    if actions.len() == 0 {
        disk
    } else {
        apply(replay(disk, actions.drop_last()), actions.last())
    }
}

/// Replaying two lists of actions one after the other is replaying the
/// two joined.
pub proof fn lemma_replay_add(disk: DiskView, first: Seq<ActionView>, second: Seq<ActionView>)
    ensures
        replay(disk, first + second) == replay(replay(disk, first), second),
    decreases second.len(),
{
    if second.len() > 0 {
        lemma_replay_add(disk, first, second.drop_last());
        assert((first + second).drop_last() =~= first + second.drop_last());
    }
}

} // verus!
