//! A course: a directory of a semester with the data of its sidecar file.

use crate::disk::{copy_course_data, Disk};
use crate::error::PersistenceError;
use crate::image::{CourseDO, CourseDOView, DiskView, Stored};
use crate::journal::Notes;
use crate::paths::{CoursePath, CoursePathView};
use vstd::prelude::*;
use vstd::string::*;

verus! {

/// A course as it was loaded.
#[derive(Debug)]
pub struct Course {
    path: CoursePath,
    data: CourseDO,
}

/// A course in contracts: where it lies and what its sidecar file holds.
pub struct CourseView {
    pub path: CoursePathView,
    pub data: CourseDOView,
}

impl View for Course {
    type V = CourseView;

    closed spec fn view(&self) -> CourseView {
        CourseView { path: self.path@, data: self.data@ }
    }
}

/// The views of a list of courses.
pub open spec fn course_list_views(courses: Seq<Course>) -> Seq<CourseView> {
    courses.map_values(|c: Course| c@)
}

/// The notes after the sidecar file of the directory `course` in
/// `semester` was asked for: the file is made where the directory is there
/// and the file is not.
pub open spec fn course_touched(
    notes: Notes,
    disk: DiskView,
    semester: Seq<char>,
    course: Seq<char>,
) -> Notes {
    notes.touch_course(disk.has_course_dir(semester, course), semester, course)
}

/// The notes after the courses at `paths` were loaded, in their order.
pub open spec fn courses_touched(notes: Notes, disk: DiskView, paths: Seq<CoursePathView>) -> Notes
    decreases paths.len(),
{
    if paths.len() == 0 {
        notes
    } else {
        course_touched(
            courses_touched(notes, disk, paths.drop_last()),
            disk,
            paths.last().semester,
            paths.last().name,
        )
    }
}

/// What loading the course at `path` gives: its directory must be there, and
/// its sidecar file must be understood; a file that is not there holds no data.
pub open spec fn load_course(disk: DiskView, path: CoursePathView) -> Result<
    CourseView,
    PersistenceError,
> {
    if !disk.has_course_dir(path.semester, path.name) {
        Err(PersistenceError::Unwritable)
    } else {
        match disk.semester(path.semester).course(path.name).data {
            Stored::Corrupt => Err(PersistenceError::Unreadable),
            Stored::Holds(data) => Ok(CourseView { path: path, data: data }),
        }
    }
}

/// The courses that load, of those at `paths`, in their order.
pub open spec fn loaded_courses(disk: DiskView, paths: Seq<CoursePathView>) -> Seq<CourseView>
    decreases paths.len(),
{
    if paths.len() == 0 {
        Seq::empty()
    } else {
        match load_course(disk, paths.last()) {
            Ok(course) => loaded_courses(disk, paths.drop_last()).push(course),
            Err(_) => loaded_courses(disk, paths.drop_last()),
        }
    }
}

/// The name that a course is shown under: the one its data holds, or else
/// the name of its directory in square brackets.
pub open spec fn display_name(course: CourseView) -> Seq<char> {
    match course.data.name {
        Some(name) => name,
        None => seq!['['] + course.path.name + seq![']'],
    }
}

impl Course {
    /// Loads the course at `path`; a sidecar file without data is made where
    /// there is none.
    pub fn from_path(path: CoursePath, disk: &mut Disk) -> (r: Result<Course, PersistenceError>)
        requires
            old(disk).wf(),
        ensures
            final(disk).wf(),
            final(disk).only_made_files(*old(disk)),
            final(disk)@ == old(disk)@,
            match r {
                Ok(course) => load_course(old(disk)@, path@) == Ok::<CourseView, PersistenceError>(
                    course@,
                ),
                Err(e) => load_course(old(disk)@, path@) == Err::<CourseView, PersistenceError>(e),
            },
            final(disk).notes() == course_touched(
                old(disk).notes(),
                old(disk)@,
                path@.semester,
                path@.name,
            ),
    {
        let file = match path.data_file(disk) {
            Ok(file) => file,
            Err(e) => {
                return Err(e);
            },
        };
        match file.read(disk) {
            Ok(data) => Ok(Course { path, data }),
            Err(e) => Err(e),
        }
    }

    /// The directory of the course.
    pub fn path(&self) -> (r: &CoursePath)
        ensures
            r@ == self@.path,
    {
        &self.path
    }

    /// A copy of the course.
    pub fn copy(&self) -> (r: Course)
        ensures
            r@ == self@,
    {
        Course { path: self.path.copy(), data: copy_course_data(&self.data) }
    }

    /// The name that the course is shown under.
    pub fn name(&self) -> (r: String)
        ensures
            r@ == display_name(self@),
    {
        match &self.data.name {
            Some(name) => name.clone(),
            None => {
                proof {
                    reveal_strlit("[");
                    reveal_strlit("]");
                }
                let r = "[".to_owned().concat(self.path.name()).concat("]");
                r
            },
        }
    }

    /// The grade, as the bits of a 32-bit float.
    pub fn grade_bits(&self) -> (r: Option<u32>)
        ensures
            r == self@.data.grade,
    {
        self.data.grade
    }

    /// The credit weight.
    pub fn ects(&self) -> (r: Option<u8>)
        ensures
            r == self@.data.ects,
    {
        self.data.ects
    }

    /// The degrees that the course counts for; none where the data names none.
    pub fn degrees(&self) -> (r: Vec<String>)
        ensures
            r.deep_view() == (match self@.data.degrees {
                Some(list) => list,
                None => Seq::empty(),
            }),
    {
        match copy_course_data(&self.data).degrees {
            Some(list) => list,
            None => {
                let out: Vec<String> = Vec::new();
                out
            },
        }
    }

    /// Whether the course is exempt.
    pub fn uebk(&self) -> (r: Option<bool>)
        ensures
            r == self@.data.uebk,
    {
        self.data.uebk
    }
}

} // verus!
