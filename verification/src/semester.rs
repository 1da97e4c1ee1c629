//! A semester: a directory below the entry point whose name gives a number
//! and a study cycle, with the course that is active in it.

use crate::course::{course_list_views, load_course, loaded_courses, Course, CourseView};
use crate::cycle::StudyCycle;
use crate::disk::{Disk, Kind};
use crate::error::{Error, PathError, PersistenceError, ReferenceError, Segment};
use crate::image::{DiskView, SemesterDO, Stored};
use crate::journal::ActionView as AV;
use crate::journal::{FileKey, Notes};
use crate::names::{format_name, format_name_spec, NamingError, SemesterNames};
use crate::paths::{course_path_views, CoursePath, CoursePathView, SemesterPath, SemesterPathView};
use crate::text::{opt_text, parse_u16, parse_u16_spec, same_text, sorted_texts};
use vstd::prelude::*;
use vstd::string::*;

verus! {

/// A semester as it was loaded.
#[derive(Debug)]
pub struct Semester {
    semester_number: u16,
    study_cycle: StudyCycle,
    path: SemesterPath,
    active_course: Option<CoursePath>,
}

/// A semester in contracts.
pub struct SemesterView {
    pub number: u16,
    pub cycle: StudyCycle,
    pub path: SemesterPathView,
    pub active_course: Option<CoursePathView>,
}

/// The view of an optional course directory.
pub open spec fn opt_course_path(path: Option<CoursePath>) -> Option<CoursePathView> {
    match path {
        Some(p) => Some(p@),
        None => None,
    }
}

/// The view of an optional course.
pub open spec fn opt_course(course: Option<Course>) -> Option<CourseView> {
    match course {
        Some(c) => Some(c@),
        None => None,
    }
}

/// The directory of an optional course.
pub open spec fn opt_path_of(course: Option<&Course>) -> Option<CoursePathView> {
    match course {
        Some(c) => Some(c@.path),
        None => None,
    }
}

/// The name of the directory of an optional course.
pub open spec fn opt_name_of(path: Option<CoursePathView>) -> Option<Seq<char>> {
    match path {
        Some(p) => Some(p.name),
        None => None,
    }
}

impl View for Semester {
    type V = SemesterView;

    closed spec fn view(&self) -> SemesterView {
        SemesterView {
            number: self.semester_number,
            cycle: self.study_cycle,
            path: self.path@,
            active_course: opt_course_path(self.active_course),
        }
    }
}

/// The views of a list of semesters.
pub open spec fn semester_list_views(semesters: Seq<Semester>) -> Seq<SemesterView> {
    semesters.map_values(|s: Semester| s@)
}

/// The directory that a persisted name of an active course stands for: the
/// course must still be there.
pub open spec fn resolve_active(
    disk: DiskView,
    path: SemesterPathView,
    active: Option<Seq<char>>,
) -> Option<CoursePathView> {
    match active {
        Some(name) => if disk.has_course_dir(path.name, name) {
            Some(path.child(name))
        } else {
            None
        },
        None => None,
    }
}

/// What loading the semester at `path` gives, from what its name reads as:
/// its directory must be there, its sidecar file must be understood, and its
/// name must be read by the policy.
pub open spec fn load_with(
    disk: DiskView,
    parsed: Result<(u16, StudyCycle), NamingError>,
    path: SemesterPathView,
) -> Result<SemesterView, Error> {
    if !disk.has_dir(path.name) {
        Err(Error::Persistence(PersistenceError::Unwritable))
    } else {
        match disk.semester(path.name).active {
            Stored::Corrupt => Err(Error::Persistence(PersistenceError::Unreadable)),
            Stored::Holds(active) => match parsed {
                Err(e) => Err(Error::Naming(e)),
                Ok((number, cycle)) => Ok(
                    SemesterView {
                        number: number,
                        cycle: cycle,
                        path: path,
                        active_course: resolve_active(disk, path, active),
                    },
                ),
            },
        }
    }
}

/// The notes after the sidecar file of the directory `semester` was asked
/// for: the file is made where the directory is there and the file is not.
pub open spec fn touched(notes: Notes, disk: DiskView, semester: Seq<char>) -> Notes {
    notes.touch_semester(disk.has_dir(semester), semester)
}

/// The notes after the sidecar file of the directory `semester` was
/// written: the file is made where it is not there, and written; nothing is
/// noted where the directory is not there.
pub open spec fn written(
    notes: Notes,
    disk: DiskView,
    semester: Seq<char>,
    active: Option<Seq<char>>,
) -> Notes {
    if disk.has_dir(semester) {
        touched(notes, disk, semester).write(
            FileKey::Semester(semester),
            AV::WriteSemesterFile { semester: semester, active: active },
        )
    } else {
        notes
    }
}

/// What loading the semester at `path` under a policy gives.
pub open spec fn load_semester(disk: DiskView, policy: SemesterNames, path: SemesterPathView) -> Result<
    SemesterView,
    Error,
> {
    load_with(disk, policy.parse_spec(path.name), path)
}

/// The semesters that load, of those at `paths`, in their order.
pub open spec fn loaded_semesters(
    disk: DiskView,
    policy: SemesterNames,
    paths: Seq<SemesterPathView>,
) -> Seq<SemesterView>
    decreases paths.len(),
{
    if paths.len() == 0 {
        Seq::empty()
    } else {
        match load_semester(disk, policy, paths.last()) {
            Ok(semester) => loaded_semesters(disk, policy, paths.drop_last()).push(semester),
            Err(_) => loaded_semesters(disk, policy, paths.drop_last()),
        }
    }
}

/// The study cycle that a letter stands for in the fixed naming scheme.
pub open spec fn fixed_cycle(letter: char) -> Option<StudyCycle> {
    if letter == 'b' {
        Some(StudyCycle::Bachelor)
    } else if letter == 'm' {
        Some(StudyCycle::Master)
    } else if letter == 'd' {
        Some(StudyCycle::Doctorate)
    } else {
        None
    }
}

/// What a name reads as in the fixed naming scheme: one of the letters `b`,
/// `m`, `d`, then a number.
pub open spec fn fixed_parse(name: Seq<char>) -> Result<(u16, StudyCycle), NamingError> {
    if name.len() == 0 {
        Err(NamingError::NoMatch)
    } else {
        match fixed_cycle(name[0]) {
            None => Err(NamingError::UnmappedCycle),
            Some(cycle) => match parse_u16_spec(name.skip(1)) {
                None => Err(NamingError::NotNumeric),
                Some(number) => Ok((number, cycle)),
            },
        }
    }
}

/// What loading the semester at `path` under the fixed naming scheme gives:
/// something must lie at the path, and its name must fit the scheme, before
/// the directory is opened.
pub open spec fn load_fixed(disk: DiskView, path: SemesterPathView) -> Result<SemesterView, Error> {
    if !disk.contains(path.name) {
        Err(Error::Path(PathError::NotADirectory))
    } else if fixed_parse(path.name) is Err {
        Err(Error::Naming(fixed_parse(path.name)->Err_0))
    } else {
        load_with(disk, fixed_parse(path.name), path)
    }
}

/// Reads number and cycle from a name in the fixed naming scheme.
pub fn read_fixed_name(name: &str) -> (r: Result<(u16, StudyCycle), NamingError>)
    ensures
        r == fixed_parse(name@),
{
    let len = name.unicode_len();
    if len == 0 {
        return Err(NamingError::NoMatch);
    }
    let letter = name.get_char(0);
    let cycle = if letter == 'b' {
        StudyCycle::Bachelor
    } else if letter == 'm' {
        StudyCycle::Master
    } else if letter == 'd' {
        StudyCycle::Doctorate
    } else {
        return Err(NamingError::UnmappedCycle);
    };
    let digits = name.substring_char(1, len);
    match parse_u16(digits) {
        Some(number) => Ok((number, cycle)),
        None => Err(NamingError::NotNumeric),
    }
}

impl Semester {
    /// Loads the semester at `path`; an empty sidecar file is made where
    /// there is none.
    pub fn from_path(path: SemesterPath, semester_names: &SemesterNames, disk: &mut Disk) -> (r:
        Result<Semester, Error>)
        requires
            old(disk).wf(),
        ensures
            final(disk).wf(),
            final(disk).only_made_files(*old(disk)),
            final(disk)@ == old(disk)@,
            match r {
                Ok(semester) => load_semester(old(disk)@, *semester_names, path@) == Ok::<
                    SemesterView,
                    Error,
                >(semester@),
                Err(e) => load_semester(old(disk)@, *semester_names, path@) == Err::<
                    SemesterView,
                    Error,
                >(e),
            },
            r matches Ok(semester) ==> semester@.path == path@,
            final(disk).notes() == touched(old(disk).notes(), old(disk)@, path@.name),
    {
        let parsed = semester_names.deserialize(path.name());
        Self::load(path, parsed, disk)
    }

    fn load(path: SemesterPath, parsed: Result<(u16, StudyCycle), NamingError>, disk: &mut Disk) -> (r:
        Result<Semester, Error>)
        requires
            old(disk).wf(),
        ensures
            final(disk).wf(),
            final(disk).only_made_files(*old(disk)),
            final(disk)@ == old(disk)@,
            match r {
                Ok(semester) => load_with(old(disk)@, parsed, path@) == Ok::<SemesterView, Error>(
                    semester@,
                ),
                Err(e) => load_with(old(disk)@, parsed, path@) == Err::<SemesterView, Error>(e),
            },
            final(disk).notes() == touched(old(disk).notes(), old(disk)@, path@.name),
    {
        let data_file = match path.data_file(disk) {
            Ok(file) => file,
            Err(e) => {
                return Err(Error::Persistence(e));
            },
        };
        let semester_do = match data_file.read(disk) {
            Ok(data) => data,
            Err(e) => {
                return Err(Error::Persistence(e));
            },
        };
        let active_course = match &semester_do.active_course {
            Some(name) => path.course_path(name.as_str(), disk),
            None => None,
        };
        match parsed {
            Ok((semester_number, study_cycle)) => Ok(
                Semester { semester_number, study_cycle, path, active_course },
            ),
            Err(e) => Err(Error::Naming(e)),
        }
    }

    /// Reads cycle, number and name from the directory at `path` in the fixed
    /// naming scheme. Fails where nothing lies at the path.
    pub fn deserialize_path(path: &SemesterPath, disk: &Disk) -> (r: Result<
        (StudyCycle, u16, String),
        Error,
    >)
        ensures
            match r {
                Ok((cycle, number, name)) => disk@.contains(path@.name) && fixed_parse(path@.name)
                    == Ok::<(u16, StudyCycle), NamingError>((number, cycle)) && name@
                    == path@.name,
                Err(e) => e == (if !disk@.contains(path@.name) {
                    Error::Path(PathError::NotADirectory)
                } else {
                    Error::Naming(fixed_parse(path@.name)->Err_0)
                }) && (!disk@.contains(path@.name) || fixed_parse(path@.name) is Err),
            },
    {
        if let Kind::Missing = disk.semester_kind(path.name()) {
            return Err(Error::Path(PathError::NotADirectory));
        }
        match read_fixed_name(path.name()) {
            Ok((number, cycle)) => Ok((cycle, number, path.name().to_owned())),
            Err(e) => Err(Error::Naming(e)),
        }
    }

    /// Loads the semester at `path` under the fixed naming scheme.
    pub fn new(path: SemesterPath, disk: &mut Disk) -> (r: Result<Semester, Error>)
        requires
            old(disk).wf(),
        ensures
            final(disk).wf(),
            final(disk).only_made_files(*old(disk)),
            final(disk)@ == old(disk)@,
            match r {
                Ok(semester) => load_fixed(old(disk)@, path@) == Ok::<SemesterView, Error>(
                    semester@,
                ),
                Err(e) => load_fixed(old(disk)@, path@) == Err::<SemesterView, Error>(e),
            },
            r matches Ok(semester) ==> semester@.path == path@,
            final(disk).notes() == (if old(disk)@.contains(path@.name) && fixed_parse(path@.name)
                is Ok {
                touched(old(disk).notes(), old(disk)@, path@.name)
            } else {
                old(disk).notes()
            }),
    {
        match Self::deserialize_path(&path, disk) {
            Ok((cycle, number, _)) => Self::load(path, Ok((number, cycle)), disk),
            Err(e) => Err(e),
        }
    }

    /// A copy of the semester.
    pub fn copy(&self) -> (r: Semester)
        ensures
            r@ == self@,
    {
        Semester {
            semester_number: self.semester_number,
            study_cycle: self.study_cycle,
            path: self.path.copy(),
            active_course: match &self.active_course {
                Some(p) => Some(p.copy()),
                None => None,
            },
        }
    }

    /// The active course, loaded; none where no course is active or it does not load.
    pub fn active_course(&self, disk: &mut Disk) -> (r: Option<Course>)
        requires
            old(disk).wf(),
        ensures
            final(disk).wf(),
            final(disk).only_made_files(*old(disk)),
            final(disk)@ == old(disk)@,
            opt_course(r) == active_course_of(old(disk)@, self@),
            final(disk).notes() == (match self@.active_course {
                Some(path) => crate::course::course_touched(old(disk).notes(), old(disk)@, path.semester, path.name),
                None => old(disk).notes(),
            }),
    {
        match &self.active_course {
            Some(path) => match Course::from_path(path.copy(), disk) {
                Ok(course) => Some(course),
                Err(_) => None,
            },
            None => None,
        }
    }

    /// The courses of the semester that load, in the order of a dictionary by
    /// the names of their directories.
    pub fn courses(&self, disk: &mut Disk) -> (r: Vec<Course>)
        requires
            old(disk).wf(),
        ensures
            final(disk).wf(),
            final(disk).only_made_files(*old(disk)),
            final(disk)@ == old(disk)@,
            course_list_views(r@) == courses_of(old(disk)@, self@.path),
            final(disk).notes() == crate::course::courses_touched(
                old(disk).notes(),
                old(disk)@,
                self@.path.children(sorted_texts(old(disk)@.course_dir_names(self@.path.name))),
            ),
    {
        let paths = self.path.course_paths(disk);
        let mut out: Vec<Course> = Vec::new();
        let mut i: usize = 0;
        while i < paths.len()
            invariant
                i <= paths@.len(),
                disk.wf(),
                disk.only_made_files(*old(disk)),
                disk@ == old(disk)@,
                course_list_views(out@) == loaded_courses(
                    old(disk)@,
                    course_path_views(paths@).take(i as int),
                ),
                disk.notes() == crate::course::courses_touched(
                    old(disk).notes(),
                    old(disk)@,
                    course_path_views(paths@).take(i as int),
                ),
            decreases paths@.len() - i,
        {
            proof {
                let now = course_path_views(paths@).take(i + 1);
                assert(now.drop_last() =~= course_path_views(paths@).take(i as int));
            }
            match Course::from_path(paths[i].copy(), disk) {
                Ok(course) => {
                    out.push(course);
                },
                Err(_) => {},
            }
            i += 1;
        }
        proof {
            assert(course_path_views(paths@).take(i as int) =~= course_path_views(paths@));
        }
        out
    }

    /// The course whose directory is named `name`; none where there is no
    /// such directory or the course does not load.
    pub fn course(&self, name: &str, disk: &mut Disk) -> (r: Option<Course>)
        requires
            old(disk).wf(),
        ensures
            final(disk).wf(),
            final(disk).only_made_files(*old(disk)),
            final(disk)@ == old(disk)@,
            opt_course(r) == course_of(old(disk)@, self@.path, name@),
            final(disk).notes() == crate::course::course_touched(old(disk).notes(), old(disk)@,
                self@.path.name,
                name@,
            ),
    {
        match self.path.course_path(name, disk) {
            Some(path) => match Course::from_path(path, disk) {
                Ok(course) => Some(course),
                Err(_) => None,
            },
            None => None,
        }
    }

    /// The active course, loaded.
    pub fn active(&self, disk: &mut Disk) -> (r: Option<Course>)
        requires
            old(disk).wf(),
        ensures
            final(disk).wf(),
            final(disk).only_made_files(*old(disk)),
            final(disk)@ == old(disk)@,
            opt_course(r) == active_course_of(old(disk)@, self@),
            final(disk).notes() == (match self@.active_course {
                Some(path) => crate::course::course_touched(old(disk).notes(), old(disk)@, path.semester, path.name),
                None => old(disk).notes(),
            }),
    {
        self.active_course(disk)
    }

    /// The course whose directory is named `name`. Fails where nothing of
    /// that name lies in the directory of the semester, or the course does
    /// not load.
    pub fn get_course(&self, name: &str, disk: &mut Disk) -> (r: Result<Course, Error>)
        requires
            old(disk).wf(),
        ensures
            final(disk).wf(),
            final(disk).only_made_files(*old(disk)),
            final(disk)@ == old(disk)@,
            match r {
                Ok(course) => get_course_of(old(disk)@, self@.path, name@) == Ok::<
                    CourseView,
                    Error,
                >(course@),
                Err(e) => get_course_of(old(disk)@, self@.path, name@) == Err::<CourseView, Error>(
                    e,
                ),
            },
            final(disk).notes() == crate::course::course_touched(old(disk).notes(), old(disk)@,
                self@.path.name,
                name@,
            ),
    {
        if let Kind::Missing = disk.course_kind(self.path.name(), name) {
            return Err(Error::Reference(ReferenceError::NotFound(Segment::Course)));
        }
        let path = match self.path.course_path(name, disk) {
            Some(path) => path,
            None => {
                return Err(Error::Persistence(PersistenceError::Unwritable));
            },
        };
        match Course::from_path(path, disk) {
            Ok(course) => Ok(course),
            Err(e) => Err(Error::Persistence(e)),
        }
    }

    /// Tells whether the directory of the semester has the canonical name of
    /// the semester.
    pub fn is_canonical(&self) -> (r: bool)
        ensures
            r == self@.is_canonical(),
    {
        let name = format_name(self.study_cycle, self.semester_number);
        same_text(name.as_str(), self.path.name())
    }

    /// Makes `course` the active course, or none, and writes the semester's
    /// sidecar file. The mirrors are left alone. Fails, with the file
    /// unwritten, where the directory of the semester is not there.
    pub fn set_active(&mut self, disk: &mut Disk, course: Option<&Course>) -> (r: Result<
        (),
        PersistenceError,
    >)
        requires
            old(disk).wf(),
        ensures
            final(disk).wf(),
            final(disk).follows(*old(disk)),
            final(self)@ == old(self)@.with_active(opt_path_of(course)),
            r == crate::paths::touch_outcome(old(disk)@.has_dir(old(self)@.path.name)),
            final(disk)@ == (if r.is_ok() {
                old(disk)@.with_active_course(
                    old(self)@.path.name,
                    opt_name_of(opt_path_of(course)),
                )
            } else {
                old(disk)@
            }),
            final(disk).notes() == written(old(disk).notes(), old(disk)@,
                old(self)@.path.name,
                opt_name_of(opt_path_of(course)),
            ),
            final(disk).changes() == (if r.is_ok() {
                old(disk).changes().push(
                    AV::WriteSemesterFile {
                        semester: old(self)@.path.name,
                        active: opt_name_of(opt_path_of(course)),
                    },
                )
            } else {
                old(disk).changes()
            }),
    {
        self.active_course = match course {
            Some(c) => Some(c.path().copy()),
            None => None,
        };
        self.write(disk)
    }

    /// Writes the semester's sidecar file; it is made where there is none.
    pub fn write(&self, disk: &mut Disk) -> (r: Result<(), PersistenceError>)
        requires
            old(disk).wf(),
        ensures
            final(disk).wf(),
            final(disk).follows(*old(disk)),
            r == crate::paths::touch_outcome(old(disk)@.has_dir(self@.path.name)),
            final(disk)@ == (if r.is_ok() {
                old(disk)@.with_active_course(self@.path.name, opt_name_of(self@.active_course))
            } else {
                old(disk)@
            }),
            final(disk).notes() == written(old(disk).notes(), old(disk)@,
                self@.path.name,
                opt_name_of(self@.active_course),
            ),
            final(disk).changes() == (if r.is_ok() {
                old(disk).changes().push(
                    AV::WriteSemesterFile {
                        semester: self@.path.name,
                        active: opt_name_of(self@.active_course),
                    },
                )
            } else {
                old(disk).changes()
            }),
    {
        let file = match self.path.data_file(disk) {
            Ok(file) => file,
            Err(e) => {
                return Err(e);
            },
        };
        file.write(disk, &self.to_do())
    }

    /// What the semester's sidecar file is to hold.
    pub fn to_do(&self) -> (r: SemesterDO)
        ensures
            opt_text(r.active_course) == opt_name_of(self@.active_course),
    {
        let active_course = match &self.active_course {
            Some(path) => Some(path.name().to_owned()),
            None => None,
        };
        SemesterDO { active_course }
    }

    /// The directory of the semester.
    pub fn path(&self) -> (r: &SemesterPath)
        ensures
            r@ == self@.path,
    {
        &self.path
    }

    /// The name of the semester: the name of its directory.
    pub fn name(&self) -> (r: String)
        ensures
            r@ == self@.path.name,
    {
        self.path.name().to_owned()
    }

    /// The study cycle of the semester.
    pub fn study_cycle(&self) -> (r: StudyCycle)
        ensures
            r == self@.cycle,
    {
        self.study_cycle
    }

    /// The number of the semester.
    pub fn number(&self) -> (r: u16)
        ensures
            r == self@.number,
    {
        self.semester_number
    }

    /// Writes the canonical name of a semester.
    pub fn format_name(cycle: StudyCycle, semester_number: u16) -> (r: String)
        ensures
            r@ == format_name_spec(cycle, semester_number),
    {
        format_name(cycle, semester_number)
    }

    /// Removes the directory of the semester with all that it holds. Fails
    /// where there is no such directory.
    pub fn remove(self, disk: &mut Disk) -> (r: Result<(), PersistenceError>)
        requires
            old(disk).wf(),
        ensures
            final(disk).wf(),
            final(disk).follows(*old(disk)),
            r == crate::paths::touch_outcome(old(disk)@.has_dir(self@.path.name)),
            final(disk)@ == (if r.is_ok() {
                old(disk)@.without_semester(self@.path.name)
            } else {
                old(disk)@
            }),
            final(disk).changes() == (if r.is_ok() {
                old(disk).changes().push(AV::RemoveSemesterDir { name: self@.path.name })
            } else {
                old(disk).changes()
            }),
            final(disk).notes() == (if r.is_ok() {
                old(disk).notes().remove_semester(self@.path.name)
            } else {
                old(disk).notes()
            }),
    {
        self.path.remove(disk)
    }

    /// Adds a course named `name`: makes its directory and its sidecar file.
    /// Fails, and changes nothing, where the name is taken.
    pub fn add_course(&self, disk: &mut Disk, name: &str) -> (r: Result<Course, Error>)
        requires
            old(disk).wf(),
        ensures
            final(disk).wf(),
            final(disk).follows(*old(disk)),
            match r {
                Ok(course) => {
                    &&& old(disk)@.create_course_outcome(self@.path.name, name@) is Ok
                    &&& final(disk)@ == old(disk)@.with_course(self@.path.name, name@)
                    &&& course@ == (CourseView {
                        path: self@.path.child(name@),
                        data: crate::image::no_course_data(),
                    })
                },
                Err(e) => {
                    &&& old(disk)@.create_course_outcome(self@.path.name, name@) is Err
                    &&& e == Error::Path(
                        old(disk)@.create_course_outcome(self@.path.name, name@)->Err_0,
                    )
                    &&& final(disk)@ == old(disk)@
                },
            },
            final(disk).changes() == (if r.is_ok() {
                old(disk).changes().push(
                    AV::CreateCourseDir { semester: self@.path.name, name: name@ },
                )
            } else {
                old(disk).changes()
            }),
            final(disk).notes() == (if r.is_ok() {
                old(disk).notes().noting(
                    AV::CreateCourseDir { semester: self@.path.name, name: name@ },
                ).write(
                    FileKey::Course(self@.path.name, name@),
                    AV::CreateCourseFile { semester: self@.path.name, course: name@ },
                )
            } else {
                old(disk).notes()
            }),
    {
        let path = match self.path.create_course_path(disk, name) {
            Ok(path) => path,
            Err(e) => {
                return Err(Error::Path(e));
            },
        };
        proof {
            old(disk)@.lemma_with_course(self@.path.name, name@);
            disk.lemma_made();
        }
        match Course::from_path(path, disk) {
            Ok(course) => Ok(course),
            Err(e) => Err(Error::Persistence(e)),
        }
    }

    /// Removes a course of the semester with all that its directory holds.
    /// Where the course is the active one, the semester has no active course
    /// afterwards, and its sidecar file says so. The mirrors are left alone:
    /// they are the store's.
    pub fn remove_course(&mut self, disk: &mut Disk, course: Course) -> (r: Result<
        (),
        PersistenceError,
    >)
        requires
            old(disk).wf(),
        ensures
            final(disk).wf(),
            final(disk).follows(*old(disk)),
            final(self)@ == (if old(self)@.holds_active(course@.path) {
                old(self)@.with_active(None)
            } else {
                old(self)@
            }),
            final(disk)@ == after_remove_course(old(disk)@, old(self)@, course@.path).0,
            final(disk).changes() =~= old(disk).changes() + after_remove_course(
                old(disk)@,
                old(self)@,
                course@.path,
            ).2,
            r == after_remove_course(old(disk)@, old(self)@, course@.path).1,
            final(disk).notes() == noted_remove_course(old(disk).notes(), old(disk)@, old(self)@, course@.path),
    {
        if self.is_active(&course) {
            match self.set_active(disk, None) {
                Ok(()) => {},
                Err(e) => {
                    return Err(e);
                },
            }
        }
        course.path().copy().remove(disk)
    }

    /// Gives a course of the semester the name `to`. Fails, and changes
    /// nothing, where the new name is taken or the course is not there. Where
    /// the course is the active one, it stays the active one under its new
    /// name, and the semester's sidecar file says so. The mirrors are left
    /// alone: they are the store's.
    pub fn move_course(&mut self, disk: &mut Disk, course: Course, to: &str) -> (r: Result<
        Course,
        Error,
    >)
        requires
            old(disk).wf(),
        ensures
            final(disk).wf(),
            final(disk).follows(*old(disk)),
            final(disk)@ == after_move_course(old(disk)@, old(self)@, course@.path, to@).0,
            final(disk).changes() =~= old(disk).changes() + after_move_course(
                old(disk)@,
                old(self)@,
                course@.path,
                to@,
            ).2,
            match r {
                Ok(moved) => {
                    &&& after_move_course(old(disk)@, old(self)@, course@.path, to@).1 == Ok::<
                        CourseView,
                        Error,
                    >(moved@)
                    &&& final(self)@ == (if old(self)@.holds_active(course@.path) {
                        old(self)@.with_active(Some(moved@.path))
                    } else {
                        old(self)@
                    })
                },
                Err(e) => {
                    &&& after_move_course(old(disk)@, old(self)@, course@.path, to@).1 == Err::<
                        CourseView,
                        Error,
                    >(e)
                    &&& final(self)@ == old(self)@
                },
            },
            final(disk).notes() == noted_move_course(
                old(disk).notes(),
                old(disk)@,
                old(self)@,
                course@.path,
                to@,
            ),
    {
        let active = self.is_active(&course);
        match disk.rename_course_dir(self.path.name(), course.path().name(), to) {
            Ok(()) => {},
            Err(e) => {
                return Err(Error::Path(e));
            },
        }
        let path = match self.path.course_path(to, disk) {
            Some(path) => path,
            None => {
                return Err(Error::Path(PathError::NotADirectory));
            },
        };
        let moved = match Course::from_path(path, disk) {
            Ok(moved) => moved,
            Err(e) => {
                return Err(Error::Persistence(e));
            },
        };
        if active {
            match self.set_active(disk, Some(&moved)) {
                Ok(()) => {},
                Err(e) => {
                    return Err(Error::Persistence(e));
                },
            }
        }
        Ok(moved)
    }

    /// Tells whether `course` is the active course of the semester.
    pub fn is_active(&self, course: &Course) -> (r: bool)
        ensures
            r == self@.holds_active(course@.path),
    {
        match &self.active_course {
            Some(path) => same_text(path.semester(), course.path().semester()) && same_text(
                path.name(),
                course.path().name(),
            ),
            None => false,
        }
    }
}

impl SemesterView {
    /// The semester with another active course.
    pub open spec fn with_active(self, active: Option<CoursePathView>) -> SemesterView {
        SemesterView { active_course: active, ..self }
    }

    /// Whether the directory of the semester has the canonical name of the
    /// semester.
    pub open spec fn is_canonical(self) -> bool {
        self.path.name == format_name_spec(self.cycle, self.number)
    }

    /// Whether the course at `course` is the active course of the semester.
    pub open spec fn holds_active(self, course: CoursePathView) -> bool {
        match self.active_course {
            Some(path) => path.semester == course.semester && path.name == course.name,
            None => false,
        }
    }
}

/// The notes after a course of a semester was removed: where the course is
/// the active one, the semester's sidecar file is made where it is not
/// there, and written; then the directory of the course is removed, and its
/// sidecar file with it.
pub open spec fn noted_remove_course(
    notes: Notes,
    disk: DiskView,
    semester: SemesterView,
    course: CoursePathView,
) -> Notes {
    let cleared = if semester.holds_active(course) {
        written(notes, disk, semester.path.name, None)
    } else {
        notes
    };
    if after_remove_course(disk, semester, course).1 is Ok {
        cleared.remove_course(course.semester, course.name)
    } else {
        cleared
    }
}

/// The notes after a course of a semester was given the name `to`: the
/// directory is renamed, and its sidecar file goes with it; the course is
/// loaded under its new name; where it is the active one, the semester's
/// sidecar file is written.
pub open spec fn noted_move_course(
    notes: Notes,
    disk: DiskView,
    semester: SemesterView,
    course: CoursePathView,
    to: Seq<char>,
) -> Notes {
    if disk.rename_course_outcome(semester.path.name, course.name, to) is Err {
        notes
    } else {
        let renamed = disk.with_course_renamed(semester.path.name, course.name, to);
        let moved = notes.rename_course(semester.path.name, course.name, to);
        if !renamed.has_course_dir(semester.path.name, to) {
            moved
        } else {
            let loaded = crate::course::course_touched(moved, renamed, semester.path.name, to);
            if load_course(renamed, semester.path.child(to)) is Ok && semester.holds_active(
                course,
            ) {
                written(loaded, renamed, semester.path.name, Some(to))
            } else {
                loaded
            }
        }
    }
}

/// The image after a course of a semester was removed, whether that went
/// through, and the changes that were made: the pointer of an active course
/// is cleared first.
pub open spec fn after_remove_course(
    disk: DiskView,
    semester: SemesterView,
    course: CoursePathView,
) -> (DiskView, Result<(), PersistenceError>, Seq<AV>) {
    if semester.holds_active(course) && !disk.has_dir(semester.path.name) {
        (disk, Err(PersistenceError::Unwritable), Seq::empty())
    } else {
        let cleared = if semester.holds_active(course) {
            disk.with_active_course(semester.path.name, None)
        } else {
            disk
        };
        let written = if semester.holds_active(course) {
            seq![AV::WriteSemesterFile { semester: semester.path.name, active: None }]
        } else {
            Seq::empty()
        };
        if cleared.has_course_dir(course.semester, course.name) {
            (
                cleared.without_course(course.semester, course.name),
                Ok(()),
                written.push(AV::RemoveCourseDir { semester: course.semester, name: course.name }),
            )
        } else {
            (cleared, Err(PersistenceError::Unwritable), written)
        }
    }
}

/// The image after a course of a semester was given the name `to`, the
/// course under its new name, or why there is none, and the changes that
/// were made.
pub open spec fn after_move_course(
    disk: DiskView,
    semester: SemesterView,
    course: CoursePathView,
    to: Seq<char>,
) -> (DiskView, Result<CourseView, Error>, Seq<AV>) {
    let renaming = AV::RenameCourseDir { semester: semester.path.name, from: course.name, to: to };
    match disk.rename_course_outcome(semester.path.name, course.name, to) {
        Err(e) => (disk, Err(Error::Path(e)), Seq::empty()),
        Ok(()) => {
            let renamed = disk.with_course_renamed(semester.path.name, course.name, to);
            if !renamed.has_course_dir(semester.path.name, to) {
                (renamed, Err(Error::Path(PathError::NotADirectory)), seq![renaming])
            } else {
                match load_course(renamed, semester.path.child(to)) {
                    Err(e) => (renamed, Err(Error::Persistence(e)), seq![renaming]),
                    Ok(moved) => if semester.holds_active(course) {
                        (
                            renamed.with_active_course(semester.path.name, Some(to)),
                            Ok(moved),
                            seq![
                                renaming,
                                AV::WriteSemesterFile {
                                    semester: semester.path.name,
                                    active: Some(to),
                                },
                            ],
                        )
                    } else {
                        (renamed, Ok(moved), seq![renaming])
                    },
                }
            }
        },
    }
}

/// The active course of a semester, loaded.
pub open spec fn active_course_of(disk: DiskView, semester: SemesterView) -> Option<CourseView> {
    match semester.active_course {
        Some(path) => match load_course(disk, path) {
            Ok(course) => Some(course),
            Err(_) => None,
        },
        None => None,
    }
}

/// The course `name` of the semester at `path`, loaded.
pub open spec fn course_of(disk: DiskView, path: SemesterPathView, name: Seq<char>) -> Option<
    CourseView,
> {
    if disk.has_course_dir(path.name, name) {
        match load_course(disk, path.child(name)) {
            Ok(course) => Some(course),
            Err(_) => None,
        }
    } else {
        None
    }
}

/// What asking for the course `name` of the semester at `path` gives:
/// something of that name must lie in the directory of the semester, and the
/// course must load.
pub open spec fn get_course_of(disk: DiskView, path: SemesterPathView, name: Seq<char>) -> Result<
    CourseView,
    Error,
> {
    if !(disk.has_dir(path.name) && disk.semester(path.name).contains(name)) {
        Err(Error::Reference(ReferenceError::NotFound(Segment::Course)))
    } else {
        match load_course(disk, path.child(name)) {
            Ok(course) => Ok(course),
            Err(e) => Err(Error::Persistence(e)),
        }
    }
}

/// The courses of the semester at `path` that load, in the order of a
/// dictionary by the names of their directories.
pub open spec fn courses_of(disk: DiskView, path: SemesterPathView) -> Seq<CourseView> {
    loaded_courses(disk, path.children(sorted_texts(disk.course_dir_names(path.name))))
}

} // verus!
