//! Handles for the places of the hierarchy: the entry point, the directory of
//! a semester and of a course, their sidecar files, and the mirrors.

use crate::cycle::StudyCycle;
use crate::disk::{Disk, Kind};
use crate::error::{ConfigError, PathError, PersistenceError};
use crate::image::{CourseDO, DiskView, LinkState, LinkView, SemesterDO, Slot, Stored, StoreDO};
use crate::journal::{ActionView, FileKey, Notes};
use crate::names::{format_name, format_name_spec, SemesterNames};
use crate::text::{copy_opt_text, join_path, join_spec, opt_text, sort_texts, sorted_texts};
use vstd::prelude::*;
use vstd::string::*;

verus! {

/// The entry point: the directory that holds the semesters.
#[derive(Debug)]
pub struct EntryPoint {
    path: String,
}

/// The store's sidecar file.
#[derive(Debug)]
pub struct StoreDataFile {
    path: String,
}

/// The directory of a semester.
#[derive(Debug)]
pub struct SemesterPath {
    path: String,
    name: String,
}

/// The sidecar file of a semester.
#[derive(Debug)]
pub struct SemesterDataFile {
    path: String,
    semester: String,
}

/// The directory of a course.
#[derive(Debug)]
pub struct CoursePath {
    path: String,
    semester: String,
    name: String,
}

/// The sidecar file of a course.
#[derive(Debug)]
pub struct CourseDataFile {
    path: String,
    semester: String,
    course: String,
}

/// A mirror: a path that may hold a symlink to the active semester or
/// course, or no path at all.
#[derive(Debug)]
pub struct MaybeSymLinkable {
    path: Option<String>,
    slot: Slot,
}

/// The directory of a semester in contracts: its path and its name.
pub struct SemesterPathView {
    pub path: Seq<char>,
    pub name: Seq<char>,
}

/// The directory of a course in contracts: its path, the name of its
/// semester and its own name.
pub struct CoursePathView {
    pub path: Seq<char>,
    pub semester: Seq<char>,
    pub name: Seq<char>,
}

/// A mirror in contracts: its path, if it has one, and which of the two it is.
pub struct MirrorView {
    pub path: Option<Seq<char>>,
    pub slot: Slot,
}

/// The name of the sidecar file of the store and of a semester.
pub open spec fn pointer_file_name() -> Seq<char> {
    ".mm"@
}

/// The name of the sidecar file of a course.
pub open spec fn course_file_name() -> Seq<char> {
    "course.toml"@
}

/// The directory of the semester `name` below the entry point at `base`.
pub open spec fn semester_path_of(base: Seq<char>, name: Seq<char>) -> SemesterPathView {
    SemesterPathView { path: join_spec(base, name), name: name }
}

impl SemesterPathView {
    /// The directory of the course `name` in this semester.
    pub open spec fn child(self, name: Seq<char>) -> CoursePathView {
        CoursePathView { path: join_spec(self.path, name), semester: self.name, name: name }
    }

    /// The directories of the courses with these names in this semester.
    pub open spec fn children(self, names: Seq<Seq<char>>) -> Seq<CoursePathView> {
        Seq::new(names.len(), |i: int| self.child(names[i]))
    }
}

impl View for EntryPoint {
    type V = Seq<char>;

    closed spec fn view(&self) -> Seq<char> {
        self.path@
    }
}

impl View for StoreDataFile {
    type V = Seq<char>;

    closed spec fn view(&self) -> Seq<char> {
        self.path@
    }
}

impl View for SemesterPath {
    type V = SemesterPathView;

    closed spec fn view(&self) -> SemesterPathView {
        SemesterPathView { path: self.path@, name: self.name@ }
    }
}

impl View for SemesterDataFile {
    type V = SemesterPathView;

    closed spec fn view(&self) -> SemesterPathView {
        SemesterPathView { path: self.path@, name: self.semester@ }
    }
}

impl View for CoursePath {
    type V = CoursePathView;

    closed spec fn view(&self) -> CoursePathView {
        CoursePathView { path: self.path@, semester: self.semester@, name: self.name@ }
    }
}

impl View for CourseDataFile {
    type V = CoursePathView;

    closed spec fn view(&self) -> CoursePathView {
        CoursePathView { path: self.path@, semester: self.semester@, name: self.course@ }
    }
}

impl View for MaybeSymLinkable {
    type V = MirrorView;

    closed spec fn view(&self) -> MirrorView {
        MirrorView { path: opt_text(self.path), slot: self.slot }
    }
}

/// The views of a list of semester directories.
pub open spec fn semester_path_views(paths: Seq<SemesterPath>) -> Seq<SemesterPathView> {
    paths.map_values(|p: SemesterPath| p@)
}

/// The views of a list of course directories.
pub open spec fn course_path_views(paths: Seq<CoursePath>) -> Seq<CoursePathView> {
    paths.map_values(|p: CoursePath| p@)
}

/// What making a sidecar file gives, where `possible` says whether its directory is there.
pub open spec fn touch_outcome(possible: bool) -> Result<(), PersistenceError> {
    if possible {
        Ok(())
    } else {
        Err(PersistenceError::Unwritable)
    }
}

impl EntryPoint {
    /// What taking `path` as the entry point gives: it must be the directory
    /// that the image shows.
    pub open spec fn new_outcome(path: Seq<char>, disk: DiskView) -> Result<Seq<char>, PathError> {
        if disk.root == path && disk.is_dir {
            Ok(path)
        } else {
            Err(PathError::NotADirectory)
        }
    }

    /// Takes `path` as the entry point. Fails unless it exists and is a directory.
    pub fn new(path: &str, disk: &Disk) -> (r: Result<EntryPoint, PathError>)
        ensures
            match r {
                Ok(entry) => Self::new_outcome(path@, disk@) == Ok::<Seq<char>, PathError>(entry@),
                Err(e) => Self::new_outcome(path@, disk@) == Err::<Seq<char>, PathError>(e),
            },
    {
        Self::from_path(path, disk)
    }

    /// Takes `path` as the entry point. Fails unless it exists and is a directory.
    pub fn from_path(path: &str, disk: &Disk) -> (r: Result<EntryPoint, PathError>)
        ensures
            match r {
                Ok(entry) => Self::new_outcome(path@, disk@) == Ok::<Seq<char>, PathError>(entry@),
                Err(e) => Self::new_outcome(path@, disk@) == Err::<Seq<char>, PathError>(e),
            },
    {
        if crate::text::same_text(disk.root().as_str(), path) && disk.root_is_dir() {
            Ok(EntryPoint { path: path.to_owned() })
        } else {
            Err(PathError::NotADirectory)
        }
    }

    /// The path of the entry point.
    pub fn path(&self) -> (r: &String)
        ensures
            r@ == self@,
    {
        &self.path
    }

    /// A copy of the handle.
    pub fn copy(&self) -> (r: EntryPoint)
        ensures
            r@ == self@,
    {
        EntryPoint { path: self.path.clone() }
    }

    /// The store's sidecar file; an empty one is made where there is none.
    pub fn data_file(&self, disk: &mut Disk) -> (r: Result<StoreDataFile, PersistenceError>)
        requires
            old(disk).wf(),
        ensures
            final(disk).wf(),
            final(disk).only_made_files(*old(disk)),
            final(disk)@ == old(disk)@,
            match r {
                Ok(file) => old(disk)@.is_dir && final(disk).has_store_file() && file@ == join_spec(
                    self@,
                    pointer_file_name(),
                ),
                Err(e) => !old(disk)@.is_dir && e == PersistenceError::Unwritable,
            },
            final(disk).pending() == (if r.is_ok() && !old(disk).has_store_file() {
                old(disk).pending().push(ActionView::CreateStoreFile)
            } else {
                old(disk).pending()
            }),
            final(disk).notes() == old(disk).notes().touch_store(old(disk)@.is_dir),
    {
        match disk.touch_store_file() {
            Ok(()) => Ok(StoreDataFile { path: join_path(self.path.as_str(), ".mm") }),
            Err(e) => Err(e),
        }
    }

    /// The directory of the semester `name`: there is one where the policy
    /// takes the name and a directory of that name lies below the entry
    /// point; the name is then one normal part of a path.
    pub fn semester_path(&self, name: &str, semester_names: &SemesterNames, disk: &Disk) -> (r:
        Option<SemesterPath>)
        requires
            disk.wf(),
        ensures
            r.is_some() == (semester_names.is_name_spec(name@) && disk@.has_dir(name@)),
            r matches Some(path) ==> path@ == semester_path_of(self@, name@),
            r.is_some() ==> crate::text::is_dir_name(name@),
    {
        proof {
            disk@.lemma_entries_named(name@, name@);
        }
        if semester_names.is_name(name) {
            if let Kind::Directory = disk.semester_kind(name) {
                return Some(
                    SemesterPath { path: join_path(self.path.as_str(), name), name: name.to_owned() },
                );
            }
        }
        None
    }

    /// Makes the directory of the semester with this number and cycle, under
    /// its canonical name. Fails, and changes nothing, where the name is taken.
    pub fn create_semester_path(
        &self,
        disk: &mut Disk,
        semester_number: u16,
        study_cycle: StudyCycle,
    ) -> (r: Result<SemesterPath, PathError>)
        requires
            old(disk).wf(),
        ensures
            final(disk).wf(),
            final(disk).follows(*old(disk)),
            final(disk).changes() == (if r.is_ok() {
                old(disk).changes().push(ActionView::CreateSemesterDir {
                    name: format_name_spec(study_cycle, semester_number),
                })
            } else {
                old(disk).changes()
            }),
            match r {
                Ok(path) => {
                    &&& old(disk)@.create_outcome(format_name_spec(study_cycle, semester_number))
                        is Ok
                    &&& path@ == semester_path_of(
                        self@,
                        format_name_spec(study_cycle, semester_number),
                    )
                    &&& final(disk)@ == old(disk)@.with_semester(
                        format_name_spec(study_cycle, semester_number),
                    )
                    &&& final(disk).pending() == old(disk).pending().push(
                        ActionView::CreateSemesterDir {
                            name: format_name_spec(study_cycle, semester_number),
                        },
                    )
                },
                Err(e) => {
                    &&& old(disk)@.create_outcome(format_name_spec(study_cycle, semester_number))
                        == Err::<(), PathError>(e)
                    &&& final(disk)@ == old(disk)@
                    &&& final(disk).pending() == old(disk).pending()
                },
            },
            r.is_ok() ==> !final(disk).has_semester_file(
                format_name_spec(study_cycle, semester_number),
            ),
            final(disk).notes() == (if r.is_ok() {
                old(disk).notes().noting(
                    ActionView::CreateSemesterDir {
                        name: format_name_spec(study_cycle, semester_number),
                    },
                )
            } else {
                old(disk).notes()
            }),
    {
        let name = format_name(study_cycle, semester_number);
        match disk.create_semester_dir(name.as_str()) {
            Ok(()) => Ok(SemesterPath { path: join_path(self.path.as_str(), name.as_str()), name }),
            Err(e) => Err(e),
        }
    }

    /// The directories below the entry point whose names the policy takes,
    /// in the order of the image.
    pub fn semester_paths(&self, semester_names: &SemesterNames, disk: &Disk) -> (r: Vec<
        SemesterPath,
    >)
        ensures
            semester_path_views(r@) == disk@.dir_names().filter(semester_names.accepts()).map_values(
                |name: Seq<char>| semester_path_of(self@, name),
            ),
    {
        let dirs = disk.semester_dirs();
        let mut out: Vec<SemesterPath> = Vec::new();
        let ghost make = |name: Seq<char>| semester_path_of(self@, name);
        let ghost keep = semester_names.accepts();
        let mut i: usize = 0;
        while i < dirs.len()
            invariant
                i <= dirs@.len(),
                make == (|name: Seq<char>| semester_path_of(self@, name)),
                keep == semester_names.accepts(),
                semester_path_views(out@) == dirs.deep_view().take(i as int).filter(
                    keep,
                ).map_values(make),
            decreases dirs@.len() - i,
        {
            let ghost seen = dirs.deep_view().take(i as int);
            proof {
                assert(dirs.deep_view().take(i + 1) =~= seen.push(dirs@[i as int]@));
                seen.lemma_filter_push(dirs@[i as int]@, keep);
            }
            if semester_names.is_name(dirs[i].as_str()) {
                let path = SemesterPath {
                    path: join_path(self.path.as_str(), dirs[i].as_str()),
                    name: dirs[i].clone(),
                };
                out.push(path);
                proof {
                    seen.filter(keep).lemma_push_map_commute(make, dirs@[i as int]@);
                }
            }
            i += 1;
        }
        proof {
            assert(dirs.deep_view().take(i as int) =~= dirs.deep_view());
        }
        out
    }
}

impl StoreDataFile {
    /// The path of the file.
    pub fn path(&self) -> (r: &String)
        ensures
            r@ == self@,
    {
        &self.path
    }

    /// Reads the file. Fails where it is not there or cannot be understood.
    pub fn read(&self, disk: &Disk) -> (r: Result<StoreDO, PersistenceError>)
        ensures
            match r {
                Ok(data) => disk.has_store_file() && disk@.active == Stored::Holds(
                    opt_text(data.active_semester),
                ),
                Err(e) => e == PersistenceError::Unreadable && (!disk.has_store_file()
                    || disk@.active is Corrupt),
            },
    {
        match disk.read_store_file() {
            Ok(active_semester) => Ok(StoreDO { active_semester }),
            Err(e) => Err(e),
        }
    }

    /// Writes the file. Fails where the entry point is no directory.
    pub fn write(&self, disk: &mut Disk, object: &StoreDO) -> (r: Result<(), PersistenceError>)
        requires
            old(disk).wf(),
        ensures
            final(disk).wf(),
            final(disk).follows(*old(disk)),
            final(disk).changes() == (if r.is_ok() {
                old(disk).changes().push(ActionView::WriteStoreFile { active: opt_text(object.active_semester) })
            } else {
                old(disk).changes()
            }),
            r == touch_outcome(old(disk)@.is_dir),
            r.is_ok() ==> final(disk)@ == old(disk)@.with_active(opt_text(object.active_semester))
                && final(disk).has_store_file() && final(disk).pending() == old(disk).pending().push(
                ActionView::WriteStoreFile { active: opt_text(object.active_semester) },
            ),
            r.is_err() ==> final(disk)@ == old(disk)@ && final(disk).pending() == old(disk).pending(),
            final(disk).notes() == (if r.is_ok() {
                old(disk).notes().write(
                    FileKey::Store,
                    ActionView::WriteStoreFile { active: opt_text(object.active_semester) },
                )
            } else {
                old(disk).notes()
            }),
    {
        disk.write_store_file(copy_opt_text(&object.active_semester))
    }
}

impl SemesterPath {
    /// The name of the directory.
    pub fn name(&self) -> (r: &str)
        ensures
            r@ == self@.name,
    {
        self.name.as_str()
    }

    /// The path of the directory.
    pub fn path(&self) -> (r: &String)
        ensures
            r@ == self@.path,
    {
        &self.path
    }

    /// A copy of the handle.
    pub fn copy(&self) -> (r: SemesterPath)
        ensures
            r@ == self@,
    {
        SemesterPath { path: self.path.clone(), name: self.name.clone() }
    }

    /// The sidecar file of the semester; an empty one is made where there is none.
    pub fn data_file(&self, disk: &mut Disk) -> (r: Result<SemesterDataFile, PersistenceError>)
        requires
            old(disk).wf(),
        ensures
            final(disk).wf(),
            final(disk).only_made_files(*old(disk)),
            final(disk)@ == old(disk)@,
            match r {
                Ok(file) => old(disk)@.has_dir(self@.name) && final(disk).has_semester_file(
                    self@.name,
                ) && file@ == (SemesterPathView {
                    path: join_spec(self@.path, pointer_file_name()),
                    name: self@.name,
                }),
                Err(e) => !old(disk)@.has_dir(self@.name) && e == PersistenceError::Unwritable,
            },
            final(disk).pending() == (if r.is_ok() && !old(disk).has_semester_file(self@.name) {
                old(disk).pending().push(ActionView::CreateSemesterFile { semester: self@.name })
            } else {
                old(disk).pending()
            }),
            final(disk).notes() == old(disk).notes().touch_semester(
                old(disk)@.has_dir(self@.name),
                self@.name,
            ),
    {
        match disk.touch_semester_file(self.name.as_str()) {
            Ok(()) => Ok(
                SemesterDataFile {
                    path: join_path(self.path.as_str(), ".mm"),
                    semester: self.name.clone(),
                },
            ),
            Err(e) => Err(e),
        }
    }

    /// The directories of the courses of the semester, in the order of a
    /// dictionary by their names.
    pub fn course_paths(&self, disk: &Disk) -> (r: Vec<CoursePath>)
        ensures
            course_path_views(r@) == self@.children(sorted_texts(disk@.course_dir_names(self@.name))),
    {
        let names = sort_texts(disk.course_dirs(self.name.as_str()));
        let mut out: Vec<CoursePath> = Vec::new();
        let mut i: usize = 0;
        while i < names.len()
            invariant
                i <= names@.len(),
                out@.len() == i,
                forall|k: int| 0 <= k < i ==> (#[trigger] out@[k])@ == self@.child(names@[k]@),
            decreases names@.len() - i,
        {
            out.push(
                CoursePath {
                    path: join_path(self.path.as_str(), names[i].as_str()),
                    semester: self.name.clone(),
                    name: names[i].clone(),
                },
            );
            i += 1;
        }
        out
    }

    /// The directory of the course `name`, where the semester has a
    /// directory of that name; the name is then one normal part of a path.
    pub fn course_path(&self, name: &str, disk: &Disk) -> (r: Option<CoursePath>)
        requires
            disk.wf(),
        ensures
            r.is_some() == disk@.has_course_dir(self@.name, name@),
            r matches Some(path) ==> path@ == self@.child(name@),
            r.is_some() ==> crate::text::is_dir_name(name@),
    {
        proof {
            disk@.lemma_entries_named(self@.name, name@);
        }
        if let Kind::Directory = disk.course_kind(self.name.as_str(), name) {
            Some(
                CoursePath {
                    path: join_path(self.path.as_str(), name),
                    semester: self.name.clone(),
                    name: name.to_owned(),
                },
            )
        } else {
            None
        }
    }

    /// Removes the directory of the semester with all that it holds. Fails
    /// where there is no such directory.
    pub fn remove(self, disk: &mut Disk) -> (r: Result<(), PersistenceError>)
        requires
            old(disk).wf(),
        ensures
            final(disk).wf(),
            final(disk).follows(*old(disk)),
            final(disk).changes() == (if r.is_ok() {
                old(disk).changes().push(ActionView::RemoveSemesterDir { name: self@.name })
            } else {
                old(disk).changes()
            }),
            r == touch_outcome(old(disk)@.has_dir(self@.name)),
            r.is_ok() ==> final(disk)@ == old(disk)@.without_semester(self@.name) && final(disk).pending() == old(disk).pending().push(
                ActionView::RemoveSemesterDir { name: self@.name },
            ),
            r.is_err() ==> final(disk)@ == old(disk)@ && final(disk).pending() == old(disk).pending(),
            final(disk).notes() == (if r.is_ok() {
                old(disk).notes().remove_semester(self@.name)
            } else {
                old(disk).notes()
            }),
    {
        disk.remove_semester_dir(self.name.as_str())
    }

    /// Makes the directory of a course named `name`. Fails, and changes
    /// nothing, where the name is taken.
    pub fn create_course_path(&self, disk: &mut Disk, name: &str) -> (r: Result<
        CoursePath,
        PathError,
    >)
        requires
            old(disk).wf(),
        ensures
            final(disk).wf(),
            final(disk).follows(*old(disk)),
            final(disk).changes() == (if r.is_ok() {
                old(disk).changes().push(ActionView::CreateCourseDir { semester: self@.name, name: name@ })
            } else {
                old(disk).changes()
            }),
            match r {
                Ok(path) => {
                    &&& old(disk)@.create_course_outcome(self@.name, name@) is Ok
                    &&& path@ == self@.child(name@)
                    &&& final(disk)@ == old(disk)@.with_course(self@.name, name@)
                    &&& final(disk).pending() == old(disk).pending().push(
                        ActionView::CreateCourseDir { semester: self@.name, name: name@ },
                    )
                },
                Err(e) => {
                    &&& old(disk)@.create_course_outcome(self@.name, name@) == Err::<
                        (),
                        PathError,
                    >(e)
                    &&& final(disk)@ == old(disk)@
                    &&& final(disk).pending() == old(disk).pending()
                },
            },
            r.is_ok() ==> !final(disk).has_course_file(self@.name, name@),
            final(disk).notes() == (if r.is_ok() {
                old(disk).notes().noting(
                    ActionView::CreateCourseDir { semester: self@.name, name: name@ },
                )
            } else {
                old(disk).notes()
            }),
    {
        match disk.create_course_dir(self.name.as_str(), name) {
            Ok(()) => Ok(
                CoursePath {
                    path: join_path(self.path.as_str(), name),
                    semester: self.name.clone(),
                    name: name.to_owned(),
                },
            ),
            Err(e) => Err(e),
        }
    }
}

impl SemesterDataFile {
    /// The path of the file.
    pub fn path(&self) -> (r: &String)
        ensures
            r@ == self@.path,
    {
        &self.path
    }

    /// Reads the file. Fails where it is not there or cannot be understood.
    pub fn read(&self, disk: &Disk) -> (r: Result<SemesterDO, PersistenceError>)
        ensures
            match r {
                Ok(data) => disk.has_semester_file(self@.name) && disk@.semester(
                    self@.name,
                ).active == Stored::Holds(opt_text(data.active_course)),
                Err(e) => e == PersistenceError::Unreadable && (!disk.has_semester_file(
                    self@.name,
                ) || disk@.semester(self@.name).active is Corrupt),
            },
    {
        match disk.read_semester_file(self.semester.as_str()) {
            Ok(active_course) => Ok(SemesterDO { active_course }),
            Err(e) => Err(e),
        }
    }

    /// Writes the file. Fails where the directory of the semester is not there.
    pub fn write(&self, disk: &mut Disk, object: &SemesterDO) -> (r: Result<(), PersistenceError>)
        requires
            old(disk).wf(),
        ensures
            final(disk).wf(),
            final(disk).follows(*old(disk)),
            final(disk).changes() == (if r.is_ok() {
                old(disk).changes().push(ActionView::WriteSemesterFile {
                    semester: self@.name,
                    active: opt_text(object.active_course),
                })
            } else {
                old(disk).changes()
            }),
            r == touch_outcome(old(disk)@.has_dir(self@.name)),
            r.is_ok() ==> final(disk)@ == old(disk)@.with_active_course(
                self@.name,
                opt_text(object.active_course),
            ) && final(disk).has_semester_file(self@.name) && final(disk).pending() == old(disk).pending().push(
                ActionView::WriteSemesterFile {
                    semester: self@.name,
                    active: opt_text(object.active_course),
                },
            ),
            r.is_err() ==> final(disk)@ == old(disk)@ && final(disk).pending() == old(disk).pending(),
            final(disk).notes() == (if r.is_ok() {
                old(disk).notes().write(
                    FileKey::Semester(self@.name),
                    ActionView::WriteSemesterFile {
                        semester: self@.name,
                        active: opt_text(object.active_course),
                    },
                )
            } else {
                old(disk).notes()
            }),
    {
        disk.write_semester_file(self.semester.as_str(), copy_opt_text(&object.active_course))
    }
}

impl CoursePath {
    /// The name of the directory.
    pub fn name(&self) -> (r: &str)
        ensures
            r@ == self@.name,
    {
        self.name.as_str()
    }

    /// The name of the semester that the course belongs to.
    pub fn semester(&self) -> (r: &str)
        ensures
            r@ == self@.semester,
    {
        self.semester.as_str()
    }

    /// The path of the directory.
    pub fn path(&self) -> (r: &String)
        ensures
            r@ == self@.path,
    {
        &self.path
    }

    /// A copy of the handle.
    pub fn copy(&self) -> (r: CoursePath)
        ensures
            r@ == self@,
    {
        CoursePath {
            path: self.path.clone(),
            semester: self.semester.clone(),
            name: self.name.clone(),
        }
    }

    /// The sidecar file of the course; one without data is made where there is none.
    pub fn data_file(&self, disk: &mut Disk) -> (r: Result<CourseDataFile, PersistenceError>)
        requires
            old(disk).wf(),
        ensures
            final(disk).wf(),
            final(disk).only_made_files(*old(disk)),
            final(disk)@ == old(disk)@,
            match r {
                Ok(file) => old(disk)@.has_course_dir(self@.semester, self@.name) && final(disk).has_course_file(self@.semester, self@.name) && file@ == (CoursePathView {
                    path: join_spec(self@.path, course_file_name()),
                    semester: self@.semester,
                    name: self@.name,
                }),
                Err(e) => !old(disk)@.has_course_dir(self@.semester, self@.name) && e
                    == PersistenceError::Unwritable,
            },
            final(disk).pending() == (if r.is_ok() && !old(disk).has_course_file(
                self@.semester,
                self@.name,
            ) {
                old(disk).pending().push(
                    ActionView::CreateCourseFile { semester: self@.semester, course: self@.name },
                )
            } else {
                old(disk).pending()
            }),
            final(disk).notes() == old(disk).notes().touch_course(
                old(disk)@.has_course_dir(self@.semester, self@.name),
                self@.semester,
                self@.name,
            ),
    {
        match disk.touch_course_file(self.semester.as_str(), self.name.as_str()) {
            Ok(()) => Ok(
                CourseDataFile {
                    path: join_path(self.path.as_str(), "course.toml"),
                    semester: self.semester.clone(),
                    course: self.name.clone(),
                },
            ),
            Err(e) => Err(e),
        }
    }

    /// Removes the directory of the course with all that it holds. Fails
    /// where there is no such directory.
    pub fn remove(self, disk: &mut Disk) -> (r: Result<(), PersistenceError>)
        requires
            old(disk).wf(),
        ensures
            final(disk).wf(),
            final(disk).follows(*old(disk)),
            final(disk).changes() == (if r.is_ok() {
                old(disk).changes().push(ActionView::RemoveCourseDir { semester: self@.semester, name: self@.name })
            } else {
                old(disk).changes()
            }),
            r == touch_outcome(old(disk)@.has_course_dir(self@.semester, self@.name)),
            r.is_ok() ==> final(disk)@ == old(disk)@.without_course(self@.semester, self@.name)
                && final(disk).pending() == old(disk).pending().push(
                ActionView::RemoveCourseDir { semester: self@.semester, name: self@.name },
            ),
            r.is_err() ==> final(disk)@ == old(disk)@ && final(disk).pending() == old(disk).pending(),
            final(disk).notes() == (if r.is_ok() {
                old(disk).notes().remove_course(self@.semester, self@.name)
            } else {
                old(disk).notes()
            }),
    {
        disk.remove_course_dir(self.semester.as_str(), self.name.as_str())
    }
}

impl CourseDataFile {
    /// The path of the file.
    pub fn path(&self) -> (r: &String)
        ensures
            r@ == self@.path,
    {
        &self.path
    }

    /// Reads the file. Fails where it is not there or cannot be understood.
    pub fn read(&self, disk: &Disk) -> (r: Result<CourseDO, PersistenceError>)
        ensures
            match r {
                Ok(data) => disk.has_course_file(self@.semester, self@.name) && disk@.semester(
                    self@.semester,
                ).course(self@.name).data == Stored::Holds(data@),
                Err(e) => e == PersistenceError::Unreadable && (!disk.has_course_file(
                    self@.semester,
                    self@.name,
                ) || disk@.semester(self@.semester).course(self@.name).data is Corrupt),
            },
    {
        disk.read_course_file(self.semester.as_str(), self.course.as_str())
    }
}

impl MaybeSymLinkable {
    /// What binding a mirror to `path` gives: where a path is given, what
    /// lies there must be a symlink, or nothing.
    pub open spec fn new_outcome(path: Option<Seq<char>>, slot: Slot, disk: DiskView) -> Result<
        MirrorView,
        ConfigError,
    > {
        if path.is_some() && disk.link(slot) is Other {
            Err(ConfigError::NotASymlink)
        } else {
            Ok(MirrorView { path: path, slot: slot })
        }
    }

    /// Binds a mirror to an optional path.
    pub fn new(path: Option<String>, slot: Slot, disk: &Disk) -> (r: Result<
        MaybeSymLinkable,
        ConfigError,
    >)
        ensures
            match r {
                Ok(mirror) => Self::new_outcome(opt_text(path), slot, disk@) == Ok::<
                    MirrorView,
                    ConfigError,
                >(mirror@),
                Err(e) => Self::new_outcome(opt_text(path), slot, disk@) == Err::<
                    MirrorView,
                    ConfigError,
                >(e),
            },
    {
        if path.is_some() {
            if let LinkState::Other = disk.link_state(slot) {
                return Err(ConfigError::NotASymlink);
            }
        }
        Ok(MaybeSymLinkable { path, slot })
    }

    /// A copy of the mirror.
    pub fn copy(&self) -> (r: MaybeSymLinkable)
        ensures
            r@ == self@,
    {
        MaybeSymLinkable { path: copy_opt_text(&self.path), slot: self.slot }
    }

    /// The image after the mirror was pointed at `target`.
    pub open spec fn linked(mirror: MirrorView, disk: DiskView, target: Seq<char>) -> DiskView {
        if mirror.path.is_some() && !(disk.link(mirror.slot) is Other) {
            disk.with_link(mirror.slot, LinkView::Link(target))
        } else {
            disk
        }
    }

    /// The image after the mirror's symlink was removed.
    pub open spec fn unlinked(mirror: MirrorView, disk: DiskView) -> DiskView {
        if mirror.path.is_some() && disk.link(mirror.slot) is Link {
            disk.with_link(mirror.slot, LinkView::Absent)
        } else {
            disk
        }
    }

    /// The changes that removing the mirror's symlink makes: the removal,
    /// where a symlink is there.
    pub open spec fn unlink_changes(mirror: MirrorView, disk: DiskView) -> Seq<ActionView> {
        if mirror.path.is_some() && disk.link(mirror.slot) is Link {
            seq![ActionView::Unlink { slot: mirror.slot }]
        } else {
            Seq::empty()
        }
    }

    /// The changes that pointing the mirror at `target` makes: the removal
    /// of a symlink that is there, then the new symlink; none where the
    /// mirror has no path or something that is no symlink is in the way.
    pub open spec fn link_changes(mirror: MirrorView, disk: DiskView, target: Seq<char>) -> Seq<
        ActionView,
    > {
        if mirror.path.is_some() && !(disk.link(mirror.slot) is Other) {
            Self::unlink_changes(mirror, disk).push(
                ActionView::Link { slot: mirror.slot, target: target },
            )
        } else {
            Seq::empty()
        }
    }

    /// The notes after the mirror's symlink was removed: the removal is
    /// noted where a symlink was there.
    pub open spec fn unlink_noted(mirror: MirrorView, disk: DiskView, notes: Notes) -> Notes {
        if mirror.path.is_some() && disk.link(mirror.slot) is Link {
            notes.noting(ActionView::Unlink { slot: mirror.slot })
        } else {
            notes
        }
    }

    /// The notes after the mirror was pointed at `target`: the removal of a
    /// symlink that was there, then the new symlink.
    pub open spec fn link_noted(
        mirror: MirrorView,
        disk: DiskView,
        notes: Notes,
        target: Seq<char>,
    ) -> Notes {
        if mirror.path.is_some() && !(disk.link(mirror.slot) is Other) {
            Self::unlink_noted(mirror, disk, notes).noting(
                ActionView::Link { slot: mirror.slot, target: target },
            )
        } else {
            notes
        }
    }

    /// Points the mirror at `target`: a symlink that is there is removed,
    /// and a new one is made. Nothing is done where the mirror has no path.
    /// Fails where something that is no symlink lies at the path.
    pub fn link_from(&self, disk: &mut Disk, target: &str) -> (r: Result<(), PersistenceError>)
        requires
            old(disk).wf(),
        ensures
            final(disk).wf(),
            final(disk).follows(*old(disk)),
            final(disk).changes() =~= old(disk).changes() + Self::link_changes(
                self@,
                old(disk)@,
                target@,
            ),
            final(disk)@ == Self::linked(self@, old(disk)@, target@),
            final(disk).notes() == Self::link_noted(self@, old(disk)@, old(disk).notes(), target@),
            r == touch_outcome(!(self@.path.is_some() && old(disk)@.link(self@.slot) is Other)),
    {
        let _ = self.remove_link(disk);
        if self.path.is_some() {
            disk.make_link(self.slot, target)
        } else {
            Ok(())
        }
    }

    /// Removes the mirror's symlink if one is there.
    pub fn remove_link(&self, disk: &mut Disk) -> (r: Result<(), PersistenceError>)
        requires
            old(disk).wf(),
        ensures
            final(disk).wf(),
            final(disk).follows(*old(disk)),
            final(disk).changes() =~= old(disk).changes() + Self::unlink_changes(self@, old(disk)@),
            final(disk)@ == Self::unlinked(self@, old(disk)@),
            final(disk).notes() == Self::unlink_noted(self@, old(disk)@, old(disk).notes()),
            r == Ok::<(), PersistenceError>(()),
    {
        if self.path.is_some() {
            disk.drop_link(self.slot);
        }
        Ok(())
    }
}

/// Pointing a mirror at a target a second time changes nothing, and neither
/// does removing its symlink a second time.
pub proof fn lemma_mirror_idempotent(mirror: MirrorView, disk: DiskView, target: Seq<char>)
    ensures
        MaybeSymLinkable::linked(mirror, MaybeSymLinkable::linked(mirror, disk, target), target)
            == MaybeSymLinkable::linked(mirror, disk, target),
        MaybeSymLinkable::unlinked(mirror, MaybeSymLinkable::unlinked(mirror, disk))
            == MaybeSymLinkable::unlinked(mirror, disk),
{
}

} // verus!
