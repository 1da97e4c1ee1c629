//! The store: the entry point, the naming policy, the two mirrors and the
//! active semester. It lists and finds semesters and courses, and changes
//! what is active.

use crate::course::{course_list_views, Course, CourseView};
use crate::config::Config;
use crate::cycle::StudyCycle;
use crate::disk::{Disk, Kind};
use crate::error::{Error, PersistenceError};
use crate::image::{DiskView, Stored};
use crate::journal::ActionView as AV;
use crate::journal::{FileKey, Notes};
use crate::names::{format_name_spec, SemesterNames};
use crate::paths::{semester_path_of, semester_path_views, touch_outcome};
use crate::paths::{EntryPoint, MaybeSymLinkable, MirrorView, SemesterPath, SemesterPathView};
use crate::image::StoreDO;
use crate::semester::{active_course_of, courses_of, load_semester, loaded_semesters};
use crate::semester::{opt_course, opt_name_of, opt_path_of, semester_list_views};
use crate::semester::{Semester, SemesterView};
use crate::text::same_text;
use vstd::prelude::*;
use vstd::string::*;

verus! {

/// The store.
#[derive(Debug)]
pub struct Store {
    active_semester: Option<SemesterPath>,
    entry_point: EntryPoint,
    semester_names: SemesterNames,
    current_semester_link: MaybeSymLinkable,
    current_course_link: MaybeSymLinkable,
}

/// The store in contracts: the active semester, the path of the entry point
/// and the two mirrors.
pub struct StoreState {
    pub active: Option<SemesterPathView>,
    pub entry: Seq<char>,
    pub semester_link: MirrorView,
    pub course_link: MirrorView,
}

/// The view of an optional semester directory.
pub open spec fn opt_semester_path(path: Option<SemesterPath>) -> Option<SemesterPathView> {
    match path {
        Some(p) => Some(p@),
        None => None,
    }
}

/// The view of an optional semester.
pub open spec fn opt_semester(semester: Option<Semester>) -> Option<SemesterView> {
    match semester {
        Some(s) => Some(s@),
        None => None,
    }
}

/// The directory of an optional semester.
pub open spec fn opt_semester_path_of(semester: Option<&Semester>) -> Option<SemesterPathView> {
    match semester {
        Some(s) => Some(s@.path),
        None => None,
    }
}

/// The name of an optional semester directory.
pub open spec fn opt_semester_name(path: Option<SemesterPathView>) -> Option<Seq<char>> {
    match path {
        Some(p) => Some(p.name),
        None => None,
    }
}

impl View for Store {
    type V = StoreState;

    closed spec fn view(&self) -> StoreState {
        StoreState {
            active: opt_semester_path(self.active_semester),
            entry: self.entry_point@,
            semester_link: self.current_semester_link@,
            course_link: self.current_course_link@,
        }
    }
}

/// The directory that a persisted name of an active semester stands for:
/// the policy must take the name, and the directory must still be there.
pub open spec fn resolve_semester(
    disk: DiskView,
    policy: SemesterNames,
    entry: Seq<char>,
    active: Option<Seq<char>>,
) -> Option<SemesterPathView> {
    match active {
        Some(name) => if policy.is_name_spec(name) && disk.has_dir(name) {
            Some(semester_path_of(entry, name))
        } else {
            None
        },
        None => None,
    }
}

/// The directories below the entry point that the policy takes for semesters.
pub open spec fn semester_paths_of(disk: DiskView, policy: SemesterNames, entry: Seq<char>) -> Seq<
    SemesterPathView,
> {
    disk.dir_names().filter(policy.accepts()).map_values(
        |name: Seq<char>| semester_path_of(entry, name),
    )
}

/// The semesters that load, in the order of the image.
pub open spec fn semesters_of(disk: DiskView, policy: SemesterNames, entry: Seq<char>) -> Seq<
    SemesterView,
> {
    loaded_semesters(disk, policy, semester_paths_of(disk, policy, entry))
}

/// The courses that load, of the semester directories at `paths`, semester by semester.
pub open spec fn courses_under(disk: DiskView, paths: Seq<SemesterPathView>) -> Seq<CourseView>
    decreases paths.len(),
{
    if paths.len() == 0 {
        Seq::empty()
    } else {
        courses_under(disk, paths.drop_last()) + courses_of(disk, paths.last())
    }
}

/// The semester named `name`, loaded.
pub open spec fn semester_named(
    disk: DiskView,
    policy: SemesterNames,
    entry: Seq<char>,
    name: Seq<char>,
) -> Option<SemesterView> {
    if policy.is_name_spec(name) && disk.has_dir(name) {
        match load_semester(disk, policy, semester_path_of(entry, name)) {
            Ok(semester) => Some(semester),
            Err(_) => None,
        }
    } else {
        None
    }
}

/// The semester that an active pointer stands for, loaded.
pub open spec fn current_semester_of(
    disk: DiskView,
    policy: SemesterNames,
    active: Option<SemesterPathView>,
) -> Option<SemesterView> {
    match active {
        Some(path) => match load_semester(disk, policy, path) {
            Ok(semester) => Some(semester),
            Err(_) => None,
        },
        None => None,
    }
}

/// The active course of the semester that an active pointer stands for, loaded.
pub open spec fn current_course_of(
    disk: DiskView,
    policy: SemesterNames,
    active: Option<SemesterPathView>,
) -> Option<CourseView> {
    match current_semester_of(disk, policy, active) {
        Some(semester) => active_course_of(disk, semester),
        None => None,
    }
}

/// What making a store gives: the entry point must be a directory and its
/// sidecar file must be understood; a persisted name that stands for no
/// semester any more is dropped.
pub open spec fn new_store(disk: DiskView, config: Config) -> Result<StoreState, Error> {
    if !disk.is_dir {
        Err(Error::Persistence(PersistenceError::Unwritable))
    } else {
        match disk.active {
            Stored::Corrupt => Err(Error::Persistence(PersistenceError::Unreadable)),
            Stored::Holds(active) => Ok(
                StoreState {
                    active: resolve_semester(disk, config.policy(), config.entry(), active),
                    entry: config.entry(),
                    semester_link: config.semester_mirror(),
                    course_link: config.course_mirror(),
                },
            ),
        }
    }
}

/// The image after the active semester was set, whether that went through,
/// and the changes that were made: the store's sidecar file is written, then
/// the semester's mirror is pointed at the directory, or both mirrors are
/// removed.
pub open spec fn after_set_semester(
    store: StoreState,
    disk: DiskView,
    semester: Option<SemesterPathView>,
) -> (DiskView, Result<(), PersistenceError>, Seq<AV>) {
    if !disk.is_dir {
        (disk, Err(PersistenceError::Unwritable), Seq::empty())
    } else {
        let written = disk.with_active(opt_semester_name(semester));
        let writing = seq![AV::WriteStoreFile { active: opt_semester_name(semester) }];
        match semester {
            Some(path) => (
                MaybeSymLinkable::linked(store.semester_link, written, path.path),
                touch_outcome(
                    !(store.semester_link.path.is_some() && written.link(store.semester_link.slot)
                        is Other),
                ),
                writing + MaybeSymLinkable::link_changes(store.semester_link, written, path.path),
            ),
            None => (
                MaybeSymLinkable::unlinked(
                    store.course_link,
                    MaybeSymLinkable::unlinked(store.semester_link, written),
                ),
                Ok(()),
                writing + MaybeSymLinkable::unlink_changes(store.semester_link, written)
                    + MaybeSymLinkable::unlink_changes(
                    store.course_link,
                    MaybeSymLinkable::unlinked(store.semester_link, written),
                ),
            ),
        }
    }
}

/// The image after the active course of the semester at `semester` was set,
/// whether that went through, and the changes that were made: the semester's
/// sidecar file is written, then the course's mirror is pointed at the
/// directory, or removed.
pub open spec fn after_set_course(
    store: StoreState,
    disk: DiskView,
    semester: SemesterPathView,
    course: Option<crate::paths::CoursePathView>,
) -> (DiskView, Result<(), PersistenceError>, Seq<AV>) {
    if !disk.has_dir(semester.name) {
        (disk, Err(PersistenceError::Unwritable), Seq::empty())
    } else {
        let written = disk.with_active_course(semester.name, opt_name_of(course));
        let writing = seq![
            AV::WriteSemesterFile { semester: semester.name, active: opt_name_of(course) },
        ];
        match course {
            Some(path) => (
                MaybeSymLinkable::linked(store.course_link, written, path.path),
                touch_outcome(
                    !(store.course_link.path.is_some() && written.link(store.course_link.slot)
                        is Other),
                ),
                writing + MaybeSymLinkable::link_changes(store.course_link, written, path.path),
            ),
            None => (
                MaybeSymLinkable::unlinked(store.course_link, written),
                Ok(()),
                writing + MaybeSymLinkable::unlink_changes(store.course_link, written),
            ),
        }
    }
}

/// The notes after the active semester was set: the store's sidecar file
/// is made where it is not there, and written; then the semester's mirror is
/// pointed at the directory, or both mirrors are removed.
pub open spec fn noted_set_semester(
    store: StoreState,
    notes: Notes,
    disk: DiskView,
    semester: Option<SemesterPathView>,
) -> Notes {
    if !disk.is_dir {
        notes
    } else {
        let noted = notes.touch_store(true).write(
            FileKey::Store,
            AV::WriteStoreFile { active: opt_semester_name(semester) },
        );
        let written = disk.with_active(opt_semester_name(semester));
        match semester {
            Some(path) => MaybeSymLinkable::link_noted(
                store.semester_link,
                written,
                noted,
                path.path,
            ),
            None => MaybeSymLinkable::unlink_noted(
                store.course_link,
                MaybeSymLinkable::unlinked(store.semester_link, written),
                MaybeSymLinkable::unlink_noted(store.semester_link, written, noted),
            ),
        }
    }
}

/// The notes after the active course of the semester at `semester` was set:
/// the semester's sidecar file is made where it is not there, and written;
/// then the course's mirror is pointed at the directory, or removed.
pub open spec fn noted_set_course(
    store: StoreState,
    notes: Notes,
    disk: DiskView,
    semester: SemesterPathView,
    course: Option<crate::paths::CoursePathView>,
) -> Notes {
    if !disk.has_dir(semester.name) {
        notes
    } else {
        let noted = crate::semester::written(notes, disk, semester.name, opt_name_of(course));
        let written = disk.with_active_course(semester.name, opt_name_of(course));
        match course {
            Some(path) => MaybeSymLinkable::link_noted(store.course_link, written, noted, path.path),
            None => MaybeSymLinkable::unlink_noted(store.course_link, written, noted),
        }
    }
}

impl Store {
    /// The naming policy of the store.
    pub closed spec fn policy(&self) -> SemesterNames {
        self.semester_names
    }

    /// Makes the store from a configuration: reads the store's sidecar file,
    /// which is made where there is none, and takes the semester that it
    /// names as the active one if that semester is still there.
    pub fn new(config: Config, disk: &mut Disk) -> (r: Result<Store, Error>)
        requires
            old(disk).wf(),
        ensures
            final(disk).wf(),
            final(disk).only_made_files(*old(disk)),
            final(disk)@ == old(disk)@,
            match r {
                Ok(store) => new_store(old(disk)@, config) == Ok::<StoreState, Error>(store@)
                    && store.policy() == config.policy(),
                Err(e) => new_store(old(disk)@, config) == Err::<StoreState, Error>(e),
            },
            final(disk).notes() == old(disk).notes().touch_store(old(disk)@.is_dir),
    {
        let (entry_point, semester_names, semester_link, course_link) = config.into_parts();
        let file = match entry_point.data_file(disk) {
            Ok(file) => file,
            Err(e) => {
                return Err(Error::Persistence(e));
            },
        };
        let store_do = match file.read(disk) {
            Ok(data) => data,
            Err(e) => {
                return Err(Error::Persistence(e));
            },
        };
        let active_semester = match &store_do.active_semester {
            Some(name) => entry_point.semester_path(name.as_str(), &semester_names, disk),
            None => None,
        };
        Ok(
            Store {
                entry_point,
                semester_names,
                current_course_link: course_link,
                current_semester_link: semester_link,
                active_semester,
            },
        )
    }

    /// The naming policy.
    pub fn semester_names(&self) -> (r: &SemesterNames)
        ensures
            *r == self.policy(),
    {
        &self.semester_names
    }

    /// The semesters that load, in the order of the image.
    pub fn semesters(&self, disk: &mut Disk) -> (r: Vec<Semester>)
        requires
            old(disk).wf(),
        ensures
            final(disk).wf(),
            final(disk).only_made_files(*old(disk)),
            final(disk)@ == old(disk)@,
            semester_list_views(r@) == semesters_of(old(disk)@, self.policy(), self@.entry),
            final(disk).notes() == semesters_touched(
                old(disk).notes(),
                old(disk)@,
                semester_paths_of(old(disk)@, self.policy(), self@.entry),
            ),
    {
        let paths = self.entry_point.semester_paths(&self.semester_names, disk);
        let mut out: Vec<Semester> = Vec::new();
        let mut i: usize = 0;
        while i < paths.len()
            invariant
                i <= paths@.len(),
                disk.wf(),
                disk.only_made_files(*old(disk)),
                disk@ == old(disk)@,
                semester_list_views(out@) == loaded_semesters(
                    old(disk)@,
                    self.policy(),
                    semester_path_views(paths@).take(i as int),
                ),
                disk.notes() == semesters_touched(
                    old(disk).notes(),
                    old(disk)@,
                    semester_path_views(paths@).take(i as int),
                ),
            decreases paths@.len() - i,
        {
            proof {
                let now = semester_path_views(paths@).take(i + 1);
                assert(now.drop_last() =~= semester_path_views(paths@).take(i as int));
            }
            match Semester::from_path(paths[i].copy(), &self.semester_names, disk) {
                Ok(semester) => {
                    out.push(semester);
                },
                Err(_) => {},
            }
            i += 1;
        }
        proof {
            assert(semester_path_views(paths@).take(i as int) =~= semester_path_views(paths@));
        }
        out
    }

    /// The courses that load, of all the directories that the policy takes
    /// for semesters, semester by semester.
    pub fn courses(&self, disk: &mut Disk) -> (r: Vec<Course>)
        requires
            old(disk).wf(),
        ensures
            final(disk).wf(),
            final(disk).only_made_files(*old(disk)),
            final(disk)@ == old(disk)@,
            course_list_views(r@) == courses_under(
                old(disk)@,
                semester_paths_of(old(disk)@, self.policy(), self@.entry),
            ),
            final(disk).notes() == courses_touched_under(
                old(disk).notes(),
                old(disk)@,
                semester_paths_of(old(disk)@, self.policy(), self@.entry),
            ),
    {
        let paths = self.entry_point.semester_paths(&self.semester_names, disk);
        let mut out: Vec<Course> = Vec::new();
        let mut i: usize = 0;
        while i < paths.len()
            invariant
                i <= paths@.len(),
                disk.wf(),
                disk.only_made_files(*old(disk)),
                disk@ == old(disk)@,
                course_list_views(out@) == courses_under(
                    old(disk)@,
                    semester_path_views(paths@).take(i as int),
                ),
                disk.notes() == courses_touched_under(
                    old(disk).notes(),
                    old(disk)@,
                    semester_path_views(paths@).take(i as int),
                ),
            decreases paths@.len() - i,
        {
            let ghost noted = disk.notes();
            let ghost before = course_list_views(out@);
            proof {
                let now = semester_path_views(paths@).take(i + 1);
                assert(now.drop_last() =~= semester_path_views(paths@).take(i as int));
            }
            let course_paths = paths[i].course_paths(disk);
            let mut k: usize = 0;
            let ghost all = crate::paths::course_path_views(course_paths@);
            while k < course_paths.len()
                invariant
                    k <= course_paths@.len(),
                    disk.wf(),
                    disk.only_made_files(*old(disk)),
                    disk@ == old(disk)@,
                    all == crate::paths::course_path_views(course_paths@),
                    course_list_views(out@) == before + crate::course::loaded_courses(
                        old(disk)@,
                        all.take(k as int),
                    ),
                    disk.notes() == crate::course::courses_touched(
                        noted,
                        old(disk)@,
                        all.take(k as int),
                    ),
                decreases course_paths@.len() - k,
            {
                let ghost seen = course_list_views(out@);
                proof {
                    let now = all.take(k + 1);
                    assert(now.drop_last() =~= all.take(k as int));
                }
                match Course::from_path(course_paths[k].copy(), disk) {
                    Ok(course) => {
                        out.push(course);
                        assert(course_list_views(out@) =~= seen.push(course@));
                    },
                    Err(_) => {},
                }
                k += 1;
            }
            proof {
                assert(all.take(k as int) =~= all);
            }
            i += 1;
        }
        proof {
            assert(semester_path_views(paths@).take(i as int) =~= semester_path_views(paths@));
        }
        out
    }

    /// The courses of a semester that load.
    pub fn semester_courses(&self, semester: Semester, disk: &mut Disk) -> (r: Vec<Course>)
        requires
            old(disk).wf(),
        ensures
            final(disk).wf(),
            final(disk).only_made_files(*old(disk)),
            final(disk)@ == old(disk)@,
            course_list_views(r@) == courses_of(old(disk)@, semester@.path),
            final(disk).notes() == crate::course::courses_touched(
                old(disk).notes(),
                old(disk)@,
                semester@.path.children(
                    crate::text::sorted_texts(old(disk)@.course_dir_names(semester@.path.name)),
                ),
            ),
    {
        semester.courses(disk)
    }

    /// The semester named `name`; none where the policy does not take the
    /// name, no such directory is there, or the semester does not load.
    pub fn get_semester(&self, name: &str, disk: &mut Disk) -> (r: Option<Semester>)
        requires
            old(disk).wf(),
        ensures
            final(disk).wf(),
            final(disk).only_made_files(*old(disk)),
            final(disk)@ == old(disk)@,
            opt_semester(r) == semester_named(old(disk)@, self.policy(), self@.entry, name@),
            final(disk).notes() == named_touched(
                old(disk).notes(),
                old(disk)@,
                self.policy(),
                name@,
            ),
    {
        match self.entry_point.semester_path(name, &self.semester_names, disk) {
            Some(path) => match Semester::from_path(path, &self.semester_names, disk) {
                Ok(semester) => Some(semester),
                Err(_) => None,
            },
            None => None,
        }
    }

    /// The active semester, loaded; none where no semester is active or it
    /// does not load any more.
    pub fn current_semester(&self, disk: &mut Disk) -> (r: Option<Semester>)
        requires
            old(disk).wf(),
        ensures
            final(disk).wf(),
            final(disk).only_made_files(*old(disk)),
            final(disk)@ == old(disk)@,
            opt_semester(r) == current_semester_of(old(disk)@, self.policy(), self@.active),
            final(disk).notes() == (match self@.active {
                Some(path) => crate::semester::touched(old(disk).notes(), old(disk)@, path.name),
                None => old(disk).notes(),
            }),
    {
        match &self.active_semester {
            Some(path) => match Semester::from_path(path.copy(), &self.semester_names, disk) {
                Ok(semester) => Some(semester),
                Err(_) => None,
            },
            None => None,
        }
    }

    /// The active course of the active semester, loaded.
    pub fn current_course(&self, disk: &mut Disk) -> (r: Option<Course>)
        requires
            old(disk).wf(),
        ensures
            final(disk).wf(),
            final(disk).only_made_files(*old(disk)),
            final(disk)@ == old(disk)@,
            opt_course(r) == current_course_of(old(disk)@, self.policy(), self@.active),
            final(disk).notes() == current_course_touched(
                old(disk).notes(),
                old(disk)@,
                self.policy(),
                self@.active,
            ),
    {
        match self.current_semester(disk) {
            Some(semester) => semester.active_course(disk),
            None => None,
        }
    }

    /// Makes `semester` the active semester, or none: writes the store's
    /// sidecar file and points the semester's mirror at the directory, or
    /// removes both mirrors where none is active.
    pub fn set_current_semester(&mut self, disk: &mut Disk, semester: Option<&Semester>) -> (r:
        Result<(), PersistenceError>)
        requires
            old(disk).wf(),
        ensures
            final(disk).wf(),
            final(disk).follows(*old(disk)),
            final(self)@ == old(self)@.with_active(opt_semester_path_of(semester)),
            final(self).policy() == old(self).policy(),
            final(disk)@ == after_set_semester(
                old(self)@,
                old(disk)@,
                opt_semester_path_of(semester),
            ).0,
            final(disk).changes() =~= old(disk).changes() + after_set_semester(
                old(self)@,
                old(disk)@,
                opt_semester_path_of(semester),
            ).2,
            final(disk).notes() == noted_set_semester(
                old(self)@,
                old(disk).notes(),
                old(disk)@,
                opt_semester_path_of(semester),
            ),
            r == after_set_semester(old(self)@, old(disk)@, opt_semester_path_of(semester)).1,
    {
        self.active_semester = match semester {
            Some(s) => Some(s.path().copy()),
            None => None,
        };
        let store_do = StoreDO {
            active_semester: match semester {
                Some(s) => Some(s.path().name().to_owned()),
                None => None,
            },
        };
        let file = match self.entry_point.data_file(disk) {
            Ok(file) => file,
            Err(e) => {
                return Err(e);
            },
        };
        match file.write(disk, &store_do) {
            Ok(()) => {},
            Err(e) => {
                return Err(e);
            },
        }
        match &self.active_semester {
            Some(path) => self.current_semester_link.link_from(disk, path.path().as_str()),
            None => {
                let _ = self.current_semester_link.remove_link(disk);
                self.current_course_link.remove_link(disk)
            },
        }
    }

    /// Makes `semester` the active semester, or none, as
    /// `set_current_semester` does.
    pub fn set_active(&mut self, disk: &mut Disk, semester: Option<&Semester>) -> (r: Result<
        (),
        PersistenceError,
    >)
        requires
            old(disk).wf(),
        ensures
            final(disk).wf(),
            final(disk).follows(*old(disk)),
            final(self)@ == old(self)@.with_active(opt_semester_path_of(semester)),
            final(self).policy() == old(self).policy(),
            final(disk)@ == after_set_semester(
                old(self)@,
                old(disk)@,
                opt_semester_path_of(semester),
            ).0,
            final(disk).changes() =~= old(disk).changes() + after_set_semester(
                old(self)@,
                old(disk)@,
                opt_semester_path_of(semester),
            ).2,
            final(disk).notes() == noted_set_semester(
                old(self)@,
                old(disk).notes(),
                old(disk)@,
                opt_semester_path_of(semester),
            ),
            r == after_set_semester(old(self)@, old(disk)@, opt_semester_path_of(semester)).1,
    {
        self.set_current_semester(disk, semester)
    }

    /// Makes `course` the active course of `semester`, or none: writes the
    /// semester's sidecar file and points the course's mirror at the
    /// directory, or removes it.
    pub fn set_current_course(
        &self,
        disk: &mut Disk,
        semester: &mut Semester,
        course: Option<&Course>,
    ) -> (r: Result<(), PersistenceError>)
        requires
            old(disk).wf(),
        ensures
            final(disk).wf(),
            final(disk).follows(*old(disk)),
            final(semester)@ == old(semester)@.with_active(opt_path_of(course)),
            final(disk)@ == after_set_course(
                self@,
                old(disk)@,
                old(semester)@.path,
                opt_path_of(course),
            ).0,
            final(disk).changes() =~= old(disk).changes() + after_set_course(
                self@,
                old(disk)@,
                old(semester)@.path,
                opt_path_of(course),
            ).2,
            final(disk).notes() == noted_set_course(
                self@,
                old(disk).notes(),
                old(disk)@,
                old(semester)@.path,
                opt_path_of(course),
            ),
            r == after_set_course(self@, old(disk)@, old(semester)@.path, opt_path_of(course)).1,
    {
        match semester.set_active(disk, course) {
            Ok(()) => {},
            Err(e) => {
                return Err(e);
            },
        }
        match course {
            Some(c) => {
                let r = self.current_course_link.link_from(disk, c.path().path().as_str());
                r
            },
            None => self.current_course_link.remove_link(disk),
        }
    }

    /// The active semester, loaded.
    pub fn active_semester(&self, disk: &mut Disk) -> (r: Option<Semester>)
        requires
            old(disk).wf(),
        ensures
            final(disk).wf(),
            final(disk).only_made_files(*old(disk)),
            final(disk)@ == old(disk)@,
            opt_semester(r) == current_semester_of(old(disk)@, self.policy(), self@.active),
            final(disk).notes() == (match self@.active {
                Some(path) => crate::semester::touched(old(disk).notes(), old(disk)@, path.name),
                None => old(disk).notes(),
            }),
    {
        self.current_semester(disk)
    }

    /// Tells whether `semester` is the active semester: whether the active
    /// semester loads and lies at the same path.
    pub fn is_active(&self, semester: &Semester, disk: &mut Disk) -> (r: bool)
        requires
            old(disk).wf(),
        ensures
            final(disk).wf(),
            final(disk).only_made_files(*old(disk)),
            final(disk)@ == old(disk)@,
            r == is_current(old(disk)@, self.policy(), self@.active, semester@.path),
            final(disk).notes() == current_touched(old(disk).notes(), old(disk)@, self@.active),
    {
        match self.current_semester(disk) {
            Some(active) => same_text(active.path().path().as_str(), semester.path().path().as_str())
                && same_text(active.path().name(), semester.path().name()),
            None => false,
        }
    }

    /// Tells whether `name` is the name of a semester's directory in the
    /// fixed naming scheme: a directory below the entry point whose name is
    /// one of the letters `b`, `m`, `d` and then digits only.
    pub fn is_semester(&self, name: &str, disk: &Disk) -> (r: bool)
        ensures
            r == (disk@.has_dir(name@) && fits_fixed_scheme(name@)),
    {
        if let Kind::Directory = disk.semester_kind(name) {
            let chars = crate::text::chars_of(name);
            if chars.len() == 0 {
                return false;
            }
            if !(chars[0] == 'b' || chars[0] == 'm' || chars[0] == 'd') {
                return false;
            }
            let mut i: usize = 1;
            while i < chars.len()
                invariant
                    1 <= i <= chars@.len(),
                    chars@ == name@,
                    forall|k: int| 1 <= k < i ==> crate::text::is_digit(#[trigger] name@[k]),
                decreases chars@.len() - i,
            {
                if !('0' <= chars[i] && chars[i] <= '9') {
                    assert(!crate::text::is_digit(name@.skip(1)[i - 1]));
                    return false;
                }
                i += 1;
            }
            true
        } else {
            false
        }
    }

    /// Adds the semester with this number: makes its directory under the
    /// canonical name and loads it. Without a cycle, the cycle of the active
    /// semester is taken. Fails, and changes nothing, where no cycle can be
    /// had, the name is taken, or the policy does not read the canonical name
    /// as this number and cycle; a name that is taken is told first.
    pub fn add_semester(&self, disk: &mut Disk, semester_number: u16, cycle: Option<StudyCycle>) -> (r:
        Result<Semester, Error>)
        requires
            old(disk).wf(),
        ensures
            final(disk).wf(),
            final(disk).follows(*old(disk)),
            final(disk)@ == after_add_semester(
                old(disk)@,
                self.policy(),
                self@,
                semester_number,
                cycle,
            ).0,
            final(disk).changes() =~= old(disk).changes() + after_add_semester(
                old(disk)@,
                self.policy(),
                self@,
                semester_number,
                cycle,
            ).2,
            match r {
                Ok(semester) => after_add_semester(
                    old(disk)@,
                    self.policy(),
                    self@,
                    semester_number,
                    cycle,
                ).1 == Ok::<SemesterView, Error>(semester@),
                Err(e) => after_add_semester(
                    old(disk)@,
                    self.policy(),
                    self@,
                    semester_number,
                    cycle,
                ).1 == Err::<SemesterView, Error>(e),
            },
            r matches Ok(semester) ==> semester@.is_canonical() && semester@.number
                == semester_number,
            final(disk).notes() == noted_add_semester(
                old(disk).notes(),
                old(disk)@,
                self.policy(),
                self@,
                semester_number,
                cycle,
            ),
    {
        let cycle = match cycle {
            Some(cycle) => cycle,
            None => match self.current_semester(disk) {
                Some(active) => active.study_cycle(),
                None => {
                    return Err(Error::Naming(crate::names::NamingError::MissingCycle));
                },
            },
        };
        let name = crate::names::format_name(cycle, semester_number);
        match disk.semester_dir_outcome(name.as_str()) {
            Ok(()) => {},
            Err(e) => {
                return Err(Error::Path(e));
            },
        }
        match self.semester_names.deserialize(name.as_str()) {
            Ok((number, read)) => {
                if number != semester_number || read != cycle {
                    return Err(Error::Naming(crate::names::NamingError::NotCanonical));
                }
            },
            Err(e) => {
                return Err(Error::Naming(e));
            },
        }
        let path = match self.entry_point.create_semester_path(disk, semester_number, cycle) {
            Ok(path) => path,
            Err(e) => {
                return Err(Error::Path(e));
            },
        };
        Semester::from_path(path, &self.semester_names, disk)
    }

    /// Removes a semester with all that its directory holds. Where it is the
    /// active semester, the store has no active semester afterwards, and its
    /// sidecar file and the mirrors say so.
    pub fn remove_semester(&mut self, disk: &mut Disk, semester: Semester) -> (r: Result<
        (),
        PersistenceError,
    >)
        requires
            old(disk).wf(),
        ensures
            final(disk).wf(),
            final(disk).follows(*old(disk)),
            final(self).policy() == old(self).policy(),
            final(self)@ == (if is_current(
                old(disk)@,
                old(self).policy(),
                old(self)@.active,
                semester@.path,
            ) {
                old(self)@.with_active(None)
            } else {
                old(self)@
            }),
            final(disk)@ == after_remove_semester(
                old(disk)@,
                old(self).policy(),
                old(self)@,
                semester@.path,
            ).0,
            final(disk).changes() =~= old(disk).changes() + after_remove_semester(
                old(disk)@,
                old(self).policy(),
                old(self)@,
                semester@.path,
            ).2,
            r == after_remove_semester(
                old(disk)@,
                old(self).policy(),
                old(self)@,
                semester@.path,
            ).1,
            final(disk).notes() == noted_remove_semester(
                old(disk).notes(),
                old(disk)@,
                old(self).policy(),
                old(self)@,
                semester@.path,
            ),
    {
        if self.is_active(&semester, disk) {
            match self.set_current_semester(disk, None) {
                Ok(()) => {},
                Err(e) => {
                    return Err(e);
                },
            }
        }
        semester.remove(disk)
    }

    /// Removes a course of a semester with all that its directory holds.
    /// Where it is the active course of the semester, the semester has no
    /// active course afterwards, and its sidecar file and the course's
    /// mirror say so before the directory goes.
    pub fn remove_course(&self, disk: &mut Disk, semester: &mut Semester, course: Course) -> (r:
        Result<(), PersistenceError>)
        requires
            old(disk).wf(),
        ensures
            final(disk).wf(),
            final(disk).follows(*old(disk)),
            final(semester)@ == (if old(semester)@.holds_active(course@.path) {
                old(semester)@.with_active(None)
            } else {
                old(semester)@
            }),
            final(disk)@ == after_remove_course(self@, old(disk)@, old(semester)@, course@.path).0,
            final(disk).changes() =~= old(disk).changes() + after_remove_course(
                self@,
                old(disk)@,
                old(semester)@,
                course@.path,
            ).2,
            final(disk).notes() == noted_remove_course(
                self@,
                old(disk).notes(),
                old(disk)@,
                old(semester)@,
                course@.path,
            ),
            r == after_remove_course(self@, old(disk)@, old(semester)@, course@.path).1,
    {
        if semester.is_active(&course) {
            match self.set_current_course(disk, semester, None) {
                Ok(()) => {},
                Err(e) => {
                    return Err(e);
                },
            }
        }
        semester.remove_course(disk, course)
    }

    /// Gives a course of a semester the name `to`. Where it is the active
    /// course of the semester, it stays the active one under its new name,
    /// and the course's mirror is pointed at the directory under its new name.
    pub fn move_course(
        &self,
        disk: &mut Disk,
        semester: &mut Semester,
        course: Course,
        to: &str,
    ) -> (r: Result<Course, Error>)
        requires
            old(disk).wf(),
        ensures
            final(disk).wf(),
            final(disk).follows(*old(disk)),
            final(semester)@ == semester_after_move(
                old(disk)@,
                old(semester)@,
                course@.path,
                to@,
            ),
            final(disk)@ == after_move_course(
                self@,
                old(disk)@,
                old(semester)@,
                course@.path,
                to@,
            ).0,
            final(disk).changes() =~= old(disk).changes() + after_move_course(
                self@,
                old(disk)@,
                old(semester)@,
                course@.path,
                to@,
            ).2,
            final(disk).notes() == noted_move_course(
                self@,
                old(disk).notes(),
                old(disk)@,
                old(semester)@,
                course@.path,
                to@,
            ),
            match r {
                Ok(moved) => after_move_course(
                    self@,
                    old(disk)@,
                    old(semester)@,
                    course@.path,
                    to@,
                ).1 == Ok::<CourseView, Error>(moved@),
                Err(e) => after_move_course(
                    self@,
                    old(disk)@,
                    old(semester)@,
                    course@.path,
                    to@,
                ).1 == Err::<CourseView, Error>(e),
            },
    {
        let active = semester.is_active(&course);
        let moved = match semester.move_course(disk, course, to) {
            Ok(moved) => moved,
            Err(e) => {
                return Err(e);
            },
        };
        if active {
            match self.current_course_link.link_from(disk, moved.path().path().as_str()) {
                Ok(()) => {},
                Err(e) => {
                    return Err(Error::Persistence(e));
                },
            }
        }
        Ok(moved)
    }

    /// The entry point.
    pub fn entry_point(&self) -> (r: EntryPoint)
        ensures
            r@ == self@.entry,
    {
        self.entry_point.copy()
    }
}

/// Whether the semester at `path` is the active one: the active semester
/// loads and lies at the same path.
pub open spec fn is_current(
    disk: DiskView,
    policy: SemesterNames,
    active: Option<SemesterPathView>,
    path: SemesterPathView,
) -> bool {
    match current_semester_of(disk, policy, active) {
        Some(semester) => semester.path == path,
        None => false,
    }
}

/// Whether a name is one of the letters `b`, `m`, `d` and then digits only.
pub open spec fn fits_fixed_scheme(name: Seq<char>) -> bool {
    name.len() > 0 && crate::semester::fixed_cycle(name[0]) is Some && crate::text::all_digits(
        name.skip(1),
    )
}

/// The cycle of a semester that is to be added: the given one, or else the
/// cycle of the active semester.
pub open spec fn chosen_cycle(
    disk: DiskView,
    policy: SemesterNames,
    store: StoreState,
    cycle: Option<StudyCycle>,
) -> Option<StudyCycle> {
    match cycle {
        Some(c) => Some(c),
        None => match current_semester_of(disk, policy, store.active) {
            Some(active) => Some(active.cycle),
            None => None,
        },
    }
}

/// The notes after the semester named `name` was asked for: it is loaded
/// where the policy takes the name.
pub open spec fn named_touched(
    notes: Notes,
    disk: DiskView,
    policy: SemesterNames,
    name: Seq<char>,
) -> Notes {
    if policy.is_name_spec(name) {
        crate::semester::touched(notes, disk, name)
    } else {
        notes
    }
}

/// The notes after the active semester was loaded.
pub open spec fn current_touched(
    notes: Notes,
    disk: DiskView,
    active: Option<SemesterPathView>,
) -> Notes {
    match active {
        Some(path) => crate::semester::touched(notes, disk, path.name),
        None => notes,
    }
}

/// The notes after the active course of the active semester was loaded.
pub open spec fn current_course_touched(
    notes: Notes,
    disk: DiskView,
    policy: SemesterNames,
    active: Option<SemesterPathView>,
) -> Notes {
    let loaded = current_touched(notes, disk, active);
    match current_semester_of(disk, policy, active) {
        Some(semester) => match semester.active_course {
            Some(path) => crate::course::course_touched(loaded, disk, path.semester, path.name),
            None => loaded,
        },
        None => loaded,
    }
}

/// The notes after the semesters at `paths` were loaded, in their order.
pub open spec fn semesters_touched(
    notes: Notes,
    disk: DiskView,
    paths: Seq<SemesterPathView>,
) -> Notes
    decreases paths.len(),
{
    if paths.len() == 0 {
        notes
    } else {
        crate::semester::touched(
            semesters_touched(notes, disk, paths.drop_last()),
            disk,
            paths.last().name,
        )
    }
}

/// The notes after the courses of the semester directories at `paths` were
/// loaded, semester by semester.
pub open spec fn courses_touched_under(
    notes: Notes,
    disk: DiskView,
    paths: Seq<SemesterPathView>,
) -> Notes
    decreases paths.len(),
{
    if paths.len() == 0 {
        notes
    } else {
        crate::course::courses_touched(
            courses_touched_under(notes, disk, paths.drop_last()),
            disk,
            paths.last().children(
                crate::text::sorted_texts(disk.course_dir_names(paths.last().name)),
            ),
        )
    }
}

/// The notes after a semester was added: the active semester is loaded
/// where no cycle is given; then the directory is made, and the semester is
/// loaded from it.
pub open spec fn noted_add_semester(
    notes: Notes,
    disk: DiskView,
    policy: SemesterNames,
    store: StoreState,
    number: u16,
    cycle: Option<StudyCycle>,
) -> Notes {
    let asked = match cycle {
        Some(_) => notes,
        None => current_touched(notes, disk, store.active),
    };
    match chosen_cycle(disk, policy, store, cycle) {
        None => asked,
        Some(c) => {
            let name = format_name_spec(c, number);
            if after_add_semester(disk, policy, store, number, cycle).2.len() > 0 {
                crate::semester::touched(
                    asked.noting(AV::CreateSemesterDir { name: name }),
                    disk.with_semester(name),
                    name,
                )
            } else {
                asked
            }
        },
    }
}

/// The notes after a semester was removed: the active semester is loaded;
/// where it is the one to remove, the store's pointer is cleared; then the
/// directory is removed, and the sidecar files below it with it.
pub open spec fn noted_remove_semester(
    notes: Notes,
    disk: DiskView,
    policy: SemesterNames,
    store: StoreState,
    semester: SemesterPathView,
) -> Notes {
    let asked = current_touched(notes, disk, store.active);
    let cleared = if is_current(disk, policy, store.active, semester) {
        noted_set_semester(store, asked, disk, None)
    } else {
        asked
    };
    if after_remove_semester(disk, policy, store, semester).1 is Ok {
        cleared.remove_semester(semester.name)
    } else {
        cleared
    }
}

/// One step after another: the second is taken only where the first went
/// through, and the changes of both are joined.
pub open spec fn and_then_set(
    first: (DiskView, Result<(), PersistenceError>, Seq<AV>),
    second: (DiskView, Result<(), PersistenceError>, Seq<AV>),
) -> (DiskView, Result<(), PersistenceError>, Seq<AV>) {
    if first.1 is Err {
        first
    } else {
        (second.0, second.1, first.2 + second.2)
    }
}

/// The image after a course of a semester was removed by way of the store,
/// whether that went through, and the changes that were made: where the
/// course is the active one, the semester is first left without an active
/// course and the course's mirror is removed; then the directory goes.
pub open spec fn after_remove_course(
    store: StoreState,
    disk: DiskView,
    semester: SemesterView,
    course: crate::paths::CoursePathView,
) -> (DiskView, Result<(), PersistenceError>, Seq<AV>) {
    if semester.holds_active(course) {
        let cleared = after_set_course(store, disk, semester.path, None);
        and_then_set(
            cleared,
            crate::semester::after_remove_course(cleared.0, semester.with_active(None), course),
        )
    } else {
        crate::semester::after_remove_course(disk, semester, course)
    }
}

/// The notes after a course of a semester was removed by way of the store.
pub open spec fn noted_remove_course(
    store: StoreState,
    notes: Notes,
    disk: DiskView,
    semester: SemesterView,
    course: crate::paths::CoursePathView,
) -> Notes {
    if semester.holds_active(course) {
        let cleared = after_set_course(store, disk, semester.path, None);
        let noted = noted_set_course(store, notes, disk, semester.path, None);
        if cleared.1 is Err {
            noted
        } else {
            crate::semester::noted_remove_course(
                noted,
                cleared.0,
                semester.with_active(None),
                course,
            )
        }
    } else {
        crate::semester::noted_remove_course(notes, disk, semester, course)
    }
}

/// The image after a course of a semester was given the name `to` by way of
/// the store, the course under its new name, or why there is none, and the
/// changes that were made: where the course is the active one and the move
/// went through, the course's mirror is pointed at the directory under its
/// new name.
pub open spec fn after_move_course(
    store: StoreState,
    disk: DiskView,
    semester: SemesterView,
    course: crate::paths::CoursePathView,
    to: Seq<char>,
) -> (DiskView, Result<CourseView, Error>, Seq<AV>) {
    let moved = crate::semester::after_move_course(disk, semester, course, to);
    match moved.1 {
        Ok(under) => if semester.holds_active(course) {
            (
                MaybeSymLinkable::linked(store.course_link, moved.0, under.path.path),
                if store.course_link.path.is_some() && moved.0.link(store.course_link.slot)
                    is Other {
                    Err(Error::Persistence(PersistenceError::Unwritable))
                } else {
                    Ok(under)
                },
                moved.2 + MaybeSymLinkable::link_changes(
                    store.course_link,
                    moved.0,
                    under.path.path,
                ),
            )
        } else {
            moved
        },
        Err(_) => moved,
    }
}

/// The notes after a course of a semester was given the name `to` by way of
/// the store.
pub open spec fn noted_move_course(
    store: StoreState,
    notes: Notes,
    disk: DiskView,
    semester: SemesterView,
    course: crate::paths::CoursePathView,
    to: Seq<char>,
) -> Notes {
    let moved = crate::semester::after_move_course(disk, semester, course, to);
    let noted = crate::semester::noted_move_course(notes, disk, semester, course, to);
    match moved.1 {
        Ok(under) => if semester.holds_active(course) {
            MaybeSymLinkable::link_noted(store.course_link, moved.0, noted, under.path.path)
        } else {
            noted
        },
        Err(_) => noted,
    }
}

/// The semester after one of its courses was given another name: where the
/// course is the active one and the move went through, it is the active one
/// under its new name.
pub open spec fn semester_after_move(
    disk: DiskView,
    semester: SemesterView,
    course: crate::paths::CoursePathView,
    to: Seq<char>,
) -> SemesterView {
    match crate::semester::after_move_course(disk, semester, course, to).1 {
        Ok(under) => if semester.holds_active(course) {
            semester.with_active(Some(under.path))
        } else {
            semester
        },
        Err(_) => semester,
    }
}

/// The image after a semester was added, the semester, or why there is
/// none, and the changes that were made. A canonical name that is taken, or
/// cannot be made, is refused first; then a name that the policy does not
/// read as the number and the cycle that it is written from.
pub open spec fn after_add_semester(
    disk: DiskView,
    policy: SemesterNames,
    store: StoreState,
    number: u16,
    cycle: Option<StudyCycle>,
) -> (DiskView, Result<SemesterView, Error>, Seq<AV>) {
    match chosen_cycle(disk, policy, store, cycle) {
        None => (
            disk,
            Err(Error::Naming(crate::names::NamingError::MissingCycle)),
            Seq::empty(),
        ),
        Some(c) => match disk.create_outcome(format_name_spec(c, number)) {
            Err(e) => (disk, Err(Error::Path(e)), Seq::empty()),
            Ok(()) => match policy.parse_spec(format_name_spec(c, number)) {
                Err(e) => (disk, Err(Error::Naming(e)), Seq::empty()),
                Ok(read) => if read != (number, c) {
                    (
                        disk,
                        Err(Error::Naming(crate::names::NamingError::NotCanonical)),
                        Seq::empty(),
                    )
                } else {
                    (
                        disk.with_semester(format_name_spec(c, number)),
                        load_semester(
                            disk.with_semester(format_name_spec(c, number)),
                            policy,
                            semester_path_of(store.entry, format_name_spec(c, number)),
                        ),
                        seq![AV::CreateSemesterDir { name: format_name_spec(c, number) }],
                    )
                },
            },
        },
    }
}

/// The image after a semester was removed, whether that went through, and
/// the changes that were made: where it is the active one, the store's
/// pointer is cleared first.
pub open spec fn after_remove_semester(
    disk: DiskView,
    policy: SemesterNames,
    store: StoreState,
    semester: SemesterPathView,
) -> (DiskView, Result<(), PersistenceError>, Seq<AV>) {
    let cleared = if is_current(disk, policy, store.active, semester) {
        after_set_semester(store, disk, None)
    } else {
        (disk, Ok(()), Seq::empty())
    };
    if cleared.1 is Err {
        cleared
    } else if cleared.0.has_dir(semester.name) {
        (
            cleared.0.without_semester(semester.name),
            Ok(()),
            cleared.2.push(AV::RemoveSemesterDir { name: semester.name }),
        )
    } else {
        (cleared.0, Err(PersistenceError::Unwritable), cleared.2)
    }
}

impl StoreState {
    /// The store with another active semester.
    pub open spec fn with_active(self, active: Option<SemesterPathView>) -> StoreState {
        StoreState { active: active, ..self }
    }
}

/// Adding a semester whose canonical name lies below the entry point
/// already fails because the name is taken, whatever the policy makes of the
/// name, and nothing changes.
pub proof fn lemma_taken_name_is_refused(
    disk: DiskView,
    policy: SemesterNames,
    store: StoreState,
    number: u16,
    cycle: Option<StudyCycle>,
)
    requires
        disk.wf(),
        chosen_cycle(disk, policy, store, cycle) is Some,
        disk.contains(format_name_spec(chosen_cycle(disk, policy, store, cycle)->0, number)),
    ensures
        after_add_semester(disk, policy, store, number, cycle).0 == disk,
        after_add_semester(disk, policy, store, number, cycle).1 == Err::<SemesterView, Error>(
            Error::Path(crate::error::PathError::AlreadyExists),
        ),
        after_add_semester(disk, policy, store, number, cycle).2.len() == 0,
{
    let name = format_name_spec(chosen_cycle(disk, policy, store, cycle)->0, number);
    disk.lemma_entries_named(name, name);
}

/// After the active semester was set to a semester and that semester's
/// directory was removed, the store has no active semester, and no active
/// course.
pub proof fn lemma_removed_semester_is_not_current(
    store: StoreState,
    policy: SemesterNames,
    disk: DiskView,
    semester: SemesterPathView,
)
    requires
        disk.wf(),
    ensures
        current_semester_of(
            after_set_semester(store, disk, Some(semester)).0.without_semester(semester.name),
            policy,
            store.with_active(Some(semester)).active,
        ) is None,
        current_course_of(
            after_set_semester(store, disk, Some(semester)).0.without_semester(semester.name),
            policy,
            store.with_active(Some(semester)).active,
        ) is None,
{
    let set = after_set_semester(store, disk, Some(semester)).0;
    set.lemma_without_semester(semester.name);
}

/// Removing the active course of the active semester goes through, leaves
/// the semester active, and leaves it without an active course; the course's
/// mirror is no symlink afterwards.
pub proof fn lemma_removed_course_is_not_current(
    store: StoreState,
    policy: SemesterNames,
    disk: DiskView,
    active: SemesterPathView,
    semester: SemesterView,
    course: CourseView,
)
    requires
        disk.wf(),
        current_semester_of(disk, policy, Some(active)) == Some(semester),
        current_course_of(disk, policy, Some(active)) == Some(course),
    ensures
        after_remove_course(store, disk, semester, course.path).1 is Ok,
        current_semester_of(
            after_remove_course(store, disk, semester, course.path).0,
            policy,
            Some(active),
        ) == Some(semester.with_active(None)),
        current_course_of(
            after_remove_course(store, disk, semester, course.path).0,
            policy,
            Some(active),
        ) is None,
        store.course_link.path is Some ==> !(after_remove_course(
            store,
            disk,
            semester,
            course.path,
        ).0.link(store.course_link.slot) is Link),
{
    let name = active.name;
    disk.lemma_with_active_course(name, None);
    let cleared = after_set_course(store, disk, semester.path, None).0;
    cleared.lemma_without_course(name, course.path.name);
}

/// Moving the active course of the active semester to a name of a
/// directory that is free goes through, and the course is the active course under its new name,
/// with the data it had.
pub proof fn lemma_moved_course_stays_current(
    policy: SemesterNames,
    disk: DiskView,
    active: SemesterPathView,
    semester: SemesterView,
    course: CourseView,
    to: Seq<char>,
)
    requires
        disk.wf(),
        current_semester_of(disk, policy, Some(active)) == Some(semester),
        current_course_of(disk, policy, Some(active)) == Some(course),
        crate::text::is_dir_name(to),
        !disk.semester(active.name).contains(to),
    ensures
        crate::semester::after_move_course(disk, semester, course.path, to).1 == Ok::<
            CourseView,
            Error,
        >(CourseView { path: active.child(to), data: course.data }),
        current_course_of(
            crate::semester::after_move_course(disk, semester, course.path, to).0,
            policy,
            Some(active),
        ) == Some(CourseView { path: active.child(to), data: course.data }),
{
    let name = active.name;
    let from = course.path.name;
    disk.lemma_with_course_renamed(name, from, to);
    let renamed = disk.with_course_renamed(name, from, to);
    renamed.lemma_with_active_course(name, Some(to));
}

/// Moving the active course of the active semester by way of the store
/// takes the course's mirror along: where the mirror has a path and nothing
/// but a symlink lies there, it points at the directory under its new name.
pub proof fn lemma_moved_course_takes_its_mirror(
    store: StoreState,
    policy: SemesterNames,
    disk: DiskView,
    active: SemesterPathView,
    semester: SemesterView,
    course: CourseView,
    to: Seq<char>,
)
    requires
        disk.wf(),
        current_semester_of(disk, policy, Some(active)) == Some(semester),
        current_course_of(disk, policy, Some(active)) == Some(course),
        crate::text::is_dir_name(to),
        !disk.semester(active.name).contains(to),
        store.course_link.path is Some,
        !(disk.link(store.course_link.slot) is Other),
    ensures
        after_move_course(store, disk, semester, course.path, to).1 == Ok::<CourseView, Error>(
            CourseView { path: active.child(to), data: course.data },
        ),
        after_move_course(store, disk, semester, course.path, to).0.link(store.course_link.slot)
            == crate::image::LinkView::Link(active.child(to).path),
        current_course_of(
            after_move_course(store, disk, semester, course.path, to).0,
            policy,
            Some(active),
        ) == Some(CourseView { path: active.child(to), data: course.data }),
{
    lemma_moved_course_stays_current(policy, disk, active, semester, course, to);
}

} // verus!
