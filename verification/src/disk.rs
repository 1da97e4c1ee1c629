//! The directory as the library works on it: the image that was read, the
//! changes made since, and the steps that make them. Every step changes the
//! image and notes the action that does the same on the real directory.

use crate::error::{PathError, PersistenceError};
use crate::image::lemma_position_is;
use crate::image::{course_views, semester_views};
use crate::image::{CourseDO, CourseDir, CourseFile, Image, LinkState, PointerFile, SemesterDir};
use crate::image::{DiskView, LinkView, Slot, Stored};
use crate::journal::{action_views, apply, changes_of, is_creation, lemma_replay_add, replay};
use crate::journal::{Action, ActionView, FileKey, Notes};
use crate::text::{all_dir_names, copy_opt_text, opt_text, same_text, valid_name};
use vstd::prelude::*;
use vstd::string::*;

verus! {

/// What a name stands for in a directory.
#[derive(Debug, Clone, Copy, PartialEq, Eq, Structural)]
pub enum Kind {
    Missing,
    /// Something that is no directory.
    File,
    Directory,
}

/// The image of the directory with the actions that are still to be done on
/// the real one.
pub struct Disk {
    image: Image,
    log: Vec<Action>,
    base: Ghost<DiskView>,
}

impl View for Disk {
    type V = DiskView;

    closed spec fn view(&self) -> DiskView {
        self.image@
    }
}

/// What a name stands for among the entries of a directory.
pub open spec fn kind_of(found: bool, is_dir: bool) -> Kind {
    if !found {
        Kind::Missing
    } else if is_dir {
        Kind::Directory
    } else {
        Kind::File
    }
}

/// Copies the data of a course.
pub fn copy_course_data(data: &CourseDO) -> (r: CourseDO)
    ensures
        r@ == data@,
{
    let degrees = match &data.degrees {
        None => None,
        Some(list) => {
            let mut out: Vec<String> = Vec::new();
            let mut i: usize = 0;
            while i < list.len()
                invariant
                    i <= list@.len(),
                    out@.len() == i,
                    forall|k: int| 0 <= k < i ==> (#[trigger] out@[k])@ == list@[k]@,
                decreases list@.len() - i,
            {
                out.push(list[i].clone());
                i += 1;
            }
            assert(out.deep_view() =~= list.deep_view());
            Some(out)
        },
    };
    CourseDO {
        name: copy_opt_text(&data.name),
        grade: data.grade,
        ects: data.ects,
        degrees,
        uebk: data.uebk,
    }
}

/// Copies what lies at the path of a mirror.
pub fn copy_link(link: &LinkState) -> (r: LinkState)
    ensures
        r@ == link@,
{
    match link {
        LinkState::Absent => LinkState::Absent,
        LinkState::Link(target) => LinkState::Link(target.clone()),
        LinkState::Other => LinkState::Other,
    }
}

/// The place of the first entry named `name`, or the number of entries.
fn find_semester(semesters: &Vec<SemesterDir>, name: &str) -> (r: usize)
    ensures
        r as int == crate::image::position(
            semester_views(semesters@).map_values(|s: crate::image::SemesterDirView| s.name),
            name@,
        ),
        r <= semesters@.len(),
{
    let ghost names = semester_views(semesters@).map_values(
        |s: crate::image::SemesterDirView| s.name,
    );
    let mut i: usize = 0;
    while i < semesters.len()
        invariant
            i <= semesters@.len(),
            names == semester_views(semesters@).map_values(
                |s: crate::image::SemesterDirView| s.name,
            ),
            forall|k: int| 0 <= k < i ==> names[k] != name@,
        decreases semesters@.len() - i,
    {
        if same_text(semesters[i].name.as_str(), name) {
            proof {
                lemma_position_is(names, name@, i as int);
            }
            return i;
        }
        i += 1;
    }
    proof {
        lemma_position_is(names, name@, i as int);
    }
    i
}

/// The place of the first entry named `name`, or the number of entries.
fn find_course(courses: &Vec<CourseDir>, name: &str) -> (r: usize)
    ensures
        r as int == crate::image::position(
            course_views(courses@).map_values(|c: crate::image::CourseDirView| c.name),
            name@,
        ),
        r <= courses@.len(),
{
    let ghost names = course_views(courses@).map_values(|c: crate::image::CourseDirView| c.name);
    let mut i: usize = 0;
    while i < courses.len()
        invariant
            i <= courses@.len(),
            names == course_views(courses@).map_values(|c: crate::image::CourseDirView| c.name),
            forall|k: int| 0 <= k < i ==> names[k] != name@,
        decreases courses@.len() - i,
    {
        if same_text(courses[i].name.as_str(), name) {
            proof {
                lemma_position_is(names, name@, i as int);
            }
            return i;
        }
        i += 1;
    }
    proof {
        lemma_position_is(names, name@, i as int);
    }
    i
}

/// Tells whether no two of the names are the same.
fn distinct(names: &Vec<String>) -> (r: bool)
    ensures
        r == names.deep_view().no_duplicates(),
{
    let mut i: usize = 0;
    while i < names.len()
        invariant
            i <= names@.len(),
            forall|a: int, b: int|
                0 <= a < i && 0 <= b < names@.len() && a != b ==> names.deep_view()[a]
                    != names.deep_view()[b],
        decreases names@.len() - i,
    {
        let mut j: usize = i + 1;
        while j < names.len()
            invariant
                i < j <= names@.len(),
                forall|b: int| i < b < j ==> names.deep_view()[i as int] != names.deep_view()[b],
            decreases names@.len() - j,
        {
            if same_text(names[i].as_str(), names[j].as_str()) {
                assert(names.deep_view()[i as int] == names.deep_view()[j as int]);
                return false;
            }
            j += 1;
        }
        i += 1;
    }
    true
}

/// The names of the entries of a semester's directory.
fn names_of_courses(courses: &Vec<CourseDir>) -> (r: Vec<String>)
    ensures
        r.deep_view() == course_views(courses@).map_values(|c: crate::image::CourseDirView| c.name),
{
    let mut out: Vec<String> = Vec::new();
    let mut i: usize = 0;
    while i < courses.len()
        invariant
            i <= courses@.len(),
            out@.len() == i,
            forall|k: int| 0 <= k < i ==> (#[trigger] out@[k])@ == courses@[k].name@,
        decreases courses@.len() - i,
    {
        out.push(courses[i].name.clone());
        i += 1;
    }
    out
}

/// The names of the entries of the entry point's directory.
fn names_of_semesters(semesters: &Vec<SemesterDir>) -> (r: Vec<String>)
    ensures
        r.deep_view() == semester_views(semesters@).map_values(
            |s: crate::image::SemesterDirView| s.name,
        ),
{
    let mut out: Vec<String> = Vec::new();
    let mut i: usize = 0;
    while i < semesters.len()
        invariant
            i <= semesters@.len(),
            out@.len() == i,
            forall|k: int| 0 <= k < i ==> (#[trigger] out@[k])@ == semesters@[k].name@,
        decreases semesters@.len() - i,
    {
        out.push(semesters[i].name.clone());
        i += 1;
    }
    out
}

/// The names of the directories among the entries of a semester's directory.
fn dirs_of_courses(courses: &Vec<CourseDir>) -> (r: Vec<String>)
    ensures
        r.deep_view() == crate::image::course_dir_names(course_views(courses@)),
{
    let mut out: Vec<String> = Vec::new();
    let mut i: usize = 0;
    while i < courses.len()
        invariant
            i <= courses@.len(),
            out.deep_view() == crate::image::course_dir_names(
                course_views(courses@).take(i as int),
            ),
        decreases courses@.len() - i,
    {
        let ghost before = out.deep_view();
        proof {
            let now = course_views(courses@).take(i + 1);
            assert(now.drop_last() =~= course_views(courses@).take(i as int));
        }
        if courses[i].is_dir {
            out.push(courses[i].name.clone());
        }
        i += 1;
    }
    assert(course_views(courses@).take(i as int) =~= course_views(courses@));
    out
}

/// The names of the directories among the entries of the entry point's directory.
fn dirs_of_semesters(semesters: &Vec<SemesterDir>) -> (r: Vec<String>)
    ensures
        r.deep_view() == crate::image::semester_dir_names(semester_views(semesters@)),
{
    let mut out: Vec<String> = Vec::new();
    let mut i: usize = 0;
    while i < semesters.len()
        invariant
            i <= semesters@.len(),
            out.deep_view() == crate::image::semester_dir_names(
                semester_views(semesters@).take(i as int),
            ),
        decreases semesters@.len() - i,
    {
        proof {
            let now = semester_views(semesters@).take(i + 1);
            assert(now.drop_last() =~= semester_views(semesters@).take(i as int));
        }
        if semesters[i].is_dir {
            out.push(semesters[i].name.clone());
        }
        i += 1;
    }
    assert(semester_views(semesters@).take(i as int) =~= semester_views(semesters@));
    out
}

/// Tells whether each of the names can name an entry of a directory.
fn all_valid(names: &Vec<String>) -> (r: bool)
    ensures
        r == all_dir_names(names.deep_view()),
{
    let mut i: usize = 0;
    while i < names.len()
        invariant
            i <= names@.len(),
            forall|k: int| 0 <= k < i ==> crate::text::is_dir_name(#[trigger] names.deep_view()[k]),
        decreases names@.len() - i,
    {
        assert(names.deep_view()[i as int] == names@[i as int]@);
        if !valid_name(names[i].as_str()) {
            return false;
        }
        i += 1;
    }
    true
}

/// Tells whether an image is well formed.
pub fn check_image(image: &Image) -> (r: bool)
    ensures
        r == image@.wf(),
{
    let names = names_of_semesters(&image.semesters);
    if !distinct(&names) || !all_valid(&names) {
        return false;
    }
    if !image.is_dir && image.semesters.len() != 0 {
        return false;
    }
    let mut i: usize = 0;
    while i < image.semesters.len()
        invariant
            i <= image.semesters@.len(),
            forall|k: int| 0 <= k < i ==> (#[trigger] image@.semesters[k]).wf(),
        decreases image.semesters@.len() - i,
    {
        let entry = &image.semesters[i];
        assert(image@.semesters[i as int] == entry@);
        let names = names_of_courses(&entry.courses);
        if !distinct(&names) || !all_valid(&names) {
            return false;
        }
        if !entry.is_dir && entry.courses.len() != 0 {
            return false;
        }
        i += 1;
    }
    true
}

/// The sidecar files that an image holds: those that are not missing.
pub open spec fn files_of(image: Image) -> Set<FileKey> {
    Set::new(
        |key: FileKey|
            match key {
                FileKey::Store => !(image.file is Missing),
                FileKey::Semester(s) => image@.contains(s) && !(image.semesters@[image@.index(
                    s,
                )].file is Missing),
                FileKey::Course(s, c) => image@.contains(s) && image@.semester(s).contains(c) && !(
                image.semesters@[image@.index(s)].courses@[image@.semester(s).index(c)].file
                    is Missing),
            },
    )
}

impl Disk {
    /// The actions that are still to be done on the real directory.
    pub closed spec fn pending(&self) -> Seq<ActionView> {
        action_views(self.log@)
    }

    /// The image as it was when the pending actions began.
    pub closed spec fn base(&self) -> DiskView {
        self.base@
    }

    /// Whether the store's sidecar file is there.
    pub closed spec fn has_store_file(&self) -> bool {
        !(self.image.file is Missing)
    }

    /// Whether the sidecar file of the directory `semester` is there.
    pub closed spec fn has_semester_file(&self, semester: Seq<char>) -> bool {
        self@.contains(semester) && !(self.image.semesters@[self@.index(semester)].file is Missing)
    }

    /// Whether the sidecar file of the directory `course` in `semester` is there.
    pub closed spec fn has_course_file(&self, semester: Seq<char>, course: Seq<char>) -> bool {
        self@.contains(semester) && self@.semester(semester).contains(course) && !(
        self.image.semesters@[self@.index(semester)].courses@[self@.semester(semester).index(
            course,
        )].file is Missing)
    }

    /// The sidecar files that are there.
    pub closed spec fn made(&self) -> Set<FileKey> {
        files_of(self.image)
    }

    /// What is kept beside the image: the sidecar files that are there, and
    /// the pending actions.
    pub open spec fn notes(&self) -> Notes {
        Notes { made: self.made(), pending: self.pending() }
    }

    /// The sidecar files that are there are those that the predicates tell of.
    pub proof fn lemma_made(&self)
        ensures
            self.made().contains(FileKey::Store) == self.has_store_file(),
            forall|s: Seq<char>| #[trigger]
                self.made().contains(FileKey::Semester(s)) == self.has_semester_file(s),
            forall|s: Seq<char>, c: Seq<char>| #[trigger]
                self.made().contains(FileKey::Course(s, c)) == self.has_course_file(s, c),
            forall|s: Seq<char>| self.has_semester_file(s) ==> #[trigger] self@.contains(s),
            forall|s: Seq<char>, c: Seq<char>| #[trigger]
                self.has_course_file(s, c) ==> self@.contains(s) && self@.semester(s).contains(c),
    {
    }

    /// Whether this directory came from `before` by steps of the library: the
    /// base is the same, and the pending actions of `before` begin the
    /// pending actions of this one.
    pub open spec fn follows(self, before: Disk) -> bool {
        &&& self.base() == before.base()
        &&& before.pending().is_prefix_of(self.pending())
    }

    /// The pending actions that change what is there: all but the making
    /// of sidecar files.
    pub open spec fn changes(&self) -> Seq<ActionView> {
        changes_of(self.pending())
    }

    /// Whether this directory came from `before` by steps that at most made
    /// sidecar files: it follows `before`, and no action that changes what
    /// is there was noted.
    pub open spec fn only_made_files(self, before: Disk) -> bool {
        &&& self.follows(before)
        &&& self.changes() == before.changes()
    }

    /// The image is well formed, and the pending actions lead from the base to it.
    pub open spec fn wf(&self) -> bool {
        &&& self@.wf()
        &&& replay(self.base(), self.pending()) == self@
    }

    /// Takes an image as the directory, with nothing pending; `None` where two
    /// entries of a directory share a name, or something that is no directory
    /// has entries.
    pub fn new(image: Image) -> (r: Option<Disk>)
        ensures
            r.is_some() == image@.wf(),
            r matches Some(disk) ==> disk.wf() && disk@ == image@ && disk.pending().len() == 0
                && disk.base() == image@ && disk.made() == files_of(image),
    {
        if check_image(&image) {
            let ghost base = image@;
            Some(Disk { image, log: Vec::new(), base: Ghost(base) })
        } else {
            None
        }
    }

    /// Hands out the pending actions, in their order, and takes the image as
    /// it is now as the new base.
    pub fn take_pending(&mut self) -> (r: Vec<Action>)
        requires
            old(self).wf(),
        ensures
            action_views(r@) == old(self).pending(),
            final(self)@ == old(self)@,
            final(self).pending().len() == 0,
            final(self).base() == old(self)@,
            final(self).made() == old(self).made(),
            final(self).wf(),
    {
        let mut out: Vec<Action> = Vec::new();
        core::mem::swap(&mut out, &mut self.log);
        self.base = Ghost(self.image@);
        out
    }

    /// The image as it is now.
    pub fn image(&self) -> (r: &Image)
        ensures
            r@ == self@,
            files_of(*r) == self.made(),
    {
        &self.image
    }

    /// The path of the entry point.
    pub fn root(&self) -> (r: &String)
        ensures
            r@ == self@.root,
    {
        &self.image.root
    }

    /// Tells whether the entry point is a directory.
    pub fn root_is_dir(&self) -> (r: bool)
        ensures
            r == self@.is_dir,
    {
        self.image.is_dir
    }

    /// What `name` stands for in the entry point's directory.
    pub fn semester_kind(&self, name: &str) -> (r: Kind)
        ensures
            r == kind_of(self@.contains(name@), self@.has_dir(name@)),
    {
        let i = find_semester(&self.image.semesters, name);
        if i >= self.image.semesters.len() {
            Kind::Missing
        } else if self.image.semesters[i].is_dir {
            Kind::Directory
        } else {
            Kind::File
        }
    }

    /// What `name` stands for in the directory `semester`.
    pub fn course_kind(&self, semester: &str, name: &str) -> (r: Kind)
        ensures
            r == kind_of(
                self@.has_dir(semester@) && self@.semester(semester@).contains(name@),
                self@.has_course_dir(semester@, name@),
            ),
    {
        let i = find_semester(&self.image.semesters, semester);
        if i >= self.image.semesters.len() || !self.image.semesters[i].is_dir {
            return Kind::Missing;
        }
        let entry = &self.image.semesters[i];
        let j = find_course(&entry.courses, name);
        if j >= entry.courses.len() {
            Kind::Missing
        } else if entry.courses[j].is_dir {
            Kind::Directory
        } else {
            Kind::File
        }
    }

    /// The names of the entries of the entry point's directory, in their order.
    pub fn semester_names(&self) -> (r: Vec<String>)
        ensures
            r.deep_view() == self@.names(),
    {
        names_of_semesters(&self.image.semesters)
    }

    /// The names of the entries of the directory `semester`, in their order;
    /// none where there is no such entry.
    pub fn course_names(&self, semester: &str) -> (r: Vec<String>)
        ensures
            r.deep_view() == (if self@.contains(semester@) {
                self@.semester(semester@).names()
            } else {
                Seq::empty()
            }),
    {
        let i = find_semester(&self.image.semesters, semester);
        if i >= self.image.semesters.len() {
            let out: Vec<String> = Vec::new();
            out
        } else {
            names_of_courses(&self.image.semesters[i].courses)
        }
    }

    /// The names of the directories below the entry point, in their order.
    pub fn semester_dirs(&self) -> (r: Vec<String>)
        ensures
            r.deep_view() == self@.dir_names(),
    {
        dirs_of_semesters(&self.image.semesters)
    }

    /// The names of the directories in the directory `semester`, in their
    /// order; none where there is no such directory.
    pub fn course_dirs(&self, semester: &str) -> (r: Vec<String>)
        ensures
            r.deep_view() == self@.course_dir_names(semester@),
    {
        let i = find_semester(&self.image.semesters, semester);
        if i >= self.image.semesters.len() || !self.image.semesters[i].is_dir {
            let out: Vec<String> = Vec::new();
            out
        } else {
            dirs_of_courses(&self.image.semesters[i].courses)
        }
    }

    /// What lies at the path of a mirror.
    pub fn link_state(&self, slot: Slot) -> (r: LinkState)
        ensures
            r@ == self@.link(slot),
    {
        match slot {
            Slot::Semester => copy_link(&self.image.semester_link),
            Slot::Course => copy_link(&self.image.course_link),
        }
    }

    fn note(&mut self, action: Action)
        requires
            replay(old(self).base(), old(self).pending()) == old(self)@,
        ensures
            final(self).image == old(self).image,
            final(self).pending() == old(self).pending().push(action@),
            final(self).follows(*old(self)),
            final(self).changes() == (if is_creation(action@) {
                old(self).changes()
            } else {
                old(self).changes().push(action@)
            }),
            replay(final(self).base(), final(self).pending()) == apply(old(self)@, action@),
    {
        self.log.push(action);
    }
}

impl Disk {
    /// Makes the store's sidecar file where it is not there yet. Fails where
    /// the entry point is no directory.
    pub fn touch_store_file(&mut self) -> (r: Result<(), PersistenceError>)
        requires
            old(self).wf(),
        ensures
            final(self).wf(),
            final(self).only_made_files(*old(self)),
            final(self)@ == old(self)@,
            r == (if old(self)@.is_dir {
                Ok::<(), PersistenceError>(())
            } else {
                Err::<(), PersistenceError>(PersistenceError::Unwritable)
            }),
            r.is_ok() ==> final(self).has_store_file(),
            final(self).pending() == (if r.is_ok() && !old(self).has_store_file() {
                old(self).pending().push(ActionView::CreateStoreFile)
            } else {
                old(self).pending()
            }),
            final(self).notes() == old(self).notes().touch_store(r.is_ok()),
    {
        if !self.image.is_dir {
            return Err(PersistenceError::Unwritable);
        }
        if let PointerFile::Missing = self.image.file {
            self.note(Action::CreateStoreFile);
            self.image.file = PointerFile::Holds(None);
        }
        proof {
            let names = old(self)@.names();
            assert forall|key: FileKey|
                self.made().contains(key) == old(self).made().insert(FileKey::Store).contains(key) by {
                match key {
                    FileKey::Store => {},
                    FileKey::Semester(s) => {

                    },
                    FileKey::Course(s, c) => {

                    },
                }
            }
            assert(self.made() =~= old(self).made().insert(FileKey::Store));
        }
        Ok(())
    }

    /// Reads the store's sidecar file: the name of the active semester, if it
    /// holds one. Fails where the file is not there or cannot be understood.
    pub fn read_store_file(&self) -> (r: Result<Option<String>, PersistenceError>)
        ensures
            match r {
                Ok(value) => self.has_store_file() && self@.active == Stored::Holds(
                    opt_text(value),
                ),
                Err(e) => e == PersistenceError::Unreadable && (!self.has_store_file()
                    || self@.active is Corrupt),
            },
    {
        match &self.image.file {
            PointerFile::Holds(value) => Ok(copy_opt_text(value)),
            _ => Err(PersistenceError::Unreadable),
        }
    }

    /// Writes the name of the active semester, or none, into the store's
    /// sidecar file. Fails where the entry point is no directory.
    pub fn write_store_file(&mut self, value: Option<String>) -> (r: Result<(), PersistenceError>)
        requires
            old(self).wf(),
        ensures
            final(self).wf(),
            final(self).follows(*old(self)),
            final(self).changes() == (if r.is_ok() {
                old(self).changes().push(ActionView::WriteStoreFile { active: opt_text(value) })
            } else {
                old(self).changes()
            }),
            r == (if old(self)@.is_dir {
                Ok::<(), PersistenceError>(())
            } else {
                Err::<(), PersistenceError>(PersistenceError::Unwritable)
            }),
            r.is_ok() ==> final(self)@ == old(self)@.with_active(opt_text(value))
                && final(self).has_store_file() && final(self).pending() == old(self).pending().push(ActionView::WriteStoreFile { active: opt_text(value) }),
            r.is_err() ==> final(self)@ == old(self)@ && final(self).pending() == old(self).pending(),
            final(self).notes() == (if r.is_ok() {
                old(self).notes().write(
                    FileKey::Store,
                    ActionView::WriteStoreFile { active: opt_text(value) },
                )
            } else {
                old(self).notes()
            }),
    {
        if !self.image.is_dir {
            return Err(PersistenceError::Unwritable);
        }
        self.note(Action::WriteStoreFile { active: copy_opt_text(&value) });
        self.image.file = PointerFile::Holds(value);
        proof {
            let names = old(self)@.names();
            assert forall|key: FileKey|
                self.made().contains(key) == old(self).made().insert(FileKey::Store).contains(key) by {
                match key {
                    FileKey::Store => {},
                    FileKey::Semester(s) => {

                    },
                    FileKey::Course(s, c) => {

                    },
                }
            }
            assert(self.made() =~= old(self).made().insert(FileKey::Store));
        }
        Ok(())
    }

    /// Makes the sidecar file of the directory `semester` where it is not
    /// there yet. Fails where there is no such directory.
    pub fn touch_semester_file(&mut self, semester: &str) -> (r: Result<(), PersistenceError>)
        requires
            old(self).wf(),
        ensures
            final(self).wf(),
            final(self).only_made_files(*old(self)),
            final(self)@ == old(self)@,
            r == (if old(self)@.has_dir(semester@) {
                Ok::<(), PersistenceError>(())
            } else {
                Err::<(), PersistenceError>(PersistenceError::Unwritable)
            }),
            r.is_ok() ==> final(self).has_semester_file(semester@),
            final(self).pending() == (if r.is_ok() && !old(self).has_semester_file(semester@) {
                old(self).pending().push(ActionView::CreateSemesterFile { semester: semester@ })
            } else {
                old(self).pending()
            }),
            final(self).notes() == old(self).notes().touch_semester(r.is_ok(), semester@),
    {
        let i = find_semester(&self.image.semesters, semester);
        if i >= self.image.semesters.len() || !self.image.semesters[i].is_dir {
            return Err(PersistenceError::Unwritable);
        }
        if let PointerFile::Missing = self.image.semesters[i].file {
            self.note(Action::CreateSemesterFile { semester: semester.to_owned() });
            self.image.semesters[i].file = PointerFile::Holds(None);
            assert(self.image@.semesters =~= old(self).image@.semesters);
        }
        proof {
            let names = self@.names();
            crate::image::lemma_position(names, semester@);
            assert forall|key: FileKey|
                self.made().contains(key) == old(self).made().insert(
                    FileKey::Semester(semester@),
                ).contains(key) by {
                match key {
                    FileKey::Store => {},
                    FileKey::Semester(s) => {
                        crate::image::lemma_position(names, s);
                    },
                    FileKey::Course(s, c) => {
                        crate::image::lemma_position(names, s);
                    },
                }
            }
            assert(self.made() =~= old(self).made().insert(FileKey::Semester(semester@)));
        }
        Ok(())
    }

    /// Reads the sidecar file of the directory `semester`: the name of its
    /// active course, if it holds one. Fails where the file is not there or
    /// cannot be understood.
    pub fn read_semester_file(&self, semester: &str) -> (r: Result<
        Option<String>,
        PersistenceError,
    >)
        ensures
            match r {
                Ok(value) => self.has_semester_file(semester@) && self@.semester(semester@).active
                    == Stored::Holds(opt_text(value)),
                Err(e) => e == PersistenceError::Unreadable && (!self.has_semester_file(semester@)
                    || self@.semester(semester@).active is Corrupt),
            },
    {
        let i = find_semester(&self.image.semesters, semester);
        if i >= self.image.semesters.len() {
            return Err(PersistenceError::Unreadable);
        }
        match &self.image.semesters[i].file {
            PointerFile::Holds(value) => Ok(copy_opt_text(value)),
            _ => Err(PersistenceError::Unreadable),
        }
    }

    /// Writes the name of the active course, or none, into the sidecar file of
    /// the directory `semester`. Fails where there is no such directory.
    pub fn write_semester_file(&mut self, semester: &str, value: Option<String>) -> (r: Result<
        (),
        PersistenceError,
    >)
        requires
            old(self).wf(),
        ensures
            final(self).wf(),
            final(self).follows(*old(self)),
            final(self).changes() == (if r.is_ok() {
                old(self).changes().push(ActionView::WriteSemesterFile { semester: semester@, active: opt_text(value) })
            } else {
                old(self).changes()
            }),
            r == (if old(self)@.has_dir(semester@) {
                Ok::<(), PersistenceError>(())
            } else {
                Err::<(), PersistenceError>(PersistenceError::Unwritable)
            }),
            r.is_ok() ==> final(self)@ == old(self)@.with_active_course(
                semester@,
                opt_text(value),
            ) && final(self).has_semester_file(semester@) && final(self).pending() == old(self).pending().push(
                ActionView::WriteSemesterFile { semester: semester@, active: opt_text(value) },
            ),
            r.is_err() ==> final(self)@ == old(self)@ && final(self).pending() == old(self).pending(),
            final(self).notes() == (if r.is_ok() {
                old(self).notes().write(
                    FileKey::Semester(semester@),
                    ActionView::WriteSemesterFile { semester: semester@, active: opt_text(value) },
                )
            } else {
                old(self).notes()
            }),
    {
        let i = find_semester(&self.image.semesters, semester);
        if i >= self.image.semesters.len() || !self.image.semesters[i].is_dir {
            return Err(PersistenceError::Unwritable);
        }
        self.note(
            Action::WriteSemesterFile { semester: semester.to_owned(), active: copy_opt_text(&value) },
        );
        self.image.semesters[i].file = PointerFile::Holds(value);
        proof {
            let before = old(self)@;
            let entry = before.semester(semester@).with_active(opt_text(value));
            assert(self.image@.semesters =~= before.semesters.update(i as int, entry));
            before.lemma_with_entry(i as int, entry);
        }
        proof {
            let names = old(self)@.names();
            crate::image::lemma_position(names, semester@);
            assert forall|key: FileKey|
                self.made().contains(key) == old(self).made().insert(FileKey::Semester(semester@)).contains(key) by {
                match key {
                    FileKey::Store => {},
                    FileKey::Semester(s) => {
                        crate::image::lemma_position(names, s);
                    },
                    FileKey::Course(s, c) => {
                        crate::image::lemma_position(names, s);
                    },
                }
            }
            assert(self.made() =~= old(self).made().insert(FileKey::Semester(semester@)));
        }
        Ok(())
    }

    /// Makes the sidecar file of the directory `course` in `semester` where it
    /// is not there yet. Fails where there is no such directory.
    pub fn touch_course_file(&mut self, semester: &str, course: &str) -> (r: Result<
        (),
        PersistenceError,
    >)
        requires
            old(self).wf(),
        ensures
            final(self).wf(),
            final(self).only_made_files(*old(self)),
            final(self)@ == old(self)@,
            r == (if old(self)@.has_course_dir(semester@, course@) {
                Ok::<(), PersistenceError>(())
            } else {
                Err::<(), PersistenceError>(PersistenceError::Unwritable)
            }),
            r.is_ok() ==> final(self).has_course_file(semester@, course@),
            final(self).pending() == (if r.is_ok() && !old(self).has_course_file(
                semester@,
                course@,
            ) {
                old(self).pending().push(
                    ActionView::CreateCourseFile { semester: semester@, course: course@ },
                )
            } else {
                old(self).pending()
            }),
            final(self).notes() == old(self).notes().touch_course(r.is_ok(), semester@, course@),
    {
        let i = find_semester(&self.image.semesters, semester);
        if i >= self.image.semesters.len() || !self.image.semesters[i].is_dir {
            return Err(PersistenceError::Unwritable);
        }
        let j = find_course(&self.image.semesters[i].courses, course);
        if j >= self.image.semesters[i].courses.len() || !self.image.semesters[i].courses[j].is_dir {
            return Err(PersistenceError::Unwritable);
        }
        if let CourseFile::Missing = self.image.semesters[i].courses[j].file {
            self.note(
                Action::CreateCourseFile { semester: semester.to_owned(), course: course.to_owned() },
            );
            self.image.semesters[i].courses[j].file = CourseFile::Holds(
                CourseDO { name: None, grade: None, ects: None, degrees: None, uebk: None },
            );
            proof {
                let before = old(self).image.semesters@[i as int];
                let after = self.image.semesters@[i as int];
                assert(after@.courses =~= before@.courses);
                assert(self.image@.semesters =~= old(self).image@.semesters);
            }
        }
        proof {
            let names = old(self)@.names();
            crate::image::lemma_position(names, semester@);
            crate::image::lemma_position(old(self)@.semester(semester@).names(), course@);
            assert forall|key: FileKey|
                self.made().contains(key) == old(self).made().insert(FileKey::Course(semester@, course@)).contains(key) by {
                match key {
                    FileKey::Store => {},
                    FileKey::Semester(s) => {
                        crate::image::lemma_position(names, s);
                    },
                    FileKey::Course(s, c) => {
                        crate::image::lemma_position(names, s);
                        if old(self)@.contains(s) {
                            crate::image::lemma_position(old(self)@.semester(s).names(), c);
                        }
                    },
                }
            }
            assert(self.made() =~= old(self).made().insert(FileKey::Course(semester@, course@)));
        }
        Ok(())
    }

    /// Reads the sidecar file of the directory `course` in `semester`. Fails
    /// where the file is not there or cannot be understood.
    pub fn read_course_file(&self, semester: &str, course: &str) -> (r: Result<
        CourseDO,
        PersistenceError,
    >)
        ensures
            match r {
                Ok(data) => self.has_course_file(semester@, course@) && self@.semester(
                    semester@,
                ).course(course@).data == Stored::Holds(data@),
                Err(e) => e == PersistenceError::Unreadable && (!self.has_course_file(
                    semester@,
                    course@,
                ) || self@.semester(semester@).course(course@).data is Corrupt),
            },
    {
        let i = find_semester(&self.image.semesters, semester);
        if i >= self.image.semesters.len() {
            return Err(PersistenceError::Unreadable);
        }
        let j = find_course(&self.image.semesters[i].courses, course);
        if j >= self.image.semesters[i].courses.len() {
            return Err(PersistenceError::Unreadable);
        }
        match &self.image.semesters[i].courses[j].file {
            CourseFile::Holds(data) => Ok(copy_course_data(data)),
            _ => Err(PersistenceError::Unreadable),
        }
    }

    /// What making a directory named `name` below the entry point would
    /// give; nothing is made.
    pub fn semester_dir_outcome(&self, name: &str) -> (r: Result<(), PathError>)
        requires
            self.wf(),
        ensures
            r == self@.create_outcome(name@),
    {
        if !valid_name(name) {
            return Err(PathError::InvalidName);
        }
        if !self.image.is_dir {
            return Err(PathError::NotADirectory);
        }
        let i = find_semester(&self.image.semesters, name);
        if i < self.image.semesters.len() {
            return Err(PathError::AlreadyExists);
        }
        Ok(())
    }

    /// Makes an empty directory named `name` below the entry point. Fails
    /// where the name is no name of a directory, the entry point is no
    /// directory, or it holds the name already.
    pub fn create_semester_dir(&mut self, name: &str) -> (r: Result<(), PathError>)
        requires
            old(self).wf(),
        ensures
            final(self).wf(),
            final(self).follows(*old(self)),
            final(self).changes() == (if r.is_ok() {
                old(self).changes().push(ActionView::CreateSemesterDir { name: name@ })
            } else {
                old(self).changes()
            }),
            r == old(self)@.create_outcome(name@),
            r.is_ok() ==> final(self)@ == old(self)@.with_semester(name@) && final(self).pending() == old(self).pending().push(ActionView::CreateSemesterDir { name: name@ }),
            r.is_err() ==> final(self)@ == old(self)@ && final(self).pending() == old(self).pending(),
            r.is_ok() ==> !final(self).has_semester_file(name@),
            final(self).notes() == (if r.is_ok() {
                old(self).notes().noting(ActionView::CreateSemesterDir { name: name@ })
            } else {
                old(self).notes()
            }),
    {
        if !valid_name(name) {
            return Err(PathError::InvalidName);
        }
        if !self.image.is_dir {
            return Err(PathError::NotADirectory);
        }
        let i = find_semester(&self.image.semesters, name);
        if i < self.image.semesters.len() {
            return Err(PathError::AlreadyExists);
        }
        self.note(Action::CreateSemesterDir { name: name.to_owned() });
        self.image.semesters.push(
            SemesterDir {
                name: name.to_owned(),
                is_dir: true,
                file: PointerFile::Missing,
                courses: Vec::new(),
            },
        );
        proof {
            let before = old(self)@;
            assert(self.image.semesters@.last()@.courses =~= Seq::empty());
            assert(self.image@.semesters =~= before.with_semester(name@).semesters);
            before.lemma_with_semester(name@);
        }
        proof {
            let names = old(self)@.names();
            crate::image::lemma_position(names, name@);
            assert forall|key: FileKey|
                self.made().contains(key) == old(self).made().contains(key) by {
                match key {
                    FileKey::Store => {},
                    FileKey::Semester(s) => {
                        crate::image::lemma_position_push(names, name@, s);
                        crate::image::lemma_position(names, s);
                    },
                    FileKey::Course(s, c) => {
                        crate::image::lemma_position_push(names, name@, s);
                        crate::image::lemma_position(names, s);
                    },
                }
            }
            assert(self.made() =~= old(self).made());
        }
        Ok(())
    }

    /// Removes the directory `name` below the entry point with all that it
    /// holds. Fails where there is no such directory.
    pub fn remove_semester_dir(&mut self, name: &str) -> (r: Result<(), PersistenceError>)
        requires
            old(self).wf(),
        ensures
            final(self).wf(),
            final(self).follows(*old(self)),
            final(self).changes() == (if r.is_ok() {
                old(self).changes().push(ActionView::RemoveSemesterDir { name: name@ })
            } else {
                old(self).changes()
            }),
            r == (if old(self)@.has_dir(name@) {
                Ok::<(), PersistenceError>(())
            } else {
                Err::<(), PersistenceError>(PersistenceError::Unwritable)
            }),
            r.is_ok() ==> final(self)@ == old(self)@.without_semester(name@) && final(self).pending() == old(self).pending().push(ActionView::RemoveSemesterDir { name: name@ }),
            r.is_err() ==> final(self)@ == old(self)@ && final(self).pending() == old(self).pending(),
            final(self).notes() == (if r.is_ok() {
                old(self).notes().remove_semester(name@)
            } else {
                old(self).notes()
            }),
    {
        let i = find_semester(&self.image.semesters, name);
        if i >= self.image.semesters.len() || !self.image.semesters[i].is_dir {
            return Err(PersistenceError::Unwritable);
        }
        self.note(Action::RemoveSemesterDir { name: name.to_owned() });
        let _ = self.image.semesters.remove(i);
        proof {
            let before = old(self)@;
            assert(self.image@.semesters =~= before.semesters.remove(i as int));
            before.lemma_without_semester(name@);
        }
        proof {
            let names = old(self)@.names();
            crate::image::lemma_position(names, name@);
            assert(self@.names() =~= names.remove(i as int));
            assert forall|key: FileKey|
                self.made().contains(key) == old(self).notes().remove_semester(name@).made.contains(key) by {
                match key {
                    FileKey::Store => {},
                    FileKey::Semester(s) => {
                        crate::image::lemma_position_remove(names, i as int, s);
                        crate::image::lemma_position(names, s);
                    },
                    FileKey::Course(s, c) => {
                        crate::image::lemma_position_remove(names, i as int, s);
                        crate::image::lemma_position(names, s);
                    },
                }
            }
            assert(self.made() =~= old(self).notes().remove_semester(name@).made);
        }
        Ok(())
    }

    /// Makes an empty directory named `name` in the directory `semester`.
    /// Fails where the name is no name of a directory, there is no such
    /// directory, or it holds the name already.
    pub fn create_course_dir(&mut self, semester: &str, name: &str) -> (r: Result<(), PathError>)
        requires
            old(self).wf(),
        ensures
            final(self).wf(),
            final(self).follows(*old(self)),
            final(self).changes() == (if r.is_ok() {
                old(self).changes().push(ActionView::CreateCourseDir { semester: semester@, name: name@ })
            } else {
                old(self).changes()
            }),
            r == old(self)@.create_course_outcome(semester@, name@),
            r.is_ok() ==> final(self)@ == old(self)@.with_course(semester@, name@) && final(self).pending() == old(self).pending().push(
                ActionView::CreateCourseDir { semester: semester@, name: name@ },
            ),
            r.is_err() ==> final(self)@ == old(self)@ && final(self).pending() == old(self).pending(),
            r.is_ok() ==> !final(self).has_course_file(semester@, name@),
            final(self).notes() == (if r.is_ok() {
                old(self).notes().noting(
                    ActionView::CreateCourseDir { semester: semester@, name: name@ },
                )
            } else {
                old(self).notes()
            }),
    {
        if !valid_name(name) {
            return Err(PathError::InvalidName);
        }
        let i = find_semester(&self.image.semesters, semester);
        if i >= self.image.semesters.len() || !self.image.semesters[i].is_dir {
            return Err(PathError::NotADirectory);
        }
        let j = find_course(&self.image.semesters[i].courses, name);
        if j < self.image.semesters[i].courses.len() {
            return Err(PathError::AlreadyExists);
        }
        self.note(Action::CreateCourseDir { semester: semester.to_owned(), name: name.to_owned() });
        self.image.semesters[i].courses.push(
            CourseDir { name: name.to_owned(), is_dir: true, file: CourseFile::Missing },
        );
        proof {
            let before = old(self)@;
            let entry = before.semester(semester@).with_course(name@);
            assert(self.image.semesters@[i as int]@.courses =~= entry.courses);
            assert(self.image@.semesters =~= before.semesters.update(i as int, entry));
            before.semester(semester@).lemma_with_course(name@);
            before.lemma_with_entry(i as int, entry);
        }
        proof {
            let names = old(self)@.names();
            crate::image::lemma_position(names, semester@);
            crate::image::lemma_position(old(self)@.semester(semester@).names(), name@);
            assert forall|key: FileKey|
                self.made().contains(key) == old(self).made().contains(key) by {
                match key {
                    FileKey::Store => {},
                    FileKey::Semester(s) => {
                        crate::image::lemma_position(names, s);
                    },
                    FileKey::Course(s, c) => {
                        crate::image::lemma_position(names, s);
                        if s == semester@ {
                            let entries = old(self)@.semester(s).names();
                            crate::image::lemma_position_push(entries, name@, c);
                            crate::image::lemma_position(entries, c);
                        }
                    },
                }
            }
            assert(self.made() =~= old(self).made());
        }
        Ok(())
    }

    /// Removes the directory `name` in the directory `semester` with all that
    /// it holds. Fails where there is no such directory.
    pub fn remove_course_dir(&mut self, semester: &str, name: &str) -> (r: Result<
        (),
        PersistenceError,
    >)
        requires
            old(self).wf(),
        ensures
            final(self).wf(),
            final(self).follows(*old(self)),
            final(self).changes() == (if r.is_ok() {
                old(self).changes().push(ActionView::RemoveCourseDir { semester: semester@, name: name@ })
            } else {
                old(self).changes()
            }),
            r == (if old(self)@.has_course_dir(semester@, name@) {
                Ok::<(), PersistenceError>(())
            } else {
                Err::<(), PersistenceError>(PersistenceError::Unwritable)
            }),
            r.is_ok() ==> final(self)@ == old(self)@.without_course(semester@, name@) && final(self).pending() == old(self).pending().push(
                ActionView::RemoveCourseDir { semester: semester@, name: name@ },
            ),
            r.is_err() ==> final(self)@ == old(self)@ && final(self).pending() == old(self).pending(),
            final(self).notes() == (if r.is_ok() {
                old(self).notes().remove_course(semester@, name@)
            } else {
                old(self).notes()
            }),
    {
        let i = find_semester(&self.image.semesters, semester);
        if i >= self.image.semesters.len() || !self.image.semesters[i].is_dir {
            return Err(PersistenceError::Unwritable);
        }
        let j = find_course(&self.image.semesters[i].courses, name);
        if j >= self.image.semesters[i].courses.len() || !self.image.semesters[i].courses[j].is_dir {
            return Err(PersistenceError::Unwritable);
        }
        self.note(Action::RemoveCourseDir { semester: semester.to_owned(), name: name.to_owned() });
        let _ = self.image.semesters[i].courses.remove(j);
        proof {
            let before = old(self)@;
            let entry = before.semester(semester@).without_course(name@);
            assert(self.image.semesters@[i as int]@.courses =~= entry.courses);
            assert(self.image@.semesters =~= before.semesters.update(i as int, entry));
            before.semester(semester@).lemma_without_course(name@);
            before.lemma_with_entry(i as int, entry);
        }
        proof {
            let names = old(self)@.names();
            crate::image::lemma_position(names, semester@);
            crate::image::lemma_position(old(self)@.semester(semester@).names(), name@);
            assert(self@.semester(semester@).names() =~= old(self)@.semester(
                semester@,
            ).names().remove(j as int));
            assert forall|key: FileKey|
                self.made().contains(key) == old(self).notes().remove_course(semester@, name@).made.contains(key) by {
                match key {
                    FileKey::Store => {},
                    FileKey::Semester(s) => {
                        crate::image::lemma_position(names, s);
                    },
                    FileKey::Course(s, c) => {
                        crate::image::lemma_position(names, s);
                        if s == semester@ {
                            crate::image::lemma_position_remove(
                                old(self)@.semester(s).names(),
                                j as int,
                                c,
                            );
                            crate::image::lemma_position(old(self)@.semester(s).names(), c);
                        }
                    },
                }
            }
            assert(self.made() =~= old(self).notes().remove_course(semester@, name@).made);
        }
        Ok(())
    }

    /// Gives the entry `from` of the directory `semester` the name `to`.
    /// Fails where the new name is no name of a directory, there is no such
    /// directory or entry, or the directory holds the new name already.
    pub fn rename_course_dir(&mut self, semester: &str, from: &str, to: &str) -> (r: Result<
        (),
        PathError,
    >)
        requires
            old(self).wf(),
        ensures
            final(self).wf(),
            final(self).follows(*old(self)),
            final(self).changes() == (if r.is_ok() {
                old(self).changes().push(ActionView::RenameCourseDir { semester: semester@, from: from@, to: to@ })
            } else {
                old(self).changes()
            }),
            r == old(self)@.rename_course_outcome(semester@, from@, to@),
            r.is_ok() ==> final(self)@ == old(self)@.with_course_renamed(semester@, from@, to@)
                && final(self).pending() == old(self).pending().push(
                ActionView::RenameCourseDir { semester: semester@, from: from@, to: to@ },
            ),
            r.is_err() ==> final(self)@ == old(self)@ && final(self).pending() == old(self).pending(),
            final(self).notes() == (if r.is_ok() {
                old(self).notes().rename_course(semester@, from@, to@)
            } else {
                old(self).notes()
            }),
    {
        if !valid_name(to) {
            return Err(PathError::InvalidName);
        }
        let i = find_semester(&self.image.semesters, semester);
        if i >= self.image.semesters.len() || !self.image.semesters[i].is_dir {
            return Err(PathError::NotADirectory);
        }
        let k = find_course(&self.image.semesters[i].courses, to);
        if k < self.image.semesters[i].courses.len() {
            return Err(PathError::AlreadyExists);
        }
        let j = find_course(&self.image.semesters[i].courses, from);
        if j >= self.image.semesters[i].courses.len() {
            return Err(PathError::NotADirectory);
        }
        self.note(
            Action::RenameCourseDir {
                semester: semester.to_owned(),
                from: from.to_owned(),
                to: to.to_owned(),
            },
        );
        self.image.semesters[i].courses[j].name = to.to_owned();
        proof {
            let before = old(self)@;
            let entry = before.semester(semester@).with_course_renamed(from@, to@);
            assert(self.image.semesters@[i as int]@.courses =~= entry.courses);
            assert(self.image@.semesters =~= before.semesters.update(i as int, entry));
            before.semester(semester@).lemma_with_course_renamed(from@, to@);
            before.lemma_with_entry(i as int, entry);
        }
        proof {
            let names = old(self)@.names();
            crate::image::lemma_position(names, semester@);
            crate::image::lemma_position(old(self)@.semester(semester@).names(), from@);
            crate::image::lemma_position(old(self)@.semester(semester@).names(), to@);
            assert forall|key: FileKey|
                self.made().contains(key) == old(self).notes().rename_course(semester@, from@, to@).made.contains(key) by {
                match key {
                    FileKey::Store => {},
                    FileKey::Semester(s) => {
                        crate::image::lemma_position(names, s);
                    },
                    FileKey::Course(s, c) => {
                        crate::image::lemma_position(names, s);
                        if s == semester@ {
                            crate::image::lemma_position_update(
                                old(self)@.semester(s).names(),
                                j as int,
                                to@,
                                c,
                            );
                            crate::image::lemma_position(old(self)@.semester(s).names(), c);
                        }
                    },
                }
            }
            assert(self.made() =~= old(self).notes().rename_course(semester@, from@, to@).made);
        }
        Ok(())
    }

    /// Makes a symlink to `target` at the path of a mirror. Fails where
    /// something lies there already.
    pub fn make_link(&mut self, slot: Slot, target: &str) -> (r: Result<(), PersistenceError>)
        requires
            old(self).wf(),
        ensures
            final(self).wf(),
            final(self).follows(*old(self)),
            final(self).changes() == (if r.is_ok() {
                old(self).changes().push(ActionView::Link { slot: slot, target: target@ })
            } else {
                old(self).changes()
            }),
            r == (if old(self)@.link(slot) is Absent {
                Ok::<(), PersistenceError>(())
            } else {
                Err::<(), PersistenceError>(PersistenceError::Unwritable)
            }),
            r.is_ok() ==> final(self)@ == old(self)@.with_link(slot, LinkView::Link(target@))
                && final(self).pending() == old(self).pending().push(
                ActionView::Link { slot: slot, target: target@ },
            ),
            r.is_err() ==> final(self)@ == old(self)@ && final(self).pending() == old(self).pending(),
            final(self).notes() == (if r.is_ok() {
                old(self).notes().noting(ActionView::Link { slot: slot, target: target@ })
            } else {
                old(self).notes()
            }),
    {
        let free = match slot {
            Slot::Semester => matches!(self.image.semester_link, LinkState::Absent),
            Slot::Course => matches!(self.image.course_link, LinkState::Absent),
        };
        if !free {
            return Err(PersistenceError::Unwritable);
        }
        self.note(Action::Link { slot, target: target.to_owned() });
        match slot {
            Slot::Semester => {
                self.image.semester_link = LinkState::Link(target.to_owned());
            },
            Slot::Course => {
                self.image.course_link = LinkState::Link(target.to_owned());
            },
        }
        proof {
            let names = old(self)@.names();
            assert forall|key: FileKey|
                self.made().contains(key) == old(self).made().contains(key) by {
                match key {
                    FileKey::Store => {},
                    FileKey::Semester(s) => {

                    },
                    FileKey::Course(s, c) => {

                    },
                }
            }
            assert(self.made() =~= old(self).made());
        }
        Ok(())
    }

    /// Removes the symlink at the path of a mirror, if one is there.
    pub fn drop_link(&mut self, slot: Slot)
        requires
            old(self).wf(),
        ensures
            final(self).wf(),
            final(self).follows(*old(self)),
            final(self).changes() == (if old(self)@.link(slot) is Link {
                old(self).changes().push(ActionView::Unlink { slot: slot })
            } else {
                old(self).changes()
            }),
            final(self)@ == (if old(self)@.link(slot) is Link {
                old(self)@.with_link(slot, LinkView::Absent)
            } else {
                old(self)@
            }),
            final(self).pending() == (if old(self)@.link(slot) is Link {
                old(self).pending().push(ActionView::Unlink { slot: slot })
            } else {
                old(self).pending()
            }),
            final(self).notes() == (if old(self)@.link(slot) is Link {
                old(self).notes().noting(ActionView::Unlink { slot: slot })
            } else {
                old(self).notes()
            }),
    {
        let linked = match slot {
            Slot::Semester => matches!(self.image.semester_link, LinkState::Link(_)),
            Slot::Course => matches!(self.image.course_link, LinkState::Link(_)),
        };
        if linked {
            self.note(Action::Unlink { slot });
            match slot {
                Slot::Semester => {
                    self.image.semester_link = LinkState::Absent;
                },
                Slot::Course => {
                    self.image.course_link = LinkState::Absent;
                },
            }
        }
        proof {
            let names = old(self)@.names();
            assert forall|key: FileKey|
                self.made().contains(key) == old(self).made().contains(key) by {
                match key {
                    FileKey::Store => {},
                    FileKey::Semester(s) => {

                    },
                    FileKey::Course(s, c) => {

                    },
                }
            }
            assert(self.made() =~= old(self).made());
        }
    }
}

/// Whatever steps of the library lead from one state of the directory to
/// another: the actions that they noted, done in their order on the image as
/// it was, give the image as it is.
pub proof fn lemma_pending_leads(before: Disk, after: Disk)
    requires
        before.wf(),
        after.wf(),
        after.follows(before),
    ensures
        replay(before@, after.pending().skip(before.pending().len() as int)) == after@,
{
    let noted = after.pending().skip(before.pending().len() as int);
    assert(after.pending() =~= before.pending() + noted);
    lemma_replay_add(after.base(), before.pending(), noted);
}

} // verus!
