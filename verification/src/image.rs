//! The image of a study directory: what lies below the entry point, two
//! levels deep, with the sidecar files and the two mirrors. This is plain
//! data; the views say what the rest of the library reads from it.

use crate::error::PathError;
use crate::text::{all_dir_names, is_dir_name, opt_text};
use vstd::prelude::*;

verus! {

/// What a course's sidecar file holds. The grade is kept as the bits of the
/// 32-bit float that the file holds.
#[derive(Debug, PartialEq, Eq)]
pub struct CourseDO {
    pub name: Option<String>,
    pub grade: Option<u32>,
    pub ects: Option<u8>,
    pub degrees: Option<Vec<String>>,
    pub uebk: Option<bool>,
}

/// What the store's sidecar file holds.
#[derive(Debug, PartialEq, Eq)]
pub struct StoreDO {
    pub active_semester: Option<String>,
}

/// What a semester's sidecar file holds.
#[derive(Debug, PartialEq, Eq)]
pub struct SemesterDO {
    pub active_course: Option<String>,
}

/// The state of a course's sidecar file.
#[derive(Debug, PartialEq, Eq)]
pub enum CourseFile {
    /// There is no file yet.
    Missing,
    /// The file cannot be read or understood.
    Corrupt,
    Holds(CourseDO),
}

/// The state of a sidecar file that holds one optional name: the active
/// semester of the store, or the active course of a semester.
#[derive(Debug, PartialEq, Eq)]
pub enum PointerFile {
    /// There is no file yet.
    Missing,
    /// The file cannot be read or understood.
    Corrupt,
    Holds(Option<String>),
}

/// What lies at the path of a mirror.
#[derive(Debug, PartialEq, Eq)]
pub enum LinkState {
    Absent,
    /// A symlink to the given path.
    Link(String),
    /// Something that is no symlink.
    Other,
}

/// One of the two mirrors.
#[derive(Debug, Clone, Copy, PartialEq, Eq, Structural)]
pub enum Slot {
    Semester,
    Course,
}

/// An entry of a semester's directory.
#[derive(Debug, PartialEq, Eq)]
pub struct CourseDir {
    pub name: String,
    pub is_dir: bool,
    pub file: CourseFile,
}

/// An entry of the entry point's directory.
#[derive(Debug, PartialEq, Eq)]
pub struct SemesterDir {
    pub name: String,
    pub is_dir: bool,
    pub file: PointerFile,
    pub courses: Vec<CourseDir>,
}

/// The entry point with what lies below it, and the two mirrors.
#[derive(Debug, PartialEq, Eq)]
pub struct Image {
    pub root: String,
    pub is_dir: bool,
    pub file: PointerFile,
    pub semesters: Vec<SemesterDir>,
    pub semester_link: LinkState,
    pub course_link: LinkState,
}

/// What a sidecar file gives when it is read; a file that is not there yet
/// reads as an empty one.
pub enum Stored<T> {
    Corrupt,
    Holds(T),
}

/// What a course's sidecar file holds, in contracts.
pub struct CourseDOView {
    pub name: Option<Seq<char>>,
    pub grade: Option<u32>,
    pub ects: Option<u8>,
    pub degrees: Option<Seq<Seq<char>>>,
    pub uebk: Option<bool>,
}

/// What lies at the path of a mirror, in contracts.
pub enum LinkView {
    Absent,
    Link(Seq<char>),
    Other,
}

/// An entry of a semester's directory, in contracts.
pub struct CourseDirView {
    pub name: Seq<char>,
    pub is_dir: bool,
    pub data: Stored<CourseDOView>,
}

/// An entry of the entry point's directory, in contracts.
pub struct SemesterDirView {
    pub name: Seq<char>,
    pub is_dir: bool,
    pub active: Stored<Option<Seq<char>>>,
    pub courses: Seq<CourseDirView>,
}

/// The image in contracts: what can be read from the directory.
pub struct DiskView {
    pub root: Seq<char>,
    pub is_dir: bool,
    pub active: Stored<Option<Seq<char>>>,
    pub semesters: Seq<SemesterDirView>,
    pub semester_link: LinkView,
    pub course_link: LinkView,
}

/// The data of a course whose sidecar file is empty.
pub open spec fn no_course_data() -> CourseDOView {
    CourseDOView { name: None, grade: None, ects: None, degrees: None, uebk: None }
}

impl View for CourseDO {
    type V = CourseDOView;

    open spec fn view(&self) -> CourseDOView {
        CourseDOView {
            name: opt_text(self.name),
            grade: self.grade,
            ects: self.ects,
            degrees: self.degrees.deep_view(),
            uebk: self.uebk,
        }
    }
}

impl View for CourseFile {
    type V = Stored<CourseDOView>;

    open spec fn view(&self) -> Stored<CourseDOView> {
        match self {
            CourseFile::Missing => Stored::Holds(no_course_data()),
            CourseFile::Corrupt => Stored::Corrupt,
            CourseFile::Holds(data) => Stored::Holds(data@),
        }
    }
}

impl View for PointerFile {
    type V = Stored<Option<Seq<char>>>;

    open spec fn view(&self) -> Stored<Option<Seq<char>>> {
        match self {
            PointerFile::Missing => Stored::Holds(None),
            PointerFile::Corrupt => Stored::Corrupt,
            PointerFile::Holds(name) => Stored::Holds(opt_text(*name)),
        }
    }
}

impl View for LinkState {
    type V = LinkView;

    open spec fn view(&self) -> LinkView {
        match self {
            LinkState::Absent => LinkView::Absent,
            LinkState::Link(target) => LinkView::Link(target@),
            LinkState::Other => LinkView::Other,
        }
    }
}

impl View for CourseDir {
    type V = CourseDirView;

    open spec fn view(&self) -> CourseDirView {
        CourseDirView { name: self.name@, is_dir: self.is_dir, data: self.file@ }
    }
}

/// The views of a list of entries of a semester's directory.
pub open spec fn course_views(courses: Seq<CourseDir>) -> Seq<CourseDirView> {
    courses.map_values(|c: CourseDir| c@)
}

impl View for SemesterDir {
    type V = SemesterDirView;

    open spec fn view(&self) -> SemesterDirView {
        SemesterDirView {
            name: self.name@,
            is_dir: self.is_dir,
            active: self.file@,
            courses: course_views(self.courses@),
        }
    }
}

/// The views of a list of entries of the entry point's directory.
pub open spec fn semester_views(semesters: Seq<SemesterDir>) -> Seq<SemesterDirView> {
    semesters.map_values(|s: SemesterDir| s@)
}

impl View for Image {
    type V = DiskView;

    open spec fn view(&self) -> DiskView {
        DiskView {
            root: self.root@,
            is_dir: self.is_dir,
            active: self.file@,
            semesters: semester_views(self.semesters@),
            semester_link: self.semester_link@,
            course_link: self.course_link@,
        }
    }
}

/// The place of the first of `names` that equals `name`, or the length of
/// `names` where none does.
pub open spec fn position(names: Seq<Seq<char>>, name: Seq<char>) -> int
    decreases names.len(),
{
    if names.len() == 0 {
        0
    } else if names[0] == name {
        0
    } else {
        1 + position(names.skip(1), name)
    }
}

/// The position of a name lies within the list or at its end; it holds the
/// name if it lies within, and no place before it does.
pub proof fn lemma_position(names: Seq<Seq<char>>, name: Seq<char>)
    ensures
        0 <= position(names, name) <= names.len(),
        position(names, name) < names.len() ==> names[position(names, name)] == name,
        forall|k: int| 0 <= k < position(names, name) ==> names[k] != name,
    decreases names.len(),
{
    if names.len() > 0 && names[0] != name {
        let rest = names.skip(1);
        lemma_position(rest, name);
        assert forall|k: int| 0 <= k < position(names, name) implies names[k] != name by {
            if k > 0 {
                assert(rest[k - 1] == names[k]);
            }
        }
    }
}

/// The first place that holds `name` is its position.
pub proof fn lemma_position_is(names: Seq<Seq<char>>, name: Seq<char>, i: int)
    requires
        0 <= i <= names.len(),
        i < names.len() ==> names[i] == name,
        forall|k: int| 0 <= k < i ==> names[k] != name,
    ensures
        position(names, name) == i,
{
    lemma_position(names, name);
}

impl SemesterDirView {
    /// The names of the entries, in their order.
    pub open spec fn names(self) -> Seq<Seq<char>> {
        self.courses.map_values(|c: CourseDirView| c.name)
    }

    /// The place of the entry named `name`, or the number of entries.
    pub open spec fn index(self, name: Seq<char>) -> int {
        position(self.names(), name)
    }

    /// Whether anything named `name` lies in this directory.
    pub open spec fn contains(self, name: Seq<char>) -> bool {
        self.index(name) < self.courses.len()
    }

    /// Whether a directory named `name` lies in this directory.
    pub open spec fn has_dir(self, name: Seq<char>) -> bool {
        self.contains(name) && self.courses[self.index(name)].is_dir
    }

    /// The entry named `name`.
    pub open spec fn course(self, name: Seq<char>) -> CourseDirView
        recommends
            self.contains(name),
    {
        self.courses[self.index(name)]
    }

    /// No two entries share a name, every name can name an entry of a
    /// directory, and only a directory has entries.
    pub open spec fn wf(self) -> bool {
        &&& self.names().no_duplicates()
        &&& all_dir_names(self.names())
        &&& !self.is_dir ==> self.courses.len() == 0
    }

    /// This directory with a new, empty course directory at its end.
    pub open spec fn with_course(self, name: Seq<char>) -> SemesterDirView {
        SemesterDirView {
            courses: self.courses.push(
                CourseDirView { name: name, is_dir: true, data: Stored::Holds(no_course_data()) },
            ),
            ..self
        }
    }

    /// This directory without the entry named `name`.
    pub open spec fn without_course(self, name: Seq<char>) -> SemesterDirView {
        if self.contains(name) {
            SemesterDirView { courses: self.courses.remove(self.index(name)), ..self }
        } else {
            self
        }
    }

    /// This directory with the entry `from` named `to` instead.
    pub open spec fn with_course_renamed(self, from: Seq<char>, to: Seq<char>) -> SemesterDirView {
        if self.contains(from) {
            SemesterDirView {
                courses: self.courses.update(
                    self.index(from),
                    CourseDirView { name: to, ..self.course(from) },
                ),
                ..self
            }
        } else {
            self
        }
    }

    /// This directory with `value` in its sidecar file.
    pub open spec fn with_active(self, value: Option<Seq<char>>) -> SemesterDirView {
        SemesterDirView { active: Stored::Holds(value), ..self }
    }
}

impl DiskView {
    /// The names of the entries of the entry point's directory, in their order.
    pub open spec fn names(self) -> Seq<Seq<char>> {
        self.semesters.map_values(|s: SemesterDirView| s.name)
    }

    /// The place of the entry named `name`, or the number of entries.
    pub open spec fn index(self, name: Seq<char>) -> int {
        position(self.names(), name)
    }

    /// Whether anything named `name` lies in the entry point's directory.
    pub open spec fn contains(self, name: Seq<char>) -> bool {
        self.index(name) < self.semesters.len()
    }

    /// Whether a directory named `name` lies in the entry point's directory.
    pub open spec fn has_dir(self, name: Seq<char>) -> bool {
        self.contains(name) && self.semesters[self.index(name)].is_dir
    }

    /// The entry named `name`.
    pub open spec fn semester(self, name: Seq<char>) -> SemesterDirView
        recommends
            self.contains(name),
    {
        self.semesters[self.index(name)]
    }

    /// Whether the directory `semester` holds a directory named `name`.
    pub open spec fn has_course_dir(self, semester: Seq<char>, name: Seq<char>) -> bool {
        self.has_dir(semester) && self.semester(semester).has_dir(name)
    }

    /// What lies at the path of a mirror.
    pub open spec fn link(self, slot: Slot) -> LinkView {
        match slot {
            Slot::Semester => self.semester_link,
            Slot::Course => self.course_link,
        }
    }

    /// No two entries of a directory share a name, every name can name an
    /// entry of a directory, and only a directory has entries.
    pub open spec fn wf(self) -> bool {
        &&& self.names().no_duplicates()
        &&& all_dir_names(self.names())
        &&& !self.is_dir ==> self.semesters.len() == 0
        &&& forall|i: int| 0 <= i < self.semesters.len() ==> (#[trigger] self.semesters[i]).wf()
    }

    /// The image with the entry at place `i` replaced.
    pub open spec fn with_entry(self, i: int, entry: SemesterDirView) -> DiskView {
        DiskView { semesters: self.semesters.update(i, entry), ..self }
    }

    /// The image with a new, empty semester directory at the end.
    pub open spec fn with_semester(self, name: Seq<char>) -> DiskView {
        DiskView {
            semesters: self.semesters.push(
                SemesterDirView {
                    name: name,
                    is_dir: true,
                    active: Stored::Holds(None),
                    courses: Seq::empty(),
                },
            ),
            ..self
        }
    }

    /// The image without the entry named `name`.
    pub open spec fn without_semester(self, name: Seq<char>) -> DiskView {
        if self.contains(name) {
            DiskView { semesters: self.semesters.remove(self.index(name)), ..self }
        } else {
            self
        }
    }

    /// The image with `value` in the store's sidecar file.
    pub open spec fn with_active(self, value: Option<Seq<char>>) -> DiskView {
        DiskView { active: Stored::Holds(value), ..self }
    }

    /// The image with a new, empty course directory in the directory `semester`.
    pub open spec fn with_course(self, semester: Seq<char>, name: Seq<char>) -> DiskView {
        if self.contains(semester) {
            self.with_entry(self.index(semester), self.semester(semester).with_course(name))
        } else {
            self
        }
    }

    /// The image without the entry `name` of the directory `semester`.
    pub open spec fn without_course(self, semester: Seq<char>, name: Seq<char>) -> DiskView {
        if self.contains(semester) {
            self.with_entry(self.index(semester), self.semester(semester).without_course(name))
        } else {
            self
        }
    }

    /// The image with the entry `from` of the directory `semester` named `to` instead.
    pub open spec fn with_course_renamed(
        self,
        semester: Seq<char>,
        from: Seq<char>,
        to: Seq<char>,
    ) -> DiskView {
        if self.contains(semester) {
            self.with_entry(
                self.index(semester),
                self.semester(semester).with_course_renamed(from, to),
            )
        } else {
            self
        }
    }

    /// The image with `value` in the sidecar file of the directory `semester`.
    pub open spec fn with_active_course(self, semester: Seq<char>, value: Option<Seq<char>>) -> DiskView {
        if self.contains(semester) {
            self.with_entry(self.index(semester), self.semester(semester).with_active(value))
        } else {
            self
        }
    }

    /// The image with `link` at the path of a mirror.
    pub open spec fn with_link(self, slot: Slot, link: LinkView) -> DiskView {
        match slot {
            Slot::Semester => DiskView { semester_link: link, ..self },
            Slot::Course => DiskView { course_link: link, ..self },
        }
    }
}

impl SemesterDirView {
    /// What making a directory named `name` in this one gives.
    pub open spec fn create_outcome(self, name: Seq<char>) -> Result<(), PathError> {
        if !is_dir_name(name) {
            Err(PathError::InvalidName)
        } else if !self.is_dir {
            Err(PathError::NotADirectory)
        } else if self.contains(name) {
            Err(PathError::AlreadyExists)
        } else {
            Ok(())
        }
    }

    /// What renaming the entry `from` to `to` gives.
    pub open spec fn rename_outcome(self, from: Seq<char>, to: Seq<char>) -> Result<(), PathError> {
        if !is_dir_name(to) {
            Err(PathError::InvalidName)
        } else if !self.is_dir {
            Err(PathError::NotADirectory)
        } else if self.contains(to) {
            Err(PathError::AlreadyExists)
        } else if !self.contains(from) {
            Err(PathError::NotADirectory)
        } else {
            Ok(())
        }
    }
}

impl DiskView {
    /// What making a directory named `name` below the entry point gives.
    pub open spec fn create_outcome(self, name: Seq<char>) -> Result<(), PathError> {
        if !is_dir_name(name) {
            Err(PathError::InvalidName)
        } else if !self.is_dir {
            Err(PathError::NotADirectory)
        } else if self.contains(name) {
            Err(PathError::AlreadyExists)
        } else {
            Ok(())
        }
    }

    /// What making a directory named `name` in the directory `semester` gives.
    pub open spec fn create_course_outcome(self, semester: Seq<char>, name: Seq<char>) -> Result<
        (),
        PathError,
    > {
        if !is_dir_name(name) {
            Err(PathError::InvalidName)
        } else if !self.has_dir(semester) {
            Err(PathError::NotADirectory)
        } else {
            self.semester(semester).create_outcome(name)
        }
    }

    /// What renaming the entry `from` of the directory `semester` to `to` gives.
    pub open spec fn rename_course_outcome(
        self,
        semester: Seq<char>,
        from: Seq<char>,
        to: Seq<char>,
    ) -> Result<(), PathError> {
        if !is_dir_name(to) {
            Err(PathError::InvalidName)
        } else if !self.has_dir(semester) {
            Err(PathError::NotADirectory)
        } else {
            self.semester(semester).rename_outcome(from, to)
        }
    }
}

/// The names of the directories among the entries of a semester's directory, in their order.
pub open spec fn course_dir_names(entries: Seq<CourseDirView>) -> Seq<Seq<char>>
    decreases entries.len(),
{
    if entries.len() == 0 {
        Seq::empty()
    } else if entries.last().is_dir {
        course_dir_names(entries.drop_last()).push(entries.last().name)
    } else {
        course_dir_names(entries.drop_last())
    }
}

/// The names of the directories among the entries of the entry point's directory, in their order.
pub open spec fn semester_dir_names(entries: Seq<SemesterDirView>) -> Seq<Seq<char>>
    decreases entries.len(),
{
    if entries.len() == 0 {
        Seq::empty()
    } else if entries.last().is_dir {
        semester_dir_names(entries.drop_last()).push(entries.last().name)
    } else {
        semester_dir_names(entries.drop_last())
    }
}

impl SemesterDirView {
    /// The names of the directories in this one, in their order.
    pub open spec fn dir_names(self) -> Seq<Seq<char>> {
        course_dir_names(self.courses)
    }
}

impl DiskView {
    /// The names of the directories below the entry point, in their order.
    pub open spec fn dir_names(self) -> Seq<Seq<char>> {
        semester_dir_names(self.semesters)
    }

    /// The names of the directories in the directory `semester`, in their
    /// order; none where there is no such directory.
    pub open spec fn course_dir_names(self, semester: Seq<char>) -> Seq<Seq<char>> {
        if self.has_dir(semester) {
            self.semester(semester).dir_names()
        } else {
            Seq::empty()
        }
    }
}

/// Where names stand once a new name has joined them at the end.
pub proof fn lemma_position_push(names: Seq<Seq<char>>, name: Seq<char>, s: Seq<char>)
    requires
        position(names, name) == names.len(),
    ensures
        position(names.push(name), s) < names.len() + 1 <==> (position(names, s) < names.len() || s
            == name),
        position(names, s) < names.len() ==> position(names.push(name), s) == position(names, s),
        s == name ==> position(names.push(name), s) == names.len(),
{
    lemma_position(names, s);
    lemma_position(names, name);
    let after = names.push(name);
    if position(names, s) < names.len() {
        lemma_position_is(after, s, position(names, s));
    } else if s == name {
        lemma_position_is(after, s, names.len() as int);
    } else {
        lemma_position_is(after, s, after.len() as int);
    }
}

/// Where names stand once the name at place `i` has left them.
pub proof fn lemma_position_remove(names: Seq<Seq<char>>, i: int, s: Seq<char>)
    requires
        names.no_duplicates(),
        0 <= i < names.len(),
    ensures
        position(names.remove(i), s) < names.len() - 1 <==> (position(names, s) < names.len() && s
            != names[i]),
        position(names, s) < i ==> position(names.remove(i), s) == position(names, s),
        i < position(names, s) < names.len() ==> position(names.remove(i), s) == position(
            names,
            s,
        ) - 1,
{
    lemma_position(names, s);
    let after = names.remove(i);
    let p = position(names, s);
    if p < i {
        lemma_position_is(after, s, p);
    } else if p == i {
        assert forall|k: int| 0 <= k < after.len() implies after[k] != s by {
            if k < i {
            } else {
                assert(after[k] == names[k + 1]);
            }
        }
        lemma_position_is(after, s, after.len() as int);
    } else if p < names.len() {
        assert forall|k: int| 0 <= k < p - 1 implies after[k] != s by {
            if k < i {
            } else {
                assert(after[k] == names[k + 1]);
            }
        }
        lemma_position_is(after, s, p - 1);
    } else {
        assert forall|k: int| 0 <= k < after.len() implies after[k] != s by {
            if k < i {
            } else {
                assert(after[k] == names[k + 1]);
            }
        }
        lemma_position_is(after, s, after.len() as int);
    }
}

/// Where names stand once the name at place `i` has given way to a new name.
pub proof fn lemma_position_update(names: Seq<Seq<char>>, i: int, to: Seq<char>, s: Seq<char>)
    requires
        names.no_duplicates(),
        0 <= i < names.len(),
        position(names, to) == names.len(),
    ensures
        position(names.update(i, to), s) < names.len() <==> (s == to || (position(names, s)
            < names.len() && s != names[i])),
        s == to ==> position(names.update(i, to), s) == i,
        position(names, s) < names.len() && s != names[i] ==> position(names.update(i, to), s)
            == position(names, s),
{
    lemma_position(names, s);
    lemma_position(names, to);
    let after = names.update(i, to);
    let p = position(names, s);
    if s == to {
        lemma_position_is(after, s, i);
    } else if p < names.len() && s != names[i] {
        lemma_position_is(after, s, p);
    } else {
        assert forall|k: int| 0 <= k < after.len() implies after[k] != s by {
            if k != i {
                assert(after[k] == names[k]);
            }
        }
        lemma_position_is(after, s, after.len() as int);
    }
}

/// A name that is not among the names can join them without a duplicate.
pub proof fn lemma_push_distinct(names: Seq<Seq<char>>, name: Seq<char>)
    requires
        names.no_duplicates(),
        position(names, name) == names.len(),
    ensures
        names.push(name).no_duplicates(),
{
    lemma_position(names, name);
}

/// In a list without duplicates each name stands at its position.
pub proof fn lemma_position_unique(names: Seq<Seq<char>>, i: int)
    requires
        names.no_duplicates(),
        0 <= i < names.len(),
    ensures
        position(names, names[i]) == i,
{
    lemma_position(names, names[i]);
}

impl SemesterDirView {
    /// A new course directory joins the entries at the end.
    pub proof fn lemma_with_course(self, name: Seq<char>)
        requires
            self.wf(),
            self.is_dir,
            is_dir_name(name),
            !self.contains(name),
        ensures
            self.with_course(name).wf(),
            self.with_course(name).names() == self.names().push(name),
            self.with_course(name).index(name) == self.courses.len(),
    {
        lemma_position(self.names(), name);
        assert(self.with_course(name).names() =~= self.names().push(name));
        lemma_push_distinct(self.names(), name);
        lemma_position_is(self.names().push(name), name, self.courses.len() as int);
    }

    /// A removed entry is no more among the entries.
    pub proof fn lemma_without_course(self, name: Seq<char>)
        requires
            self.wf(),
        ensures
            self.without_course(name).wf(),
            !self.without_course(name).contains(name),
    {
        lemma_position(self.names(), name);
        if self.contains(name) {
            let i = self.index(name);
            let after = self.without_course(name);
            assert(after.names() =~= self.names().remove(i));
            assert forall|k: int| 0 <= k < after.names().len() implies after.names()[k]
                != name by {}
            lemma_position_is(after.names(), name, after.names().len() as int);
        }
    }

    /// A renamed entry keeps its place, and its old name is free.
    pub proof fn lemma_with_course_renamed(self, from: Seq<char>, to: Seq<char>)
        requires
            self.wf(),
            self.contains(from),
            is_dir_name(to),
            !self.contains(to),
        ensures
            self.with_course_renamed(from, to).wf(),
            self.with_course_renamed(from, to).names() == self.names().update(self.index(from), to),
            self.with_course_renamed(from, to).index(to) == self.index(from),
            !self.with_course_renamed(from, to).contains(from),
    {
        let i = self.index(from);
        let after = self.with_course_renamed(from, to);
        lemma_position(self.names(), from);
        lemma_position(self.names(), to);
        assert(after.names() =~= self.names().update(i, to));
        lemma_position_unique(after.names(), i);
        lemma_position_is(after.names(), from, after.names().len() as int);
    }
}

impl DiskView {
    /// A new semester directory joins the entries at the end.
    pub proof fn lemma_with_semester(self, name: Seq<char>)
        requires
            self.wf(),
            self.is_dir,
            is_dir_name(name),
            !self.contains(name),
        ensures
            self.with_semester(name).wf(),
            self.with_semester(name).names() == self.names().push(name),
            self.with_semester(name).index(name) == self.semesters.len(),
    {
        lemma_position(self.names(), name);
        let after = self.with_semester(name);
        assert(after.names() =~= self.names().push(name));
        lemma_position_is(self.names().push(name), name, self.semesters.len() as int);
    }

    /// A removed entry is no more among the entries.
    pub proof fn lemma_without_semester(self, name: Seq<char>)
        requires
            self.wf(),
        ensures
            self.without_semester(name).wf(),
            !self.without_semester(name).contains(name),
    {
        lemma_position(self.names(), name);
        if self.contains(name) {
            let i = self.index(name);
            let after = self.without_semester(name);
            assert(after.names() =~= self.names().remove(i));
            lemma_position_is(after.names(), name, after.names().len() as int);
        }
    }

    /// Replacing an entry by one of the same name keeps the names and their places.
    pub proof fn lemma_with_entry(self, i: int, entry: SemesterDirView)
        requires
            self.wf(),
            0 <= i < self.semesters.len(),
            entry.name == self.semesters[i].name,
            entry.wf(),
        ensures
            self.with_entry(i, entry).wf(),
            self.with_entry(i, entry).names() == self.names(),
    {
        let after = self.with_entry(i, entry);
        assert(after.names() =~= self.names());
    }
}

impl DiskView {
    /// Replacing the entry named `semester` by one of the same name changes
    /// that entry and nothing else.
    pub proof fn lemma_entry_replaced(self, semester: Seq<char>, entry: SemesterDirView)
        requires
            self.wf(),
            self.contains(semester),
            entry.name == semester,
            entry.wf(),
        ensures
            self.with_entry(self.index(semester), entry).wf(),
            self.with_entry(self.index(semester), entry).names() == self.names(),
            self.with_entry(self.index(semester), entry).semester(semester) == entry,
            self.with_entry(self.index(semester), entry).contains(semester),
            forall|other: Seq<char>|
                other != semester && self.contains(other) ==> #[trigger] self.with_entry(
                    self.index(semester),
                    entry,
                ).semester(other) == self.semester(other),
    {
        let i = self.index(semester);
        let after = self.with_entry(i, entry);
        lemma_position(self.names(), semester);
        self.lemma_with_entry(i, entry);
        assert forall|other: Seq<char>| other != semester && self.contains(other) implies
            #[trigger] after.semester(other) == self.semester(other) by {
            lemma_position(self.names(), other);
        }
    }

    /// Writing the sidecar file of a semester changes what that file holds
    /// and nothing else.
    pub proof fn lemma_with_active_course(self, semester: Seq<char>, value: Option<Seq<char>>)
        requires
            self.wf(),
            self.contains(semester),
        ensures
            self.with_active_course(semester, value).wf(),
            self.with_active_course(semester, value).names() == self.names(),
            self.with_active_course(semester, value).semester(semester) == self.semester(
                semester,
            ).with_active(value),
    {
        lemma_position(self.names(), semester);
        let entry = self.semester(semester).with_active(value);
        self.lemma_entry_replaced(semester, entry);
    }

    /// A new course directory is found under its name, with no data.
    pub proof fn lemma_with_course(self, semester: Seq<char>, name: Seq<char>)
        requires
            self.wf(),
            self.create_course_outcome(semester, name) is Ok,
        ensures
            self.with_course(semester, name).wf(),
            self.with_course(semester, name).names() == self.names(),
            self.with_course(semester, name).has_course_dir(semester, name),
            self.with_course(semester, name).semester(semester).course(name) == (CourseDirView {
                name: name,
                is_dir: true,
                data: Stored::Holds(no_course_data()),
            }),
    {
        lemma_position(self.names(), semester);
        let before = self.semester(semester);
        let entry = before.with_course(name);
        before.lemma_with_course(name);
        self.lemma_entry_replaced(semester, entry);
    }

    /// Removing a course directory leaves the semester's own file alone.
    pub proof fn lemma_without_course(self, semester: Seq<char>, name: Seq<char>)
        requires
            self.wf(),
            self.contains(semester),
        ensures
            self.without_course(semester, name).wf(),
            self.without_course(semester, name).names() == self.names(),
            self.without_course(semester, name).semester(semester) == self.semester(
                semester,
            ).without_course(name),
            !self.without_course(semester, name).has_course_dir(semester, name),
    {
        lemma_position(self.names(), semester);
        let before = self.semester(semester);
        let entry = before.without_course(name);
        before.lemma_without_course(name);
        self.lemma_entry_replaced(semester, entry);
    }

    /// A renamed course directory is found under its new name, with the data
    /// it had, and no more under the old one.
    pub proof fn lemma_with_course_renamed(self, semester: Seq<char>, from: Seq<char>, to: Seq<char>)
        requires
            self.wf(),
            self.rename_course_outcome(semester, from, to) is Ok,
        ensures
            self.with_course_renamed(semester, from, to).wf(),
            self.with_course_renamed(semester, from, to).names() == self.names(),
            self.with_course_renamed(semester, from, to).semester(semester)
                == self.semester(semester).with_course_renamed(from, to),
            self.with_course_renamed(semester, from, to).semester(semester).contains(to),
            self.with_course_renamed(semester, from, to).semester(semester).course(to) == (
            CourseDirView { name: to, ..self.semester(semester).course(from) }),
            !self.with_course_renamed(semester, from, to).semester(semester).contains(from),
    {
        lemma_position(self.names(), semester);
        let before = self.semester(semester);
        let entry = before.with_course_renamed(from, to);
        before.lemma_with_course_renamed(from, to);
        self.lemma_entry_replaced(semester, entry);
        lemma_position(before.names(), from);
    }
}

impl DiskView {
    /// In a well-formed image whatever is found under a name is found under
    /// a name of a directory, below the entry point and in a semester.
    pub proof fn lemma_entries_named(self, semester: Seq<char>, name: Seq<char>)
        requires
            self.wf(),
        ensures
            self.contains(semester) ==> is_dir_name(semester),
            self.contains(semester) && self.semester(semester).contains(name) ==> is_dir_name(name),
    {
        lemma_position(self.names(), semester);
        if self.contains(semester) {
            assert(self.names()[self.index(semester)] == semester);
            let entry = self.semester(semester);
            lemma_position(entry.names(), name);
            if entry.contains(name) {
                assert(entry.wf());
                assert(entry.names()[entry.index(name)] == name);
            }
        }
    }
}

} // verus!
