//! Switching: what a reference or a working directory selects, and making
//! that the active semester and course.

use crate::course::{Course, CourseView};
use crate::disk::Disk;
use crate::error::{Error, PersistenceError, ReferenceError, Segment};
use crate::image::DiskView;
use crate::course::course_touched;
use crate::journal::ActionView as AV;
use crate::journal::Notes;
use crate::store::{current_touched, named_touched, noted_set_course, noted_set_semester};
use crate::store::{semester_paths_of, semesters_touched};
use crate::names::SemesterNames;
use crate::paths::SemesterPathView;
use crate::semester::{course_of, semester_list_views, Semester, SemesterView};
use crate::store::{after_set_course, after_set_semester, current_semester_of, semester_named};
use crate::store::{and_then_set, current_course_of};
use crate::store::{semesters_of, Store, StoreState};
use crate::text::{components, components_spec, same_text, split, split_spec};
use crate::text::{lemma_split_pair, lemma_split_plain};
use vstd::prelude::*;
use vstd::string::*;

verus! {

/// What a reference or a working directory selects.
#[derive(Debug)]
pub enum Selection {
    /// Nothing: the entry point itself.
    Nothing,
    /// A semester, with no course.
    Semester(Semester),
    /// A course of the semester that is active already.
    ActiveCourse(Semester, Course),
    /// A course, together with its semester.
    Course(Semester, Course),
}

/// A selection in contracts.
pub enum SelectionView {
    Nothing,
    Semester(SemesterView),
    ActiveCourse(SemesterView, CourseView),
    Course(SemesterView, CourseView),
}

impl View for Selection {
    type V = SelectionView;

    open spec fn view(&self) -> SelectionView {
        match self {
            Selection::Nothing => SelectionView::Nothing,
            Selection::Semester(s) => SelectionView::Semester(s@),
            Selection::ActiveCourse(s, c) => SelectionView::ActiveCourse(s@, c@),
            Selection::Course(s, c) => SelectionView::Course(s@, c@),
        }
    }
}

impl SelectionView {
    /// The selection as it is once it is active: its semester has its course,
    /// or none, as the active one.
    pub open spec fn activated(self) -> SelectionView {
        match self {
            SelectionView::Nothing => SelectionView::Nothing,
            SelectionView::Semester(s) => SelectionView::Semester(s.with_active(None)),
            SelectionView::ActiveCourse(s, c) => SelectionView::ActiveCourse(
                s.with_active(Some(c.path)),
                c,
            ),
            SelectionView::Course(s, c) => SelectionView::Course(s.with_active(Some(c.path)), c),
        }
    }

    /// The active semester of a store once the selection is active.
    pub open spec fn active_semester(self, before: Option<SemesterPathView>) -> Option<
        SemesterPathView,
    > {
        match self {
            SelectionView::Nothing => None,
            SelectionView::Semester(s) => Some(s.path),
            SelectionView::ActiveCourse(s, c) => before,
            SelectionView::Course(s, c) => Some(s.path),
        }
    }
}

/// The first of the semesters, in their order, that has a course whose
/// directory is named `name`, with that course.
pub open spec fn first_owner(disk: DiskView, semesters: Seq<SemesterView>, name: Seq<char>) -> Option<
    (SemesterView, CourseView),
>
    decreases semesters.len(),
{
    if semesters.len() == 0 {
        None
    } else {
        match course_of(disk, semesters[0].path, name) {
            Some(course) => Some((semesters[0], course)),
            None => first_owner(disk, semesters.skip(1), name),
        }
    }
}

/// What a single name selects: the semester of that name; or else the course
/// of that name in the active semester; or else the course of that name in
/// the first semester, in the order of the image, that has one.
pub open spec fn resolve_name(
    disk: DiskView,
    policy: SemesterNames,
    store: StoreState,
    name: Seq<char>,
) -> Result<SelectionView, ReferenceError> {
    match semester_named(disk, policy, store.entry, name) {
        Some(semester) => Ok(SelectionView::Semester(semester)),
        None => {
            let active = current_semester_of(disk, policy, store.active);
            if active is Some && course_of(disk, active->0.path, name) is Some {
                Ok(
                    SelectionView::ActiveCourse(
                        active->0,
                        course_of(disk, active->0.path, name)->0,
                    ),
                )
            } else {
                match first_owner(disk, semesters_of(disk, policy, store.entry), name) {
                    Some((semester, course)) => Ok(SelectionView::Course(semester, course)),
                    None => Err(ReferenceError::NotFound(Segment::Name)),
                }
            }
        },
    }
}

/// What the names of a semester and of a course select: both must be found.
pub open spec fn resolve_pair(
    disk: DiskView,
    policy: SemesterNames,
    store: StoreState,
    semester: Seq<char>,
    course: Seq<char>,
) -> Result<SelectionView, ReferenceError> {
    match semester_named(disk, policy, store.entry, semester) {
        None => Err(ReferenceError::NotFound(Segment::Semester)),
        Some(found) => match course_of(disk, found.path, course) {
            None => Err(ReferenceError::NotFound(Segment::Course)),
            Some(c) => Ok(SelectionView::Course(found, c)),
        },
    }
}

/// What a reference selects: a name, or the names of a semester and a course
/// with a slash between them. An empty reference, and one with more than one
/// slash, selects nothing.
pub open spec fn resolve_spec(
    disk: DiskView,
    policy: SemesterNames,
    store: StoreState,
    reference: Seq<char>,
) -> Result<SelectionView, ReferenceError> {
    let parts = split_spec(reference, '/');
    if reference.len() == 0 {
        Err(ReferenceError::InvalidReference)
    } else if parts.len() == 1 {
        resolve_name(disk, policy, store, parts[0])
    } else if parts.len() == 2 {
        resolve_pair(disk, policy, store, parts[0], parts[1])
    } else {
        Err(ReferenceError::InvalidReference)
    }
}

/// The notes after the first owner of a course named `name` was looked for
/// among the semesters: the course is asked for in each semester in turn, up
/// to the first that has it.
pub open spec fn owner_touched(
    notes: Notes,
    disk: DiskView,
    semesters: Seq<SemesterView>,
    name: Seq<char>,
) -> Notes
    decreases semesters.len(),
{
    if semesters.len() == 0 {
        notes
    } else {
        let asked = course_touched(notes, disk, semesters[0].path.name, name);
        match course_of(disk, semesters[0].path, name) {
            Some(_) => asked,
            None => owner_touched(asked, disk, semesters.skip(1), name),
        }
    }
}

/// The notes after a single name was looked up: the semester of that name
/// is asked for; then the active semester and its course of that name; then
/// all the semesters are loaded, and the course is looked for among them.
pub open spec fn name_touched(
    notes: Notes,
    disk: DiskView,
    policy: SemesterNames,
    store: StoreState,
    name: Seq<char>,
) -> Notes {
    let first = named_touched(notes, disk, policy, name);
    if semester_named(disk, policy, store.entry, name) is Some {
        first
    } else {
        let active = current_semester_of(disk, policy, store.active);
        let second = current_touched(first, disk, store.active);
        let third = if active is Some {
            course_touched(second, disk, active->0.path.name, name)
        } else {
            second
        };
        if active is Some && course_of(disk, active->0.path, name) is Some {
            third
        } else {
            owner_touched(
                semesters_touched(third, disk, semester_paths_of(disk, policy, store.entry)),
                disk,
                semesters_of(disk, policy, store.entry),
                name,
            )
        }
    }
}

/// The notes after the names of a semester and of a course were looked up:
/// the semester is asked for, and the course in it where it is found.
pub open spec fn pair_touched(
    notes: Notes,
    disk: DiskView,
    policy: SemesterNames,
    store: StoreState,
    semester: Seq<char>,
    course: Seq<char>,
) -> Notes {
    let first = named_touched(notes, disk, policy, semester);
    match semester_named(disk, policy, store.entry, semester) {
        None => first,
        Some(found) => course_touched(first, disk, found.path.name, course),
    }
}

/// The notes after a reference was looked up. Nothing is noted for an empty
/// reference or one with more than one slash.
pub open spec fn resolve_touched(
    notes: Notes,
    disk: DiskView,
    policy: SemesterNames,
    store: StoreState,
    reference: Seq<char>,
) -> Notes {
    let parts = split_spec(reference, '/');
    if reference.len() == 0 {
        notes
    } else if parts.len() == 1 {
        name_touched(notes, disk, policy, store, parts[0])
    } else if parts.len() == 2 {
        pair_touched(notes, disk, policy, store, parts[0], parts[1])
    } else {
        notes
    }
}

/// The notes after a selection was made active: those of setting the
/// semester, then those of setting the course where the first went through.
pub open spec fn noted_activate(
    store: StoreState,
    notes: Notes,
    disk: DiskView,
    selection: SelectionView,
) -> Notes {
    match selection {
        SelectionView::Nothing => noted_set_semester(store, notes, disk, None),
        SelectionView::Semester(s) => {
            let set = after_set_semester(store, disk, Some(s.path));
            let noted = noted_set_semester(store, notes, disk, Some(s.path));
            if set.1 is Err {
                noted
            } else {
                noted_set_course(store, noted, set.0, s.path, None)
            }
        },
        SelectionView::ActiveCourse(s, c) => noted_set_course(
            store,
            notes,
            disk,
            s.path,
            Some(c.path),
        ),
        SelectionView::Course(s, c) => {
            let set = after_set_semester(store, disk, Some(s.path));
            let noted = noted_set_semester(store, notes, disk, Some(s.path));
            if set.1 is Err {
                noted
            } else {
                noted_set_course(store, noted, set.0, s.path, Some(c.path))
            }
        },
    }
}

/// The notes after a switch by a reference: those of looking the reference
/// up, then those of making what it selects active.
pub open spec fn noted_reference(
    notes: Notes,
    disk: DiskView,
    policy: SemesterNames,
    store: StoreState,
    reference: Seq<char>,
) -> Notes {
    let looked = resolve_touched(notes, disk, policy, store, reference);
    match resolve_spec(disk, policy, store, reference) {
        Err(_) => looked,
        Ok(selection) => noted_activate(store, looked, disk, selection),
    }
}

/// The notes after a switch by the working directory. Nothing is noted
/// where the working directory does not lie at or below the entry point.
pub open spec fn noted_context(
    notes: Notes,
    disk: DiskView,
    policy: SemesterNames,
    store: StoreState,
    working_dir: Seq<char>,
) -> Notes {
    let entry = components_spec(store.entry);
    let dir = components_spec(working_dir);
    if !entry.is_prefix_of(dir) {
        notes
    } else if dir.len() == entry.len() {
        noted_activate(store, notes, disk, SelectionView::Nothing)
    } else {
        let asked = named_touched(notes, disk, policy, dir[entry.len() as int]);
        match semester_named(disk, policy, store.entry, dir[entry.len() as int]) {
            None => asked,
            Some(s) => if dir.len() == entry.len() + 1 {
                noted_activate(store, asked, disk, SelectionView::Semester(s))
            } else {
                let set = after_activate(store, disk, SelectionView::Semester(s));
                let noted = noted_activate(store, asked, disk, SelectionView::Semester(s));
                if set.1 is Err {
                    noted
                } else {
                    let looked = course_touched(
                        noted,
                        set.0,
                        s.path.name,
                        dir[entry.len() as int + 1],
                    );
                    match course_of(set.0, s.path, dir[entry.len() as int + 1]) {
                        None => looked,
                        Some(c) => noted_set_course(store, looked, set.0, s.path, Some(c.path)),
                    }
                }
            },
        }
    }
}

/// The notes after a switch: by the reference where one is given, by the
/// working directory otherwise.
pub open spec fn noted_switch(
    notes: Notes,
    disk: DiskView,
    policy: SemesterNames,
    store: StoreState,
    reference: Option<String>,
    working_dir: Seq<char>,
) -> Notes {
    match reference {
        Some(it) => noted_reference(notes, disk, policy, store, it@),
        None => noted_context(notes, disk, policy, store, working_dir),
    }
}

/// The image after a selection was made active, whether that went through,
/// and the changes that were made: the semester first, then the course.
pub open spec fn after_activate(store: StoreState, disk: DiskView, selection: SelectionView) -> (
    DiskView,
    Result<(), PersistenceError>,
    Seq<AV>,
) {
    match selection {
        SelectionView::Nothing => after_set_semester(store, disk, None),
        SelectionView::Semester(s) => {
            let set = after_set_semester(store, disk, Some(s.path));
            and_then_set(set, after_set_course(store, set.0, s.path, None))
        },
        SelectionView::ActiveCourse(s, c) => after_set_course(store, disk, s.path, Some(c.path)),
        SelectionView::Course(s, c) => {
            let set = after_set_semester(store, disk, Some(s.path));
            and_then_set(set, after_set_course(store, set.0, s.path, Some(c.path)))
        },
    }
}

fn find_owner(semesters: &Vec<Semester>, name: &str, disk: &mut Disk) -> (r: Option<
    (Semester, Course),
>)
    requires
        old(disk).wf(),
    ensures
        final(disk).wf(),
        final(disk).only_made_files(*old(disk)),
        final(disk)@ == old(disk)@,
        match r {
            Some((semester, course)) => first_owner(
                old(disk)@,
                semester_list_views(semesters@),
                name@,
            ) == Some((semester@, course@)),
            None => first_owner(old(disk)@, semester_list_views(semesters@), name@) is None,
        },
        final(disk).notes() == owner_touched(
            old(disk).notes(),
            old(disk)@,
            semester_list_views(semesters@),
            name@,
        ),
{
    let ghost all = semester_list_views(semesters@);
    let mut i: usize = 0;
    proof {
        assert(all.skip(0) =~= all);
    }
    while i < semesters.len()
        invariant
            i <= semesters@.len(),
            disk.wf(),
            disk.only_made_files(*old(disk)),
            disk@ == old(disk)@,
            all == semester_list_views(semesters@),
            first_owner(old(disk)@, all, name@) == first_owner(
                old(disk)@,
                all.skip(i as int),
                name@,
            ),
            owner_touched(old(disk).notes(), old(disk)@, all, name@) == owner_touched(
                disk.notes(),
                old(disk)@,
                all.skip(i as int),
                name@,
            ),
        decreases semesters@.len() - i,
    {
        proof {
            let rest = all.skip(i as int);
            assert(rest.skip(1) =~= all.skip(i + 1));
        }
        match semesters[i].course(name, disk) {
            Some(course) => {
                return Some((semesters[i].copy(), course));
            },
            None => {},
        }
        i += 1;
    }
    None
}

/// Finds what a single name selects.
fn lookup_name(store: &Store, disk: &mut Disk, name: &str) -> (r: Result<Selection, ReferenceError>)
    requires
        old(disk).wf(),
    ensures
        final(disk).wf(),
        final(disk).only_made_files(*old(disk)),
        final(disk)@ == old(disk)@,
        match r {
            Ok(selection) => resolve_name(old(disk)@, store.policy(), store@, name@) == Ok::<
                SelectionView,
                ReferenceError,
            >(selection@),
            Err(e) => resolve_name(old(disk)@, store.policy(), store@, name@) == Err::<
                SelectionView,
                ReferenceError,
            >(e),
        },
        final(disk).notes() == name_touched(
            old(disk).notes(),
            old(disk)@,
            store.policy(),
            store@,
            name@,
        ),
{
    if let Some(semester) = store.get_semester(name, disk) {
        return Ok(Selection::Semester(semester));
    }
    if let Some(active) = store.current_semester(disk) {
        if let Some(course) = active.course(name, disk) {
            return Ok(Selection::ActiveCourse(active, course));
        }
    }
    let semesters = store.semesters(disk);
    match find_owner(&semesters, name, disk) {
        Some((semester, course)) => Ok(Selection::Course(semester, course)),
        None => Err(ReferenceError::NotFound(Segment::Name)),
    }
}

/// Finds what the names of a semester and of a course select.
fn lookup_pair(store: &Store, disk: &mut Disk, semester: &str, course: &str) -> (r: Result<
    Selection,
    ReferenceError,
>)
    requires
        old(disk).wf(),
    ensures
        final(disk).wf(),
        final(disk).only_made_files(*old(disk)),
        final(disk)@ == old(disk)@,
        match r {
            Ok(selection) => resolve_pair(old(disk)@, store.policy(), store@, semester@, course@)
                == Ok::<SelectionView, ReferenceError>(selection@),
            Err(e) => resolve_pair(old(disk)@, store.policy(), store@, semester@, course@) == Err::<
                SelectionView,
                ReferenceError,
            >(e),
        },
        final(disk).notes() == pair_touched(
            old(disk).notes(),
            old(disk)@,
            store.policy(),
            store@,
            semester@,
            course@,
        ),
{
    let found = match store.get_semester(semester, disk) {
        Some(found) => found,
        None => {
            return Err(ReferenceError::NotFound(Segment::Semester));
        },
    };
    match found.course(course, disk) {
        Some(c) => Ok(Selection::Course(found, c)),
        None => Err(ReferenceError::NotFound(Segment::Course)),
    }
}

/// Finds what a reference selects, and changes nothing that can be read.
pub fn resolve(store: &Store, disk: &mut Disk, reference: &str) -> (r: Result<
    Selection,
    ReferenceError,
>)
    requires
        old(disk).wf(),
    ensures
        final(disk).wf(),
        final(disk).only_made_files(*old(disk)),
        final(disk)@ == old(disk)@,
        match r {
            Ok(selection) => resolve_spec(old(disk)@, store.policy(), store@, reference@) == Ok::<
                SelectionView,
                ReferenceError,
            >(selection@),
            Err(e) => resolve_spec(old(disk)@, store.policy(), store@, reference@) == Err::<
                SelectionView,
                ReferenceError,
            >(e),
        },
        r matches Err(ReferenceError::InvalidReference) ==> final(disk).pending() == old(disk).pending(),
        final(disk).notes() == resolve_touched(
            old(disk).notes(),
            old(disk)@,
            store.policy(),
            store@,
            reference@,
        ),
{
    if reference.unicode_len() == 0 {
        return Err(ReferenceError::InvalidReference);
    }
    let parts = split(reference, '/');
    if parts.len() == 1 {
        lookup_name(store, disk, parts[0].as_str())
    } else if parts.len() == 2 {
        lookup_pair(store, disk, parts[0].as_str(), parts[1].as_str())
    } else {
        Err(ReferenceError::InvalidReference)
    }
}

impl Store {
    /// What a reference selects, if it selects anything.
    pub fn get_by_reference(&self, disk: &mut Disk, reference: &str) -> (r: Option<Selection>)
        requires
            old(disk).wf(),
        ensures
            final(disk).wf(),
            final(disk).only_made_files(*old(disk)),
            final(disk)@ == old(disk)@,
            match r {
                Some(selection) => resolve_spec(old(disk)@, self.policy(), self@, reference@)
                    == Ok::<SelectionView, ReferenceError>(selection@),
                None => resolve_spec(old(disk)@, self.policy(), self@, reference@) is Err,
            },
            resolve_spec(old(disk)@, self.policy(), self@, reference@) == Err::<
                SelectionView,
                ReferenceError,
            >(ReferenceError::InvalidReference) ==> final(disk).pending() == old(disk).pending(),
            final(disk).notes() == resolve_touched(
                old(disk).notes(),
                old(disk)@,
                self.policy(),
                self@,
                reference@,
            ),
    {
        match resolve(self, disk, reference) {
            Ok(selection) => Some(selection),
            Err(_) => None,
        }
    }
}

/// Makes a selection the active one: the semester first, then the course.
/// Gives the selection back as it is afterwards.
pub fn activate(store: &mut Store, disk: &mut Disk, selection: Selection) -> (r: Result<
    Selection,
    PersistenceError,
>)
    requires
        old(disk).wf(),
    ensures
        final(disk).wf(),
        final(disk).follows(*old(disk)),
        final(store).policy() == old(store).policy(),
        final(disk)@ == after_activate(old(store)@, old(disk)@, selection@).0,
        final(disk).changes() =~= old(disk).changes() + after_activate(old(store)@, old(disk)@, selection@).2,
        final(store)@ == old(store)@.with_active(
            selection@.active_semester(old(store)@.active),
        ),
        match r {
            Ok(done) => after_activate(old(store)@, old(disk)@, selection@).1 is Ok && done@
                == selection@.activated(),
            Err(e) => after_activate(old(store)@, old(disk)@, selection@).1 == Err::<
                (),
                PersistenceError,
            >(e),
        },
        final(disk).notes() == noted_activate(
            old(store)@,
            old(disk).notes(),
            old(disk)@,
            selection@,
        ),
{
    match selection {
        Selection::Nothing => match store.set_current_semester(disk, None) {
            Ok(()) => Ok(Selection::Nothing),
            Err(e) => Err(e),
        },
        Selection::Semester(semester) => {
            let mut semester = semester;
            match store.set_current_semester(disk, Some(&semester)) {
                Ok(()) => {},
                Err(e) => {
                    return Err(e);
                },
            }
            match store.set_current_course(disk, &mut semester, None) {
                Ok(()) => Ok(Selection::Semester(semester)),
                Err(e) => Err(e),
            }
        },
        Selection::ActiveCourse(semester, course) => {
            let mut semester = semester;
            match store.set_current_course(disk, &mut semester, Some(&course)) {
                Ok(()) => Ok(Selection::ActiveCourse(semester, course)),
                Err(e) => Err(e),
            }
        },
        Selection::Course(semester, course) => {
            let mut semester = semester;
            match store.set_current_semester(disk, Some(&semester)) {
                Ok(()) => {},
                Err(e) => {
                    return Err(e);
                },
            }
            match store.set_current_course(disk, &mut semester, Some(&course)) {
                Ok(()) => Ok(Selection::Course(semester, course)),
                Err(e) => Err(e),
            }
        },
    }
}

/// What a switch gives once the selection was made active.
pub open spec fn switched(status: Result<(), PersistenceError>, selection: SelectionView) -> Result<
    SelectionView,
    Error,
> {
    match status {
        Ok(()) => Ok(selection.activated()),
        Err(e) => Err(Error::Persistence(e)),
    }
}

/// What switching by a reference gives: the image afterwards, the active
/// semester of the store afterwards, the selection as it is then, and the
/// changes that were made. Where the reference selects nothing, nothing
/// changes.
pub open spec fn reference_outcome(
    disk: DiskView,
    policy: SemesterNames,
    store: StoreState,
    reference: Seq<char>,
) -> (DiskView, Option<SemesterPathView>, Result<SelectionView, Error>, Seq<AV>) {
    match resolve_spec(disk, policy, store, reference) {
        Err(e) => (disk, store.active, Err(Error::Reference(e)), Seq::empty()),
        Ok(selection) => (
            after_activate(store, disk, selection).0,
            selection.active_semester(store.active),
            switched(after_activate(store, disk, selection).1, selection),
            after_activate(store, disk, selection).2,
        ),
    }
}

/// What switching by the working directory gives: the image afterwards, the
/// active semester of the store afterwards, the selection as it is then, and
/// the changes that were made. At the entry point nothing is active
/// afterwards. One level below it the directory is taken for a semester.
/// Deeper, the first level is taken for a semester and the second for a
/// course of it, whatever lies below; the semester is made active, with no
/// active course, before the course is looked for, and stays so where the
/// course is not found.
pub open spec fn context_outcome(
    disk: DiskView,
    policy: SemesterNames,
    store: StoreState,
    working_dir: Seq<char>,
) -> (DiskView, Option<SemesterPathView>, Result<SelectionView, Error>, Seq<AV>) {
    let entry = components_spec(store.entry);
    let dir = components_spec(working_dir);
    if !entry.is_prefix_of(dir) {
        (disk, store.active, Err(Error::Reference(ReferenceError::OutOfScope)), Seq::empty())
    } else if dir.len() == entry.len() {
        (
            after_activate(store, disk, SelectionView::Nothing).0,
            None,
            switched(after_activate(store, disk, SelectionView::Nothing).1, SelectionView::Nothing),
            after_activate(store, disk, SelectionView::Nothing).2,
        )
    } else {
        match semester_named(disk, policy, store.entry, dir[entry.len() as int]) {
            None => (
                disk,
                store.active,
                Err(Error::Reference(ReferenceError::NotFound(Segment::Semester))),
                Seq::empty(),
            ),
            Some(s) => if dir.len() == entry.len() + 1 {
                (
                    after_activate(store, disk, SelectionView::Semester(s)).0,
                    Some(s.path),
                    switched(
                        after_activate(store, disk, SelectionView::Semester(s)).1,
                        SelectionView::Semester(s),
                    ),
                    after_activate(store, disk, SelectionView::Semester(s)).2,
                )
            } else {
                let set = after_activate(store, disk, SelectionView::Semester(s));
                if set.1 is Err {
                    (set.0, Some(s.path), Err(Error::Persistence(set.1->Err_0)), set.2)
                } else {
                    match course_of(set.0, s.path, dir[entry.len() as int + 1]) {
                        None => (
                            set.0,
                            Some(s.path),
                            Err(Error::Reference(ReferenceError::NotFound(Segment::Course))),
                            set.2,
                        ),
                        Some(c) => (
                            after_set_course(store, set.0, s.path, Some(c.path)).0,
                            Some(s.path),
                            switched(
                                after_set_course(store, set.0, s.path, Some(c.path)).1,
                                SelectionView::Course(s, c),
                            ),
                            set.2 + after_set_course(store, set.0, s.path, Some(c.path)).2,
                        ),
                    }
                }
            },
        }
    }
}

/// Tells whether the names `entry` begin the names `dir`.
fn begins(entry: &Vec<String>, dir: &Vec<String>) -> (r: bool)
    ensures
        r == entry.deep_view().is_prefix_of(dir.deep_view()),
{
    if entry.len() > dir.len() {
        return false;
    }
    let mut i: usize = 0;
    while i < entry.len()
        invariant
            i <= entry@.len(),
            entry@.len() <= dir@.len(),
            forall|k: int| 0 <= k < i ==> entry.deep_view()[k] == dir.deep_view()[k],
        decreases entry@.len() - i,
    {
        if !same_text(entry[i].as_str(), dir[i].as_str()) {
            assert(entry.deep_view()[i as int] != dir.deep_view()[i as int]);
            return false;
        }
        i += 1;
    }
    true
}

/// Switches to what a reference selects. Where the reference selects
/// nothing, nothing changes.
pub fn ref_switch(store: &mut Store, disk: &mut Disk, reference: &str) -> (r: Result<
    Selection,
    Error,
>)
    requires
        old(disk).wf(),
    ensures
        final(disk).wf(),
        final(disk).follows(*old(disk)),
        final(store).policy() == old(store).policy(),
        final(disk)@ == reference_outcome(
            old(disk)@,
            old(store).policy(),
            old(store)@,
            reference@,
        ).0,
        final(disk).changes() =~= old(disk).changes() + reference_outcome(
            old(disk)@,
            old(store).policy(),
            old(store)@,
            reference@,
        ).3,
        final(store)@ == old(store)@.with_active(
            reference_outcome(old(disk)@, old(store).policy(), old(store)@, reference@).1,
        ),
        match r {
            Ok(done) => reference_outcome(
                old(disk)@,
                old(store).policy(),
                old(store)@,
                reference@,
            ).2 == Ok::<SelectionView, Error>(done@),
            Err(e) => reference_outcome(
                old(disk)@,
                old(store).policy(),
                old(store)@,
                reference@,
            ).2 == Err::<SelectionView, Error>(e),
        },
        (r matches Err(Error::Reference(ReferenceError::InvalidReference)) || r matches Err(
            Error::Reference(ReferenceError::OutOfScope),
        )) ==> final(disk).pending() == old(disk).pending(),
        final(disk).notes() == noted_reference(
            old(disk).notes(),
            old(disk)@,
            old(store).policy(),
            old(store)@,
            reference@,
        ),
{
    let selection = match resolve(store, disk, reference) {
        Ok(selection) => selection,
        Err(e) => {
            return Err(Error::Reference(e));
        },
    };
    match activate(store, disk, selection) {
        Ok(done) => Ok(done),
        Err(e) => Err(Error::Persistence(e)),
    }
}

/// Switches to what the working directory selects: nothing at the entry
/// point, a semester one level below it, a semester and its course deeper.
/// Fails where the working directory does not lie at or below the entry point.
pub fn context_switch(store: &mut Store, disk: &mut Disk, working_dir: &str) -> (r: Result<
    Selection,
    Error,
>)
    requires
        old(disk).wf(),
    ensures
        final(disk).wf(),
        final(disk).follows(*old(disk)),
        final(store).policy() == old(store).policy(),
        final(disk)@ == context_outcome(
            old(disk)@,
            old(store).policy(),
            old(store)@,
            working_dir@,
        ).0,
        final(disk).changes() =~= old(disk).changes() + context_outcome(
            old(disk)@,
            old(store).policy(),
            old(store)@,
            working_dir@,
        ).3,
        final(store)@ == old(store)@.with_active(
            context_outcome(old(disk)@, old(store).policy(), old(store)@, working_dir@).1,
        ),
        match r {
            Ok(done) => context_outcome(
                old(disk)@,
                old(store).policy(),
                old(store)@,
                working_dir@,
            ).2 == Ok::<SelectionView, Error>(done@),
            Err(e) => context_outcome(
                old(disk)@,
                old(store).policy(),
                old(store)@,
                working_dir@,
            ).2 == Err::<SelectionView, Error>(e),
        },
        (r matches Err(Error::Reference(ReferenceError::InvalidReference)) || r matches Err(
            Error::Reference(ReferenceError::OutOfScope),
        )) ==> final(disk).pending() == old(disk).pending(),
        final(disk).notes() == noted_context(
            old(disk).notes(),
            old(disk)@,
            old(store).policy(),
            old(store)@,
            working_dir@,
        ),
{
    let entry = components(store.entry_point().path().as_str());
    let dir = components(working_dir);
    if !begins(&entry, &dir) {
        return Err(Error::Reference(ReferenceError::OutOfScope));
    }
    if dir.len() == entry.len() {
        return match activate(store, disk, Selection::Nothing) {
            Ok(done) => Ok(done),
            Err(e) => Err(Error::Persistence(e)),
        };
    }
    let semester = match store.get_semester(dir[entry.len()].as_str(), disk) {
        Some(semester) => semester,
        None => {
            return Err(Error::Reference(ReferenceError::NotFound(Segment::Semester)));
        },
    };
    if dir.len() == entry.len() + 1 {
        return match activate(store, disk, Selection::Semester(semester)) {
            Ok(done) => Ok(done),
            Err(e) => Err(Error::Persistence(e)),
        };
    }
    let mut semester = semester;
    match store.set_current_semester(disk, Some(&semester)) {
        Ok(()) => {},
        Err(e) => {
            return Err(Error::Persistence(e));
        },
    }
    match store.set_current_course(disk, &mut semester, None) {
        Ok(()) => {},
        Err(e) => {
            return Err(Error::Persistence(e));
        },
    }
    let course = match semester.course(dir[entry.len() + 1].as_str(), disk) {
        Some(course) => course,
        None => {
            return Err(Error::Reference(ReferenceError::NotFound(Segment::Course)));
        },
    };
    match store.set_current_course(disk, &mut semester, Some(&course)) {
        Ok(()) => Ok(Selection::Course(semester, course)),
        Err(e) => Err(Error::Persistence(e)),
    }
}

/// Switches by a reference where one is given, and by the working directory
/// otherwise.
pub fn switch(store: &mut Store, disk: &mut Disk, reference: Option<String>, working_dir: &str) -> (r:
    Result<Selection, Error>)
    requires
        old(disk).wf(),
    ensures
        final(disk).wf(),
        final(disk).follows(*old(disk)),
        final(store).policy() == old(store).policy(),
        final(disk)@ == switch_outcome(
            old(disk)@,
            old(store).policy(),
            old(store)@,
            reference,
            working_dir@,
        ).0,
        final(disk).changes() =~= old(disk).changes() + switch_outcome(
            old(disk)@,
            old(store).policy(),
            old(store)@,
            reference,
            working_dir@,
        ).3,
        final(store)@ == old(store)@.with_active(
            switch_outcome(
                old(disk)@,
                old(store).policy(),
                old(store)@,
                reference,
                working_dir@,
            ).1,
        ),
        match r {
            Ok(done) => switch_outcome(
                old(disk)@,
                old(store).policy(),
                old(store)@,
                reference,
                working_dir@,
            ).2 == Ok::<SelectionView, Error>(done@),
            Err(e) => switch_outcome(
                old(disk)@,
                old(store).policy(),
                old(store)@,
                reference,
                working_dir@,
            ).2 == Err::<SelectionView, Error>(e),
        },
        (r matches Err(Error::Reference(ReferenceError::InvalidReference)) || r matches Err(
            Error::Reference(ReferenceError::OutOfScope),
        )) ==> final(disk).pending() == old(disk).pending(),
        final(disk).notes() == noted_switch(
            old(disk).notes(),
            old(disk)@,
            old(store).policy(),
            old(store)@,
            reference,
            working_dir@,
        ),
{
    match reference {
        Some(it) => ref_switch(store, disk, it.as_str()),
        None => context_switch(store, disk, working_dir),
    }
}

/// What a switch gives: by the reference where one is given, by the working
/// directory otherwise.
pub open spec fn switch_outcome(
    disk: DiskView,
    policy: SemesterNames,
    store: StoreState,
    reference: Option<String>,
    working_dir: Seq<char>,
) -> (DiskView, Option<SemesterPathView>, Result<SelectionView, Error>, Seq<AV>) {
    match reference {
        Some(it) => reference_outcome(disk, policy, store, it@),
        None => context_outcome(disk, policy, store, working_dir),
    }
}

/// A reference without a slash is looked up as a single name.
pub proof fn lemma_resolve_plain_name(
    disk: DiskView,
    policy: SemesterNames,
    store: StoreState,
    name: Seq<char>,
)
    requires
        name.len() > 0,
        !name.contains('/'),
    ensures
        resolve_spec(disk, policy, store, name) == resolve_name(disk, policy, store, name),
{
    lemma_split_plain(name, '/');
}

/// A name of which there is no semester, and no course in the active
/// semester, selects the course of that name in the first semester that has
/// one, together with that semester.
pub proof fn lemma_name_falls_through(
    disk: DiskView,
    policy: SemesterNames,
    store: StoreState,
    name: Seq<char>,
    owner: SemesterView,
    course: CourseView,
)
    requires
        semester_named(disk, policy, store.entry, name) is None,
        current_semester_of(disk, policy, store.active) matches Some(active) ==> course_of(
            disk,
            active.path,
            name,
        ) is None,
        first_owner(disk, semesters_of(disk, policy, store.entry), name) == Some((owner, course)),
    ensures
        resolve_name(disk, policy, store, name) == Ok::<SelectionView, ReferenceError>(
            SelectionView::Course(owner, course),
        ),
{
}

/// A reference made of two names with a slash between them selects
/// something only if the first names a semester and the second a course of
/// it; where it does not, a switch by it fails and changes nothing: neither
/// the image nor the active semester of the store, and no change is noted
/// for the real directory.
pub proof fn lemma_pair_is_both_or_nothing(
    disk: DiskView,
    policy: SemesterNames,
    store: StoreState,
    semester: Seq<char>,
    course: Seq<char>,
)
    requires
        !semester.contains('/'),
        !course.contains('/'),
    ensures
        resolve_spec(disk, policy, store, semester + seq!['/'] + course) == resolve_pair(
            disk,
            policy,
            store,
            semester,
            course,
        ),
        resolve_pair(disk, policy, store, semester, course) is Ok <==> (semester_named(
            disk,
            policy,
            store.entry,
            semester,
        ) matches Some(found) && course_of(disk, found.path, course) is Some),
        resolve_pair(disk, policy, store, semester, course) is Err ==> {
            let out = reference_outcome(disk, policy, store, semester + seq!['/'] + course);
            out.0 == disk && out.1 == store.active && out.2 is Err && out.3.len() == 0
        },
{
    lemma_split_pair(semester, course, '/');
}

/// Where a switch by the working directory finds the semester and not
/// the course, the semester is the active one afterwards and no course is:
/// none of an earlier selection stays behind, neither in the semester's
/// sidecar file nor at the course's mirror.
pub proof fn lemma_missed_course_leaves_none(
    disk: DiskView,
    policy: SemesterNames,
    store: StoreState,
    working_dir: Seq<char>,
)
    requires
        disk.wf(),
        context_outcome(disk, policy, store, working_dir).2 == Err::<SelectionView, Error>(
            Error::Reference(ReferenceError::NotFound(Segment::Course)),
        ),
    ensures
        context_outcome(disk, policy, store, working_dir).1 is Some,
        current_course_of(
            context_outcome(disk, policy, store, working_dir).0,
            policy,
            context_outcome(disk, policy, store, working_dir).1,
        ) is None,
        store.course_link.path is Some ==> !(context_outcome(
            disk,
            policy,
            store,
            working_dir,
        ).0.link(store.course_link.slot) is Link),
{
    let entry = components_spec(store.entry);
    let dir = components_spec(working_dir);
    let s = semester_named(disk, policy, store.entry, dir[entry.len() as int])->0;
    let name = s.path.name;
    let set = after_set_semester(store, disk, Some(s.path)).0;
    set.lemma_with_active_course(name, None);
}

} // verus!
