use mm::disk::Disk;
use mm::error::{Error, ReferenceError, Segment};
use mm::image::{CourseDir, CourseFile, Image, LinkState, PointerFile, SemesterDir, Slot};
use mm::journal::Action;
use mm::names::SemesterNames;
use mm::paths::{EntryPoint, MaybeSymLinkable};
use mm::config::Config;
use mm::store::Store;
use mm::switch::{context_switch, ref_switch, switch, Selection};

fn course_dir(name: &str) -> CourseDir {
    CourseDir { name: name.to_string(), is_dir: true, file: CourseFile::Missing }
}

fn semester_dir(name: &str, courses: Vec<CourseDir>) -> SemesterDir {
    SemesterDir { name: name.to_string(), is_dir: true, file: PointerFile::Missing, courses }
}

fn studies(semesters: Vec<SemesterDir>) -> Disk {
    let image = Image {
        root: "/studies".to_string(),
        is_dir: true,
        file: PointerFile::Missing,
        semesters,
        semester_link: LinkState::Absent,
        course_link: LinkState::Absent,
    };
    Disk::new(image).expect("a well-formed image")
}

fn open(disk: &mut Disk) -> Store {
    let entry = EntryPoint::new("/studies", disk).unwrap();
    let names = SemesterNames::new(None, None).unwrap();
    let semester_link =
        MaybeSymLinkable::new(Some("/links/semester".to_string()), Slot::Semester, disk).unwrap();
    let course_link =
        MaybeSymLinkable::new(Some("/links/course".to_string()), Slot::Course, disk).unwrap();
    Store::new(Config::from_parts(entry, names, semester_link, course_link), disk).unwrap()
}

fn active_names(store: &Store, disk: &mut Disk) -> (Option<String>, Option<String>) {
    let semester = store.current_semester(disk).map(|s| s.path().name().to_string());
    let course = store.current_course(disk).map(|c| c.path().name().to_string());
    (semester, course)
}

#[test]
fn reference_falls_through_to_any_semester() {
    let mut disk = studies(vec![
        semester_dir("b01", vec![course_dir("algebra")]),
        semester_dir("m01", vec![course_dir("x")]),
    ]);
    let mut store = open(&mut disk);
    ref_switch(&mut store, &mut disk, "b01").unwrap();
    assert_eq!(active_names(&store, &mut disk), (Some("b01".to_string()), None));
    let done = ref_switch(&mut store, &mut disk, "x").unwrap();
    assert!(matches!(done, Selection::Course(_, _)));
    assert_eq!(active_names(&store, &mut disk), (Some("m01".to_string()), Some("x".to_string())));
}

#[test]
fn reference_prefers_the_active_semester() {
    let mut disk = studies(vec![
        semester_dir("b01", vec![course_dir("x")]),
        semester_dir("m01", vec![course_dir("x")]),
    ]);
    let mut store = open(&mut disk);
    ref_switch(&mut store, &mut disk, "m01").unwrap();
    let done = ref_switch(&mut store, &mut disk, "x").unwrap();
    assert!(matches!(done, Selection::ActiveCourse(_, _)));
    assert_eq!(active_names(&store, &mut disk), (Some("m01".to_string()), Some("x".to_string())));
}

#[test]
fn reference_takes_the_first_owner_in_the_order_of_the_image() {
    let mut disk = studies(vec![
        semester_dir("m01", vec![course_dir("x")]),
        semester_dir("b01", vec![course_dir("x")]),
    ]);
    let mut store = open(&mut disk);
    ref_switch(&mut store, &mut disk, "x").unwrap();
    assert_eq!(active_names(&store, &mut disk), (Some("m01".to_string()), Some("x".to_string())));
}

#[test]
fn context_switch_follows_the_working_directory() {
    let mut disk = studies(vec![semester_dir("b01", vec![course_dir("algebra")])]);
    let mut store = open(&mut disk);

    context_switch(&mut store, &mut disk, "/studies/b01/algebra").unwrap();
    assert_eq!(
        active_names(&store, &mut disk),
        (Some("b01".to_string()), Some("algebra".to_string()))
    );
    assert_eq!(disk.link_state(Slot::Semester), LinkState::Link("/studies/b01".to_string()));
    assert_eq!(disk.link_state(Slot::Course), LinkState::Link("/studies/b01/algebra".to_string()));

    context_switch(&mut store, &mut disk, "/studies/b01").unwrap();
    assert_eq!(active_names(&store, &mut disk), (Some("b01".to_string()), None));
    assert_eq!(disk.link_state(Slot::Course), LinkState::Absent);

    context_switch(&mut store, &mut disk, "/studies").unwrap();
    assert_eq!(active_names(&store, &mut disk), (None, None));
    assert_eq!(disk.link_state(Slot::Semester), LinkState::Absent);

    let out = context_switch(&mut store, &mut disk, "/outside");
    assert!(matches!(out, Err(Error::Reference(ReferenceError::OutOfScope))));
}

#[test]
fn context_switch_below_a_course_takes_the_two_nearest_levels() {
    let mut disk = studies(vec![semester_dir("b01", vec![course_dir("algebra")])]);
    let mut store = open(&mut disk);
    context_switch(&mut store, &mut disk, "/studies/b01/algebra/notes/week1").unwrap();
    assert_eq!(
        active_names(&store, &mut disk),
        (Some("b01".to_string()), Some("algebra".to_string()))
    );
}

#[test]
fn context_switch_keeps_the_semester_when_the_course_is_missing() {
    let mut disk = studies(vec![semester_dir("b01", vec![]), semester_dir("m02", vec![])]);
    let mut store = open(&mut disk);
    ref_switch(&mut store, &mut disk, "m02").unwrap();
    let out = context_switch(&mut store, &mut disk, "/studies/b01/nothing");
    assert!(matches!(out, Err(Error::Reference(ReferenceError::NotFound(Segment::Course)))));
    assert_eq!(active_names(&store, &mut disk), (Some("b01".to_string()), None));
}

#[test]
fn two_part_reference_is_both_or_nothing() {
    let mut disk = studies(vec![
        semester_dir("b01", vec![]),
        semester_dir("m01", vec![course_dir("x")]),
    ]);
    let mut store = open(&mut disk);
    ref_switch(&mut store, &mut disk, "m01/x").unwrap();
    assert_eq!(active_names(&store, &mut disk), (Some("m01".to_string()), Some("x".to_string())));
    let pending = disk.take_pending().len();
    assert!(pending > 0);

    let out = ref_switch(&mut store, &mut disk, "b01/algebra");
    assert!(matches!(out, Err(Error::Reference(ReferenceError::NotFound(Segment::Course)))));
    assert_eq!(active_names(&store, &mut disk), (Some("m01".to_string()), Some("x".to_string())));
    let writes: Vec<Action> = disk
        .take_pending()
        .into_iter()
        .filter(|a| matches!(a, Action::WriteStoreFile { .. } | Action::WriteSemesterFile { .. }))
        .collect();
    assert!(writes.is_empty());

    let out = ref_switch(&mut store, &mut disk, "zz/x");
    assert!(matches!(out, Err(Error::Reference(ReferenceError::NotFound(Segment::Semester)))));
}

#[test]
fn malformed_references_are_rejected() {
    let mut disk = studies(vec![semester_dir("b01", vec![course_dir("x")])]);
    let mut store = open(&mut disk);
    disk.take_pending();
    for reference in ["", "a/b/c", "b01/x/"] {
        let out = ref_switch(&mut store, &mut disk, reference);
        assert!(matches!(out, Err(Error::Reference(ReferenceError::InvalidReference))));
        assert!(disk.take_pending().is_empty());
    }
    let out = context_switch(&mut store, &mut disk, "/elsewhere/b01");
    assert!(matches!(out, Err(Error::Reference(ReferenceError::OutOfScope))));
    assert!(disk.take_pending().is_empty());
    let out = ref_switch(&mut store, &mut disk, "nothing");
    assert!(matches!(out, Err(Error::Reference(ReferenceError::NotFound(Segment::Name)))));
    let made: Vec<Action> = disk.take_pending();
    assert!(made.iter().all(|a| matches!(
        a,
        Action::CreateStoreFile
            | Action::CreateSemesterFile { .. }
            | Action::CreateCourseFile { .. }
    )));
    assert_eq!(active_names(&store, &mut disk), (None, None));
}

#[test]
fn switch_goes_by_the_reference_where_one_is_given() {
    let mut disk = studies(vec![semester_dir("b01", vec![course_dir("x")])]);
    let mut store = open(&mut disk);
    switch(&mut store, &mut disk, Some("b01/x".to_string()), "/outside").unwrap();
    assert_eq!(active_names(&store, &mut disk), (Some("b01".to_string()), Some("x".to_string())));
    switch(&mut store, &mut disk, None, "/studies").unwrap();
    assert_eq!(active_names(&store, &mut disk), (None, None));
}

#[test]
fn the_journal_lists_the_steps_of_a_switch() {
    let mut disk = studies(vec![semester_dir("b01", vec![course_dir("x")])]);
    let mut store = open(&mut disk);
    disk.take_pending();
    ref_switch(&mut store, &mut disk, "b01/x").unwrap();
    let steps = disk.take_pending();
    assert_eq!(
        steps,
        vec![
            Action::CreateSemesterFile { semester: "b01".to_string() },
            Action::CreateCourseFile { semester: "b01".to_string(), course: "x".to_string() },
            Action::WriteStoreFile { active: Some("b01".to_string()) },
            Action::Link { slot: Slot::Semester, target: "/studies/b01".to_string() },
            Action::WriteSemesterFile {
                semester: "b01".to_string(),
                active: Some("x".to_string())
            },
            Action::Link { slot: Slot::Course, target: "/studies/b01/x".to_string() },
        ]
    );
}

/// Does one action on a directory with the steps of the library.
fn redo(disk: &mut Disk, action: Action) {
    match action {
        Action::CreateStoreFile => disk.touch_store_file().unwrap(),
        Action::CreateSemesterFile { semester } => disk.touch_semester_file(&semester).unwrap(),
        Action::CreateCourseFile { semester, course } => {
            disk.touch_course_file(&semester, &course).unwrap()
        }
        Action::WriteStoreFile { active } => disk.write_store_file(active).unwrap(),
        Action::WriteSemesterFile { semester, active } => {
            disk.write_semester_file(&semester, active).unwrap()
        }
        Action::CreateSemesterDir { name } => disk.create_semester_dir(&name).unwrap(),
        Action::CreateCourseDir { semester, name } => {
            disk.create_course_dir(&semester, &name).unwrap()
        }
        Action::RemoveSemesterDir { name } => disk.remove_semester_dir(&name).unwrap(),
        Action::RemoveCourseDir { semester, name } => {
            disk.remove_course_dir(&semester, &name).unwrap()
        }
        Action::RenameCourseDir { semester, from, to } => {
            disk.rename_course_dir(&semester, &from, &to).unwrap()
        }
        Action::Link { slot, target } => disk.make_link(slot, &target).unwrap(),
        Action::Unlink { slot } => disk.drop_link(slot),
    }
}

#[test]
fn the_pending_actions_lead_from_the_old_image_to_the_new() {
    let base = || vec![
        semester_dir("b01", vec![course_dir("algebra"), course_dir("logic")]),
        semester_dir("m01", vec![course_dir("x")]),
    ];
    let mut disk = studies(base());
    let mut store = open(&mut disk);
    ref_switch(&mut store, &mut disk, "b01/algebra").unwrap();
    let mut b01 = store.current_semester(&mut disk).unwrap();
    let algebra = b01.active_course(&mut disk).unwrap();
    b01.move_course(&mut disk, algebra, "analysis").unwrap();
    store.add_semester(&mut disk, 2, None).unwrap();
    ref_switch(&mut store, &mut disk, "x").unwrap();
    let logic = b01.course("logic", &mut disk).unwrap();
    b01.remove_course(&mut disk, logic).unwrap();
    let m01 = store.current_semester(&mut disk).unwrap();
    store.remove_semester(&mut disk, m01).unwrap();
    context_switch(&mut store, &mut disk, "/studies/b02").unwrap();

    let mut again = studies(base());
    for action in disk.take_pending() {
        redo(&mut again, action);
    }
    assert_eq!(again.image(), disk.image());
    assert_eq!(active_names(&store, &mut again), (Some("b02".to_string()), None));
    assert_eq!(again.course_dirs("b01"), vec!["analysis".to_string()]);
    assert_eq!(again.semester_dirs(), vec!["b01".to_string(), "b02".to_string()]);
}

fn made_semester(semester: &str) -> Action {
    Action::CreateSemesterFile { semester: semester.to_string() }
}

fn made_course(semester: &str, course: &str) -> Action {
    Action::CreateCourseFile { semester: semester.to_string(), course: course.to_string() }
}

#[test]
fn listing_makes_each_sidecar_file_once() {
    let mut disk = studies(vec![
        semester_dir("b01", vec![course_dir("x")]),
        semester_dir("m01", vec![]),
    ]);
    let store = open(&mut disk);
    assert_eq!(disk.take_pending(), vec![Action::CreateStoreFile]);
    store.semesters(&mut disk);
    assert_eq!(disk.take_pending(), vec![made_semester("b01"), made_semester("m01")]);
    store.semesters(&mut disk);
    assert_eq!(disk.take_pending(), vec![]);
    store.courses(&mut disk);
    assert_eq!(disk.take_pending(), vec![made_course("b01", "x")]);
    store.courses(&mut disk);
    assert_eq!(disk.take_pending(), vec![]);
}

#[test]
fn a_switch_notes_its_lookups_and_its_changes_in_their_order() {
    let mut disk = studies(vec![
        semester_dir("b01", vec![course_dir("algebra")]),
        semester_dir("m01", vec![course_dir("x")]),
    ]);
    let mut store = open(&mut disk);
    disk.take_pending();
    ref_switch(&mut store, &mut disk, "b01").unwrap();
    assert_eq!(
        disk.take_pending(),
        vec![
            made_semester("b01"),
            Action::WriteStoreFile { active: Some("b01".to_string()) },
            Action::Link { slot: Slot::Semester, target: "/studies/b01".to_string() },
            Action::WriteSemesterFile { semester: "b01".to_string(), active: None },
        ]
    );
    ref_switch(&mut store, &mut disk, "x").unwrap();
    assert_eq!(
        disk.take_pending(),
        vec![
            made_semester("m01"),
            made_course("m01", "x"),
            Action::WriteStoreFile { active: Some("m01".to_string()) },
            Action::Unlink { slot: Slot::Semester },
            Action::Link { slot: Slot::Semester, target: "/studies/m01".to_string() },
            Action::WriteSemesterFile { semester: "m01".to_string(), active: Some("x".to_string()) },
            Action::Link { slot: Slot::Course, target: "/studies/m01/x".to_string() },
        ]
    );
}

#[test]
fn a_failed_lookup_notes_only_the_files_it_made() {
    let mut disk = studies(vec![semester_dir("b01", vec![course_dir("algebra")])]);
    let mut store = open(&mut disk);
    disk.take_pending();
    assert!(ref_switch(&mut store, &mut disk, "nope/none").is_err());
    assert_eq!(disk.take_pending(), vec![]);
    assert!(ref_switch(&mut store, &mut disk, "b01/none").is_err());
    assert_eq!(disk.take_pending(), vec![made_semester("b01")]);
    assert!(ref_switch(&mut store, &mut disk, "b01/none").is_err());
    assert_eq!(disk.take_pending(), vec![]);
    assert!(context_switch(&mut store, &mut disk, "/elsewhere").is_err());
    assert_eq!(disk.take_pending(), vec![]);
    assert!(context_switch(&mut store, &mut disk, "/studies/b01/none").is_err());
    assert_eq!(
        disk.take_pending(),
        vec![
            Action::WriteStoreFile { active: Some("b01".to_string()) },
            Action::Link { slot: Slot::Semester, target: "/studies/b01".to_string() },
            Action::WriteSemesterFile { semester: "b01".to_string(), active: None },
        ]
    );
}

#[test]
fn a_missed_course_leaves_no_course_of_an_earlier_selection() {
    let mut disk = studies(vec![
        semester_dir("b01", vec![course_dir("algebra")]),
        semester_dir("m02", vec![course_dir("x")]),
    ]);
    let mut store = open(&mut disk);
    ref_switch(&mut store, &mut disk, "b01/algebra").unwrap();
    ref_switch(&mut store, &mut disk, "m02/x").unwrap();
    assert_eq!(disk.read_semester_file("b01"), Ok(Some("algebra".to_string())));
    assert_eq!(disk.link_state(Slot::Course), LinkState::Link("/studies/m02/x".to_string()));

    let out = context_switch(&mut store, &mut disk, "/studies/b01/nothing");
    assert!(matches!(out, Err(Error::Reference(ReferenceError::NotFound(Segment::Course)))));
    assert_eq!(active_names(&store, &mut disk), (Some("b01".to_string()), None));
    assert_eq!(disk.read_semester_file("b01"), Ok(None));
    assert_eq!(disk.link_state(Slot::Semester), LinkState::Link("/studies/b01".to_string()));
    assert_eq!(disk.link_state(Slot::Course), LinkState::Absent);
    assert_eq!(disk.read_semester_file("m02"), Ok(Some("x".to_string())));
}
