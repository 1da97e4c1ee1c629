use mm::config::Config;
use mm::cycle::StudyCycle;
use mm::disk::Disk;
use mm::error::{Error, PathError, PersistenceError};
use mm::image::{CourseDir, CourseFile, Image, LinkState, PointerFile, SemesterDir, Slot};
use mm::names::{NamingError, SemesterNames};
use mm::paths::{EntryPoint, MaybeSymLinkable};
use mm::store::Store;
use mm::switch::Selection;

fn course_dir(name: &str) -> CourseDir {
    CourseDir { name: name.to_string(), is_dir: true, file: CourseFile::Missing }
}

fn semester_dir(name: &str, courses: Vec<CourseDir>) -> SemesterDir {
    SemesterDir { name: name.to_string(), is_dir: true, file: PointerFile::Missing, courses }
}

fn image_of(semesters: Vec<SemesterDir>) -> Image {
    Image {
        root: "/studies".to_string(),
        is_dir: true,
        file: PointerFile::Missing,
        semesters,
        semester_link: LinkState::Absent,
        course_link: LinkState::Absent,
    }
}

fn open(disk: &mut Disk) -> Result<Store, Error> {
    let entry = EntryPoint::new("/studies", disk).unwrap();
    let names = SemesterNames::new(None, None).unwrap();
    let semester_link =
        MaybeSymLinkable::new(Some("/links/semester".to_string()), Slot::Semester, disk).unwrap();
    let course_link =
        MaybeSymLinkable::new(Some("/links/course".to_string()), Slot::Course, disk).unwrap();
    let config = Config::from_parts(entry, names, semester_link, course_link);
    assert_eq!(config.entry_point().path(), "/studies");
    assert!(config.semester_names().is_name("b01"));
    Store::new(config, disk)
}

fn names_of(store: &Store, disk: &mut Disk) -> Vec<String> {
    store.semesters(disk).iter().map(|s| s.name()).collect()
}

#[test]
fn the_store_takes_the_persisted_semester_if_it_is_still_there() {
    let mut image = image_of(vec![semester_dir("b01", vec![])]);
    image.file = PointerFile::Holds(Some("b01".to_string()));
    let mut disk = Disk::new(image).unwrap();
    let store = open(&mut disk).unwrap();
    assert_eq!(store.current_semester(&mut disk).unwrap().name(), "b01");
    assert_eq!(store.active_semester(&mut disk).unwrap().name(), "b01");
    assert_eq!(store.entry_point().path(), "/studies");
    assert!(store.semester_names().is_name("m01"));

    for stale in ["m01", "notes", ""] {
        let mut image = image_of(vec![semester_dir("b01", vec![]), semester_dir("notes", vec![])]);
        image.file = PointerFile::Holds(Some(stale.to_string()));
        let mut disk = Disk::new(image).unwrap();
        let store = open(&mut disk).unwrap();
        assert!(store.current_semester(&mut disk).is_none());
        assert!(store.current_course(&mut disk).is_none());
    }
}

#[test]
fn the_store_needs_a_readable_sidecar_file() {
    let mut image = image_of(vec![]);
    image.file = PointerFile::Corrupt;
    let mut disk = Disk::new(image).unwrap();
    assert!(matches!(open(&mut disk), Err(Error::Persistence(PersistenceError::Unreadable))));
}

#[test]
fn semesters_and_courses_are_listed() {
    let mut corrupt = semester_dir("d01", vec![course_dir("hidden")]);
    corrupt.file = PointerFile::Corrupt;
    let mut disk = Disk::new(image_of(vec![
        semester_dir("m01", vec![course_dir("z"), course_dir("a")]),
        semester_dir("notes", vec![course_dir("n")]),
        corrupt,
        semester_dir("b01", vec![course_dir("k")]),
    ]))
    .unwrap();
    let store = open(&mut disk).unwrap();
    assert_eq!(names_of(&store, &mut disk), vec!["m01".to_string(), "b01".to_string()]);
    let courses: Vec<String> =
        store.courses(&mut disk).iter().map(|c| c.path().path().clone()).collect();
    assert_eq!(
        courses,
        vec![
            "/studies/m01/a".to_string(),
            "/studies/m01/z".to_string(),
            "/studies/d01/hidden".to_string(),
            "/studies/b01/k".to_string(),
        ]
    );
    let m01 = store.get_semester("m01", &mut disk).unwrap();
    let of_m01: Vec<String> =
        store.semester_courses(m01, &mut disk).iter().map(|c| c.name()).collect();
    assert_eq!(of_m01, vec!["[a]".to_string(), "[z]".to_string()]);
    assert!(store.get_semester("d01", &mut disk).is_none());
    assert!(store.get_semester("notes", &mut disk).is_none());
    assert!(store.get_semester("b02", &mut disk).is_none());
}

#[test]
fn removing_the_active_semester_leaves_none_active() {
    let mut disk = Disk::new(image_of(vec![semester_dir("b01", vec![course_dir("x")])])).unwrap();
    let mut store = open(&mut disk).unwrap();
    let mut semester = store.get_semester("b01", &mut disk).unwrap();
    store.set_current_semester(&mut disk, Some(&semester)).unwrap();
    let x = semester.course("x", &mut disk).unwrap();
    store.set_current_course(&mut disk, &mut semester, Some(&x)).unwrap();
    assert_eq!(store.current_semester(&mut disk).unwrap().name(), "b01");
    assert_eq!(store.current_course(&mut disk).unwrap().path().name(), "x");
    assert!(store.is_active(&semester, &mut disk));

    semester.path().copy().remove(&mut disk).unwrap();
    assert!(store.current_semester(&mut disk).is_none());
    assert!(store.current_course(&mut disk).is_none());
    assert!(!store.is_active(&semester, &mut disk));
}

#[test]
fn removing_a_semester_through_the_store_clears_pointer_and_mirrors() {
    let mut disk = Disk::new(image_of(vec![
        semester_dir("b01", vec![course_dir("x")]),
        semester_dir("m01", vec![]),
    ]))
    .unwrap();
    let mut store = open(&mut disk).unwrap();
    let mut b01 = store.get_semester("b01", &mut disk).unwrap();
    let m01 = store.get_semester("m01", &mut disk).unwrap();
    store.set_current_semester(&mut disk, Some(&b01)).unwrap();
    let x = b01.course("x", &mut disk).unwrap();
    store.set_current_course(&mut disk, &mut b01, Some(&x)).unwrap();

    store.remove_semester(&mut disk, m01).unwrap();
    assert_eq!(store.current_semester(&mut disk).unwrap().name(), "b01");
    assert_eq!(disk.link_state(Slot::Semester), LinkState::Link("/studies/b01".to_string()));

    let again = store.get_semester("b01", &mut disk).unwrap();
    store.remove_semester(&mut disk, again.copy()).unwrap();
    assert!(store.current_semester(&mut disk).is_none());
    assert_eq!(disk.read_store_file(), Ok(None));
    assert_eq!(disk.link_state(Slot::Semester), LinkState::Absent);
    assert_eq!(disk.link_state(Slot::Course), LinkState::Absent);
    assert_eq!(store.remove_semester(&mut disk, again), Err(PersistenceError::Unwritable));
    assert!(names_of(&store, &mut disk).is_empty());
}

#[test]
fn setting_no_semester_removes_both_mirrors() {
    let mut image = image_of(vec![semester_dir("b01", vec![])]);
    image.semester_link = LinkState::Link("/studies/b01".to_string());
    image.course_link = LinkState::Link("/studies/b01/x".to_string());
    image.file = PointerFile::Holds(Some("b01".to_string()));
    let mut disk = Disk::new(image).unwrap();
    let mut store = open(&mut disk).unwrap();
    store.set_current_semester(&mut disk, None).unwrap();
    assert_eq!(disk.link_state(Slot::Semester), LinkState::Absent);
    assert_eq!(disk.link_state(Slot::Course), LinkState::Absent);
    assert_eq!(disk.read_store_file(), Ok(None));
    assert!(store.current_semester(&mut disk).is_none());
}

#[test]
fn a_semester_is_added_under_its_canonical_name() {
    let mut disk = Disk::new(image_of(vec![semester_dir("m01", vec![])])).unwrap();
    let mut store = open(&mut disk).unwrap();
    assert!(matches!(
        store.add_semester(&mut disk, 2, None),
        Err(Error::Naming(NamingError::MissingCycle))
    ));
    let added = store.add_semester(&mut disk, 2, Some(StudyCycle::Bachelor)).unwrap();
    assert_eq!(added.name(), "b02");
    assert_eq!(added.path().path(), "/studies/b02");
    assert!(matches!(
        store.add_semester(&mut disk, 2, Some(StudyCycle::Bachelor)),
        Err(Error::Path(PathError::AlreadyExists))
    ));
    let m01 = store.get_semester("m01", &mut disk).unwrap();
    store.set_current_semester(&mut disk, Some(&m01)).unwrap();
    assert_eq!(store.add_semester(&mut disk, 2, None).unwrap().name(), "m02");
    assert_eq!(
        names_of(&store, &mut disk),
        vec!["m01".to_string(), "b02".to_string(), "m02".to_string()]
    );
    let before = disk.semester_names();
    assert!(matches!(
        store.add_semester(&mut disk, 100, None),
        Err(Error::Naming(NamingError::NoMatch))
    ));
    let entry = EntryPoint::new("/studies", &disk).unwrap();
    let first_digit = SemesterNames::new(
        Some(r"^(?P<study_cycle>[bmd])(?P<semester_number>\d)".to_string()),
        None,
    )
    .unwrap();
    let none = || MaybeSymLinkable::new(None, Slot::Semester, &disk).unwrap();
    let config = Config::from_parts(entry, first_digit, none(), none());
    let loose = Store::new(config, &mut disk).unwrap();
    assert!(matches!(
        loose.add_semester(&mut disk, 42, Some(StudyCycle::Doctorate)),
        Err(Error::Naming(NamingError::NotCanonical))
    ));
    assert_eq!(disk.semester_names(), before);
    for semester in store.semesters(&mut disk) {
        assert!(semester.is_canonical());
        assert_eq!(semester.name(), semester.path().name());
    }
}

#[test]
fn directories_of_the_fixed_scheme_are_told_apart() {
    let mut file = semester_dir("b02", vec![]);
    file.is_dir = false;
    let mut disk = Disk::new(image_of(vec![
        semester_dir("b01", vec![]),
        file,
        semester_dir("m", vec![]),
        semester_dir("d1x", vec![]),
        semester_dir("x1", vec![]),
        semester_dir("b99999", vec![]),
    ]))
    .unwrap();
    let store = open(&mut disk).unwrap();
    assert!(store.is_semester("b01", &disk));
    assert!(store.is_semester("m", &disk));
    assert!(store.is_semester("b99999", &disk));
    assert!(!store.is_semester("b02", &disk));
    assert!(!store.is_semester("d1x", &disk));
    assert!(!store.is_semester("x1", &disk));
    assert!(!store.is_semester("d01", &disk));
    assert!(!store.is_semester("", &disk));
}

#[test]
fn a_reference_is_looked_up_without_a_switch() {
    let mut disk = Disk::new(image_of(vec![
        semester_dir("b01", vec![course_dir("x")]),
        semester_dir("m01", vec![]),
    ]))
    .unwrap();
    let store = open(&mut disk).unwrap();
    assert!(matches!(store.get_by_reference(&mut disk, "m01"), Some(Selection::Semester(_))));
    assert!(matches!(store.get_by_reference(&mut disk, "x"), Some(Selection::Course(_, _))));
    assert!(matches!(store.get_by_reference(&mut disk, "b01/x"), Some(Selection::Course(_, _))));
    assert!(store.get_by_reference(&mut disk, "m01/x").is_none());
    assert!(store.get_by_reference(&mut disk, "").is_none());
    assert!(store.current_semester(&mut disk).is_none());
}

#[test]
fn the_active_semester_is_set_and_mirrored() {
    let mut image = image_of(vec![semester_dir("b01", vec![]), semester_dir("m01", vec![])]);
    image.semester_link = LinkState::Link("/somewhere/else".to_string());
    let mut disk = Disk::new(image).unwrap();
    let mut store = open(&mut disk).unwrap();
    let b01 = store.get_semester("b01", &mut disk).unwrap();
    let m01 = store.get_semester("m01", &mut disk).unwrap();
    store.set_active(&mut disk, Some(&b01)).unwrap();
    assert_eq!(disk.read_store_file(), Ok(Some("b01".to_string())));
    assert_eq!(disk.link_state(Slot::Semester), LinkState::Link("/studies/b01".to_string()));
    store.set_current_semester(&mut disk, Some(&m01)).unwrap();
    assert_eq!(disk.read_store_file(), Ok(Some("m01".to_string())));
    assert_eq!(disk.link_state(Slot::Semester), LinkState::Link("/studies/m01".to_string()));
    assert!(store.is_active(&m01, &mut disk));
    assert!(!store.is_active(&b01, &mut disk));

    let mut again = open(&mut disk).unwrap();
    assert_eq!(again.current_semester(&mut disk).unwrap().name(), "m01");
    again.set_active(&mut disk, None).unwrap();
    assert!(open(&mut disk).unwrap().current_semester(&mut disk).is_none());
}

#[test]
fn a_mirror_that_is_in_the_way_fails_the_switch() {
    let image = image_of(vec![semester_dir("b01", vec![course_dir("x")])]);
    let mut disk = Disk::new(image).unwrap();
    let mut store = open(&mut disk).unwrap();
    let mut blocked = image_of(vec![semester_dir("b01", vec![course_dir("x")])]);
    blocked.course_link = LinkState::Other;
    let mut disk = Disk::new(blocked).unwrap();
    let mut b01 = store.get_semester("b01", &mut disk).unwrap();
    store.set_current_semester(&mut disk, Some(&b01)).unwrap();
    let x = b01.course("x", &mut disk).unwrap();
    assert_eq!(
        store.set_current_course(&mut disk, &mut b01, Some(&x)),
        Err(PersistenceError::Unwritable)
    );
    assert_eq!(disk.read_semester_file("b01"), Ok(Some("x".to_string())));
    assert_eq!(disk.link_state(Slot::Course), LinkState::Other);
    store.set_current_course(&mut disk, &mut b01, None).unwrap();
    assert_eq!(disk.read_semester_file("b01"), Ok(None));
}

#[test]
fn a_taken_name_is_told_before_the_policy_is_asked() {
    let mut disk = Disk::new(image_of(vec![
        semester_dir("b100", vec![course_dir("algebra")]),
        semester_dir("d42", vec![]),
    ]))
    .unwrap();
    let store = open(&mut disk).unwrap();
    disk.take_pending();
    let before = disk.semester_names();
    assert!(matches!(
        store.add_semester(&mut disk, 100, Some(StudyCycle::Bachelor)),
        Err(Error::Path(PathError::AlreadyExists))
    ));
    assert!(matches!(
        store.add_semester(&mut disk, 101, Some(StudyCycle::Bachelor)),
        Err(Error::Naming(NamingError::NoMatch))
    ));
    let entry = EntryPoint::new("/studies", &disk).unwrap();
    let first_digit = SemesterNames::new(
        Some(r"^(?P<study_cycle>[bmd])(?P<semester_number>\d)".to_string()),
        None,
    )
    .unwrap();
    let none = || MaybeSymLinkable::new(None, Slot::Semester, &disk).unwrap();
    let loose = Store::new(Config::from_parts(entry, first_digit, none(), none()), &mut disk).unwrap();
    assert!(matches!(
        loose.add_semester(&mut disk, 42, Some(StudyCycle::Doctorate)),
        Err(Error::Path(PathError::AlreadyExists))
    ));
    assert!(matches!(
        loose.add_semester(&mut disk, 43, Some(StudyCycle::Doctorate)),
        Err(Error::Naming(NamingError::NotCanonical))
    ));
    assert_eq!(disk.semester_names(), before);
    assert_eq!(disk.course_names("b100"), vec!["algebra".to_string()]);
    assert_eq!(disk.take_pending(), vec![]);
}

#[test]
fn the_store_removes_a_course_and_what_points_at_it() {
    let mut disk = Disk::new(image_of(vec![semester_dir(
        "b01",
        vec![course_dir("x"), course_dir("y")],
    )]))
    .unwrap();
    let mut store = open(&mut disk).unwrap();
    let mut b01 = store.get_semester("b01", &mut disk).unwrap();
    let x = b01.course("x", &mut disk).unwrap();
    let y = b01.course("y", &mut disk).unwrap();
    store.set_current_semester(&mut disk, Some(&b01)).unwrap();
    store.set_current_course(&mut disk, &mut b01, Some(&x)).unwrap();
    assert_eq!(disk.link_state(Slot::Course), LinkState::Link("/studies/b01/x".to_string()));

    store.remove_course(&mut disk, &mut b01, y.copy()).unwrap();
    assert_eq!(store.current_course(&mut disk).unwrap().path().name(), "x");
    assert_eq!(disk.link_state(Slot::Course), LinkState::Link("/studies/b01/x".to_string()));
    assert_eq!(store.remove_course(&mut disk, &mut b01, y), Err(PersistenceError::Unwritable));

    store.remove_course(&mut disk, &mut b01, x).unwrap();
    assert!(b01.active_course(&mut disk).is_none());
    assert!(store.current_course(&mut disk).is_none());
    assert_eq!(store.current_semester(&mut disk).unwrap().name(), "b01");
    assert_eq!(disk.link_state(Slot::Course), LinkState::Absent);
    assert_eq!(disk.link_state(Slot::Semester), LinkState::Link("/studies/b01".to_string()));
    assert_eq!(disk.course_names("b01"), Vec::<String>::new());
}

#[test]
fn the_store_moves_a_course_and_what_points_at_it() {
    let mut disk = Disk::new(image_of(vec![semester_dir(
        "b01",
        vec![course_dir("x"), course_dir("y")],
    )]))
    .unwrap();
    let mut store = open(&mut disk).unwrap();
    let mut b01 = store.get_semester("b01", &mut disk).unwrap();
    let x = b01.course("x", &mut disk).unwrap();
    let y = b01.course("y", &mut disk).unwrap();
    store.set_current_semester(&mut disk, Some(&b01)).unwrap();
    store.set_current_course(&mut disk, &mut b01, Some(&x)).unwrap();

    let moved = store.move_course(&mut disk, &mut b01, y, "z").unwrap();
    assert_eq!(moved.path().path(), "/studies/b01/z");
    assert_eq!(store.current_course(&mut disk).unwrap().path().name(), "x");
    assert_eq!(disk.link_state(Slot::Course), LinkState::Link("/studies/b01/x".to_string()));

    assert!(matches!(
        store.move_course(&mut disk, &mut b01, x.copy(), "z"),
        Err(Error::Path(PathError::AlreadyExists))
    ));
    assert!(matches!(
        store.move_course(&mut disk, &mut b01, x.copy(), "a/b"),
        Err(Error::Path(PathError::InvalidName))
    ));
    assert_eq!(disk.link_state(Slot::Course), LinkState::Link("/studies/b01/x".to_string()));

    disk.take_pending();
    let moved = store.move_course(&mut disk, &mut b01, x, "w").unwrap();
    assert_eq!(moved.path().name(), "w");
    assert_eq!(store.current_course(&mut disk).unwrap().path().name(), "w");
    assert_eq!(b01.active_course(&mut disk).unwrap().path().name(), "w");
    assert_eq!(disk.read_semester_file("b01"), Ok(Some("w".to_string())));
    assert_eq!(disk.link_state(Slot::Course), LinkState::Link("/studies/b01/w".to_string()));
    assert_eq!(disk.course_names("b01"), vec!["w".to_string(), "z".to_string()]);
    assert_eq!(
        disk.take_pending(),
        vec![
            mm::journal::Action::RenameCourseDir {
                semester: "b01".to_string(),
                from: "x".to_string(),
                to: "w".to_string()
            },
            mm::journal::Action::WriteSemesterFile {
                semester: "b01".to_string(),
                active: Some("w".to_string())
            },
            mm::journal::Action::Unlink { slot: Slot::Course },
            mm::journal::Action::Link { slot: Slot::Course, target: "/studies/b01/w".to_string() },
        ]
    );
}
