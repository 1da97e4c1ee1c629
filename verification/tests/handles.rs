use mm::cycle::StudyCycle;
use mm::disk::Disk;
use mm::error::{ConfigError, PathError, PersistenceError};
use mm::image::{
    CourseDir, CourseFile, Image, LinkState, PointerFile, SemesterDO, SemesterDir, Slot, StoreDO,
};
use mm::journal::Action;
use mm::names::SemesterNames;
use mm::paths::{EntryPoint, MaybeSymLinkable};

fn course_dir(name: &str) -> CourseDir {
    CourseDir { name: name.to_string(), is_dir: true, file: CourseFile::Missing }
}

fn semester_dir(name: &str, courses: Vec<CourseDir>) -> SemesterDir {
    SemesterDir { name: name.to_string(), is_dir: true, file: PointerFile::Missing, courses }
}

fn plain_file(name: &str) -> SemesterDir {
    SemesterDir {
        name: name.to_string(),
        is_dir: false,
        file: PointerFile::Missing,
        courses: Vec::new(),
    }
}

fn image_of(semesters: Vec<SemesterDir>) -> Image {
    Image {
        root: "/studies".to_string(),
        is_dir: true,
        file: PointerFile::Missing,
        semesters,
        semester_link: LinkState::Absent,
        course_link: LinkState::Absent,
    }
}

fn disk_of(semesters: Vec<SemesterDir>) -> Disk {
    Disk::new(image_of(semesters)).expect("a well-formed image")
}

#[test]
fn the_entry_point_must_be_a_directory() {
    let disk = disk_of(vec![]);
    let entry = EntryPoint::new("/studies", &disk).unwrap();
    assert_eq!(entry.path(), "/studies");
    assert_eq!(EntryPoint::from_path("/studies", &disk).unwrap().path(), "/studies");
    assert_eq!(EntryPoint::new("/elsewhere", &disk).unwrap_err(), PathError::NotADirectory);
    let mut image = image_of(vec![]);
    image.is_dir = false;
    let disk = Disk::new(image).unwrap();
    assert_eq!(EntryPoint::new("/studies", &disk).unwrap_err(), PathError::NotADirectory);
    assert_eq!(EntryPoint::from_path("/studies", &disk).unwrap_err(), PathError::NotADirectory);
}

#[test]
fn the_data_file_is_made_once() {
    let mut disk = disk_of(vec![semester_dir("b01", vec![course_dir("x")])]);
    let entry = EntryPoint::new("/studies", &disk).unwrap();
    let names = SemesterNames::new(None, None).unwrap();
    let file = entry.data_file(&mut disk).unwrap();
    assert_eq!(file.path(), "/studies/.mm");
    assert_eq!(file.read(&disk), Ok(StoreDO { active_semester: None }));
    entry.data_file(&mut disk).unwrap();
    assert_eq!(disk.take_pending(), vec![Action::CreateStoreFile]);

    let semester = entry.semester_path("b01", &names, &disk).unwrap();
    let file = semester.data_file(&mut disk).unwrap();
    assert_eq!(file.path(), "/studies/b01/.mm");
    semester.data_file(&mut disk).unwrap();
    assert_eq!(
        disk.take_pending(),
        vec![Action::CreateSemesterFile { semester: "b01".to_string() }]
    );
    assert_eq!(file.read(&disk), Ok(SemesterDO { active_course: None }));
    file.write(&mut disk, &SemesterDO { active_course: Some("x".to_string()) }).unwrap();
    assert_eq!(file.read(&disk), Ok(SemesterDO { active_course: Some("x".to_string()) }));

    let course = semester.course_path("x", &disk).unwrap();
    let file = course.data_file(&mut disk).unwrap();
    assert_eq!(file.path(), "/studies/b01/x/course.toml");
    assert_eq!(file.read(&disk).unwrap().name, None);
    course.data_file(&mut disk).unwrap();
    let created = disk
        .take_pending()
        .into_iter()
        .filter(|a| matches!(a, Action::CreateCourseFile { .. }))
        .count();
    assert_eq!(created, 1);
}

#[test]
fn the_store_file_is_written_and_read_back() {
    let mut disk = disk_of(vec![]);
    let entry = EntryPoint::new("/studies", &disk).unwrap();
    let file = entry.data_file(&mut disk).unwrap();
    file.write(&mut disk, &StoreDO { active_semester: Some("b01".to_string()) }).unwrap();
    assert_eq!(file.read(&disk), Ok(StoreDO { active_semester: Some("b01".to_string()) }));
}

#[test]
fn semester_paths_are_the_directories_that_the_policy_takes() {
    let disk = disk_of(vec![
        semester_dir("m02", vec![]),
        semester_dir("notes", vec![]),
        plain_file("b03"),
        semester_dir("b01", vec![]),
    ]);
    let entry = EntryPoint::new("/studies", &disk).unwrap();
    let names = SemesterNames::new(None, None).unwrap();
    let found: Vec<(String, String)> = entry
        .semester_paths(&names, &disk)
        .iter()
        .map(|p| (p.name().to_string(), p.path().clone()))
        .collect();
    assert_eq!(
        found,
        vec![
            ("m02".to_string(), "/studies/m02".to_string()),
            ("b01".to_string(), "/studies/b01".to_string()),
        ]
    );
    assert!(entry.semester_path("notes", &names, &disk).is_none());
    assert!(entry.semester_path("b03", &names, &disk).is_none());
    assert!(entry.semester_path("d01", &names, &disk).is_none());
    let path = entry.semester_path("m02", &names, &disk).unwrap();
    assert_eq!((path.name(), path.path().as_str()), ("m02", "/studies/m02"));
    assert_eq!(path.copy().name(), "m02");
}

#[test]
fn creating_a_semester_that_exists_fails_and_changes_nothing() {
    let mut b01 = semester_dir("b01", vec![course_dir("algebra")]);
    b01.file = PointerFile::Holds(Some("algebra".to_string()));
    let mut disk = disk_of(vec![b01, plain_file("m02")]);
    let before = format!("{:?}", disk.image());
    let entry = EntryPoint::new("/studies", &disk).unwrap();
    assert_eq!(
        entry.create_semester_path(&mut disk, 1, StudyCycle::Bachelor).unwrap_err(),
        PathError::AlreadyExists
    );
    assert_eq!(
        entry.create_semester_path(&mut disk, 2, StudyCycle::Master).unwrap_err(),
        PathError::AlreadyExists
    );
    assert_eq!(format!("{:?}", disk.image()), before);
    assert!(disk.take_pending().is_empty());

    let made = entry.create_semester_path(&mut disk, 7, StudyCycle::Doctorate).unwrap();
    assert_eq!((made.name(), made.path().as_str()), ("d07", "/studies/d07"));
    assert_eq!(disk.take_pending(), vec![Action::CreateSemesterDir { name: "d07".to_string() }]);
    assert_eq!(disk.semester_dirs(), vec!["b01".to_string(), "d07".to_string()]);
}

#[test]
fn course_paths_are_listed_by_name() {
    let mut courses = vec![course_dir("zeta"), course_dir("alpha"), course_dir("Beta")];
    courses.push(CourseDir { name: "notes.txt".to_string(), is_dir: false, file: CourseFile::Missing });
    let mut disk = disk_of(vec![semester_dir("b01", courses)]);
    let entry = EntryPoint::new("/studies", &disk).unwrap();
    let names = SemesterNames::new(None, None).unwrap();
    let semester = entry.semester_path("b01", &names, &disk).unwrap();
    let listed: Vec<(String, String, String)> = semester
        .course_paths(&disk)
        .iter()
        .map(|p| (p.name().to_string(), p.semester().to_string(), p.path().clone()))
        .collect();
    assert_eq!(
        listed,
        vec![
            ("Beta".to_string(), "b01".to_string(), "/studies/b01/Beta".to_string()),
            ("alpha".to_string(), "b01".to_string(), "/studies/b01/alpha".to_string()),
            ("zeta".to_string(), "b01".to_string(), "/studies/b01/zeta".to_string()),
        ]
    );
    assert!(semester.course_path("notes.txt", &disk).is_none());
    assert!(semester.course_path("gamma", &disk).is_none());
    assert_eq!(semester.course_path("alpha", &disk).unwrap().copy().name(), "alpha");

    assert_eq!(
        semester.create_course_path(&mut disk, "alpha").unwrap_err(),
        PathError::AlreadyExists
    );
    assert_eq!(
        semester.create_course_path(&mut disk, "notes.txt").unwrap_err(),
        PathError::AlreadyExists
    );
    for name in ["", ".", "..", "a/b", "/", "a\0"] {
        assert_eq!(
            semester.create_course_path(&mut disk, name).unwrap_err(),
            PathError::InvalidName
        );
        assert!(semester.course_path(name, &disk).is_none());
    }
    assert!(disk.take_pending().is_empty());
    let made = semester.create_course_path(&mut disk, "gamma").unwrap();
    assert_eq!(made.path(), "/studies/b01/gamma");
    made.remove(&mut disk).unwrap();
    assert!(semester.course_path("gamma", &disk).is_none());
    let gone = semester.copy();
    semester.remove(&mut disk).unwrap();
    assert_eq!(gone.copy().remove(&mut disk), Err(PersistenceError::Unwritable));
    assert_eq!(gone.create_course_path(&mut disk, "x").unwrap_err(), PathError::NotADirectory);
    assert!(gone.data_file(&mut disk).is_err());
    assert!(gone.course_paths(&disk).is_empty());
}

#[test]
fn a_mirror_must_be_a_symlink_or_nothing() {
    let mut image = image_of(vec![]);
    image.semester_link = LinkState::Other;
    image.course_link = LinkState::Link("/old".to_string());
    let mut disk = Disk::new(image).unwrap();
    let path = || Some("/links/current".to_string());
    assert_eq!(
        MaybeSymLinkable::new(path(), Slot::Semester, &disk).unwrap_err(),
        ConfigError::NotASymlink
    );
    assert!(MaybeSymLinkable::new(None, Slot::Semester, &disk).is_ok());
    let mirror = MaybeSymLinkable::new(path(), Slot::Course, &disk).unwrap();

    mirror.link_from(&mut disk, "/studies/b01/x").unwrap();
    assert_eq!(disk.link_state(Slot::Course), LinkState::Link("/studies/b01/x".to_string()));
    mirror.copy().link_from(&mut disk, "/studies/b01/x").unwrap();
    assert_eq!(disk.link_state(Slot::Course), LinkState::Link("/studies/b01/x".to_string()));
    mirror.remove_link(&mut disk).unwrap();
    mirror.remove_link(&mut disk).unwrap();
    assert_eq!(disk.link_state(Slot::Course), LinkState::Absent);
    assert_eq!(
        disk.take_pending(),
        vec![
            Action::Unlink { slot: Slot::Course },
            Action::Link { slot: Slot::Course, target: "/studies/b01/x".to_string() },
            Action::Unlink { slot: Slot::Course },
            Action::Link { slot: Slot::Course, target: "/studies/b01/x".to_string() },
            Action::Unlink { slot: Slot::Course },
        ]
    );
}

#[test]
fn a_mirror_without_a_path_does_nothing() {
    let mut image = image_of(vec![]);
    image.semester_link = LinkState::Link("/old".to_string());
    let mut disk = Disk::new(image).unwrap();
    let mirror = MaybeSymLinkable::new(None, Slot::Semester, &disk).unwrap();
    mirror.link_from(&mut disk, "/studies/b01").unwrap();
    mirror.remove_link(&mut disk).unwrap();
    assert_eq!(disk.link_state(Slot::Semester), LinkState::Link("/old".to_string()));
    assert!(disk.take_pending().is_empty());
}
