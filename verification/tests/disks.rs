use mm::disk::{check_image, copy_course_data, copy_link, Disk, Kind};
use mm::error::{PathError, PersistenceError};
use mm::image::{
    CourseDO, CourseDir, CourseFile, Image, LinkState, PointerFile, SemesterDir, Slot,
};
use mm::journal::Action;

fn course_dir(name: &str) -> CourseDir {
    CourseDir { name: name.to_string(), is_dir: true, file: CourseFile::Missing }
}

fn semester_dir(name: &str, courses: Vec<CourseDir>) -> SemesterDir {
    SemesterDir { name: name.to_string(), is_dir: true, file: PointerFile::Missing, courses }
}

fn plain_file(name: &str) -> SemesterDir {
    SemesterDir {
        name: name.to_string(),
        is_dir: false,
        file: PointerFile::Missing,
        courses: Vec::new(),
    }
}

fn image_of(semesters: Vec<SemesterDir>) -> Image {
    Image {
        root: "/studies".to_string(),
        is_dir: true,
        file: PointerFile::Missing,
        semesters,
        semester_link: LinkState::Absent,
        course_link: LinkState::Absent,
    }
}

fn disk_of(semesters: Vec<SemesterDir>) -> Disk {
    Disk::new(image_of(semesters)).expect("a well-formed image")
}

fn strings(items: &[&str]) -> Vec<String> {
    items.iter().map(|s| s.to_string()).collect()
}

#[test]
fn an_image_with_two_entries_of_one_name_is_refused() {
    assert!(Disk::new(image_of(vec![semester_dir("b01", vec![]), plain_file("b01")])).is_none());
    let twice = vec![course_dir("x"), course_dir("x")];
    assert!(Disk::new(image_of(vec![semester_dir("b01", twice)])).is_none());
    let mut file_with_entries = plain_file("notes");
    file_with_entries.courses.push(course_dir("x"));
    assert!(!check_image(&image_of(vec![file_with_entries])));
    let mut no_directory = image_of(vec![semester_dir("b01", vec![])]);
    no_directory.is_dir = false;
    assert!(!check_image(&no_directory));
    assert!(check_image(&image_of(vec![semester_dir("b01", vec![course_dir("x")])])));
    assert!(check_image(&image_of(vec![])));
    for name in ["", ".", "..", "a/b"] {
        assert!(!check_image(&image_of(vec![semester_dir(name, vec![])])));
        assert!(!check_image(&image_of(vec![semester_dir("b01", vec![course_dir(name)])])));
    }
}

#[test]
fn names_stand_for_directories_files_or_nothing() {
    let disk = disk_of(vec![semester_dir("b01", vec![course_dir("x")]), plain_file("notes.txt")]);
    assert_eq!(disk.semester_kind("b01"), Kind::Directory);
    assert_eq!(disk.semester_kind("notes.txt"), Kind::File);
    assert_eq!(disk.semester_kind("m01"), Kind::Missing);
    assert_eq!(disk.course_kind("b01", "x"), Kind::Directory);
    assert_eq!(disk.course_kind("b01", "y"), Kind::Missing);
    assert_eq!(disk.course_kind("notes.txt", "x"), Kind::Missing);
    assert_eq!(disk.course_kind("m01", "x"), Kind::Missing);
    assert_eq!(disk.semester_names(), strings(&["b01", "notes.txt"]));
    assert_eq!(disk.semester_dirs(), strings(&["b01"]));
    assert_eq!(disk.course_names("b01"), strings(&["x"]));
    assert_eq!(disk.course_names("zz"), Vec::<String>::new());
    assert_eq!(disk.course_dirs("b01"), strings(&["x"]));
    assert_eq!(disk.course_dirs("notes.txt"), Vec::<String>::new());
    assert_eq!(disk.root(), "/studies");
    assert!(disk.root_is_dir());
}

#[test]
fn every_step_is_noted_in_the_journal() {
    let mut disk = disk_of(vec![]);
    assert_eq!(disk.create_semester_dir("b01"), Ok(()));
    assert_eq!(disk.create_semester_dir("b01"), Err(PathError::AlreadyExists));
    assert_eq!(disk.create_course_dir("b01", "x"), Ok(()));
    assert_eq!(disk.create_course_dir("b01", "x"), Err(PathError::AlreadyExists));
    assert_eq!(disk.create_course_dir("zz", "x"), Err(PathError::NotADirectory));
    assert_eq!(disk.touch_store_file(), Ok(()));
    assert_eq!(disk.touch_store_file(), Ok(()));
    assert_eq!(disk.touch_semester_file("b01"), Ok(()));
    assert_eq!(disk.touch_semester_file("zz"), Err(PersistenceError::Unwritable));
    assert_eq!(disk.touch_course_file("b01", "x"), Ok(()));
    assert_eq!(disk.touch_course_file("b01", "y"), Err(PersistenceError::Unwritable));
    assert_eq!(disk.write_store_file(Some("b01".to_string())), Ok(()));
    assert_eq!(disk.write_semester_file("b01", Some("x".to_string())), Ok(()));
    assert_eq!(disk.write_semester_file("zz", None), Err(PersistenceError::Unwritable));
    assert_eq!(disk.rename_course_dir("b01", "x", "y"), Ok(()));
    assert_eq!(disk.rename_course_dir("b01", "x", "z"), Err(PathError::NotADirectory));
    assert_eq!(disk.rename_course_dir("b01", "y", "y"), Err(PathError::AlreadyExists));
    assert_eq!(disk.rename_course_dir("b01", "y", ".."), Err(PathError::InvalidName));
    assert_eq!(disk.create_semester_dir(""), Err(PathError::InvalidName));
    assert_eq!(disk.create_course_dir("b01", "a/b"), Err(PathError::InvalidName));
    assert_eq!(disk.rename_course_dir("zz", "y", "z"), Err(PathError::NotADirectory));
    assert_eq!(disk.make_link(Slot::Course, "/studies/b01/y"), Ok(()));
    assert_eq!(disk.make_link(Slot::Course, "/other"), Err(PersistenceError::Unwritable));
    disk.drop_link(Slot::Course);
    disk.drop_link(Slot::Course);
    disk.drop_link(Slot::Semester);
    assert_eq!(disk.remove_course_dir("b01", "y"), Ok(()));
    assert_eq!(disk.remove_course_dir("b01", "y"), Err(PersistenceError::Unwritable));
    assert_eq!(disk.remove_semester_dir("b01"), Ok(()));
    assert_eq!(disk.remove_semester_dir("b01"), Err(PersistenceError::Unwritable));
    let b01 = || "b01".to_string();
    assert_eq!(
        disk.take_pending(),
        vec![
            Action::CreateSemesterDir { name: b01() },
            Action::CreateCourseDir { semester: b01(), name: "x".to_string() },
            Action::CreateStoreFile,
            Action::CreateSemesterFile { semester: b01() },
            Action::CreateCourseFile { semester: b01(), course: "x".to_string() },
            Action::WriteStoreFile { active: Some(b01()) },
            Action::WriteSemesterFile { semester: b01(), active: Some("x".to_string()) },
            Action::RenameCourseDir { semester: b01(), from: "x".to_string(), to: "y".to_string() },
            Action::Link { slot: Slot::Course, target: "/studies/b01/y".to_string() },
            Action::Unlink { slot: Slot::Course },
            Action::RemoveCourseDir { semester: b01(), name: "y".to_string() },
            Action::RemoveSemesterDir { name: b01() },
        ]
    );
    assert!(disk.take_pending().is_empty());
    let mut expected = image_of(vec![]);
    expected.file = PointerFile::Holds(Some(b01()));
    assert_eq!(disk.image(), &expected);
}

#[test]
fn sidecar_files_are_read_as_they_are() {
    let mut b01 = semester_dir("b01", vec![course_dir("x"), course_dir("y"), course_dir("z")]);
    b01.file = PointerFile::Holds(Some("x".to_string()));
    b01.courses[0].file = CourseFile::Corrupt;
    let data = || CourseDO {
        name: Some("Analysis".to_string()),
        grade: Some(1.7f32.to_bits()),
        ects: Some(6),
        degrees: Some(strings(&["math", "physics"])),
        uebk: Some(false),
    };
    b01.courses[1].file = CourseFile::Holds(data());
    let mut m01 = semester_dir("m01", vec![]);
    m01.file = PointerFile::Corrupt;
    let mut image = image_of(vec![b01, m01, semester_dir("d01", vec![])]);
    image.file = PointerFile::Holds(None);
    let disk = Disk::new(image).unwrap();

    assert_eq!(disk.read_store_file(), Ok(None));
    assert_eq!(disk.read_semester_file("b01"), Ok(Some("x".to_string())));
    assert_eq!(disk.read_semester_file("m01"), Err(PersistenceError::Unreadable));
    assert_eq!(disk.read_semester_file("d01"), Err(PersistenceError::Unreadable));
    assert_eq!(disk.read_semester_file("zz"), Err(PersistenceError::Unreadable));
    assert_eq!(disk.read_course_file("b01", "x"), Err(PersistenceError::Unreadable));
    assert_eq!(disk.read_course_file("b01", "y"), Ok(data()));
    assert_eq!(disk.read_course_file("b01", "z"), Err(PersistenceError::Unreadable));
    assert_eq!(disk.read_course_file("b01", "q"), Err(PersistenceError::Unreadable));
    assert_eq!(copy_course_data(&data()), data());
    assert_eq!(copy_link(&LinkState::Link("/a".to_string())), LinkState::Link("/a".to_string()));
    assert_eq!(copy_link(&LinkState::Other), LinkState::Other);
}

#[test]
fn nothing_can_be_made_where_the_entry_point_is_no_directory() {
    let mut image = image_of(vec![]);
    image.is_dir = false;
    let mut disk = Disk::new(image).unwrap();
    assert_eq!(disk.create_semester_dir("b01"), Err(PathError::NotADirectory));
    assert_eq!(disk.touch_store_file(), Err(PersistenceError::Unwritable));
    assert_eq!(disk.write_store_file(None), Err(PersistenceError::Unwritable));
    assert_eq!(disk.read_store_file(), Err(PersistenceError::Unreadable));
    assert!(disk.take_pending().is_empty());
}
