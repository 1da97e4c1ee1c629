use mm::cli::{Cli, Commands, CourseCommands, SemesterCommands};
use mm::config::Config;
use mm::cycle::{StudyCycle, StudyCycleDO};
use mm::disk::Disk;
use mm::format::FormatType;
use mm::image::{CourseDO, CourseDir, CourseFile, Image, LinkState, PointerFile, SemesterDir, Slot};
use mm::journal::Action;
use mm::names::SemesterNames;
use mm::paths::{EntryPoint, MaybeSymLinkable};
use mm::service::{
    answer_of, number_of, Answer, Asked, CourseService, NumberAnswer, DialogEntry, DialogOutput, Input, Reply, SemesterService, Service,
    StatusFigures, StatusService, SwitchService,
};
use mm::store::Store;

fn course_dir(name: &str) -> CourseDir {
    CourseDir { name: name.to_string(), is_dir: true, file: CourseFile::Missing }
}

fn semester_dir(name: &str, courses: Vec<CourseDir>) -> SemesterDir {
    SemesterDir { name: name.to_string(), is_dir: true, file: PointerFile::Missing, courses }
}

fn studies(active: Option<&str>, semesters: Vec<SemesterDir>) -> (Store, Disk) {
    let image = Image {
        root: "/studies".to_string(),
        is_dir: true,
        file: PointerFile::Holds(active.map(str::to_string)),
        semesters,
        semester_link: LinkState::Absent,
        course_link: LinkState::Absent,
    };
    let mut disk = Disk::new(image).expect("a well-formed image");
    let entry = EntryPoint::new("/studies", &disk).unwrap();
    let names = SemesterNames::new(None, None).unwrap();
    let semester_link = MaybeSymLinkable::new(None, Slot::Semester, &disk).unwrap();
    let course_link = MaybeSymLinkable::new(None, Slot::Course, &disk).unwrap();
    let store = Store::new(Config::from_parts(entry, names, semester_link, course_link), &mut disk).unwrap();
    (store, disk)
}

fn strings(items: &[&str]) -> Vec<String> {
    items.iter().map(|s| s.to_string()).collect()
}

fn lines_of(piece: &FormatType) -> Vec<String> {
    match piece {
        FormatType::RawLine(line) => vec![line.clone()],
        FormatType::Chain(items) => items.iter().flat_map(lines_of).collect(),
        other => panic!("no line: {other:?}"),
    }
}

fn done(reply: Reply) -> Result<FormatType, String> {
    match reply {
        Reply::Done(result) => result,
        Reply::Ask(entries) => panic!("a question: {entries:?}"),
    }
}

fn question(reply: Reply) -> String {
    match reply {
        Reply::Ask(entries) => match &entries[..] {
            [DialogEntry::YesNoInput(text)] => text.clone(),
            other => panic!("another dialog: {other:?}"),
        },
        Reply::Done(result) => panic!("no question: {result:?}"),
    }
}

fn yes() -> Asked {
    Asked::Answered(Some(vec![DialogOutput::YesNo(true)]))
}

fn success(result: Result<FormatType, String>) -> String {
    match result {
        Ok(FormatType::Success(text)) => text,
        other => panic!("no success: {other:?}"),
    }
}

fn info(result: Result<FormatType, String>) -> String {
    match result {
        Ok(FormatType::Info(text)) => text,
        other => panic!("no note: {other:?}"),
    }
}

fn complaint(result: Result<FormatType, String>) -> (String, String) {
    match result {
        Ok(FormatType::Chain(items)) => match &items[..] {
            [FormatType::Error(e), FormatType::Info(i)] => (e.clone(), i.clone()),
            other => panic!("no complaint: {other:?}"),
        },
        other => panic!("no complaint: {other:?}"),
    }
}

fn no_figures() -> StatusFigures {
    StatusFigures {
        average: "0.00".to_string(),
        weighted_average: "0.00".to_string(),
        degrees: vec![],
        averages: vec![],
    }
}

#[test]
fn semesters_are_listed_by_name_with_the_active_one_marked() {
    let (store, mut disk) = studies(
        Some("b02"),
        vec![semester_dir("m01", vec![]), semester_dir("b02", vec![]), semester_dir("b01", vec![])],
    );
    let piece = SemesterService::list(&store, &mut disk).unwrap();
    assert_eq!(
        lines_of(&piece),
        strings(&["active | courses", "         b01    ", "   *     b02    ", "         m01    "])
    );
    let (store, mut disk) = studies(None, vec![semester_dir("m01", vec![])]);
    let piece = SemesterService::list(&store, &mut disk).unwrap();
    assert_eq!(lines_of(&piece), strings(&["courses", "m01    "]));
    let (store, mut disk) = studies(None, vec![semester_dir("notes", vec![])]);
    assert_eq!(SemesterService::list(&store, &mut disk).unwrap_err(), "No semesters found!");
}

#[test]
fn a_semester_is_added_by_the_service() {
    let (store, mut disk) = studies(None, vec![]);
    assert_eq!(
        SemesterService::add(&store, &mut disk, 1, None).unwrap_err(),
        "A study cycle must be provided as currently no semester is active."
    );
    assert_eq!(
        success(SemesterService::add(&store, &mut disk, 1, Some(StudyCycle::Master))),
        "m01 was created."
    );
    assert_eq!(
        SemesterService::add(&store, &mut disk, 1, Some(StudyCycle::Master)).unwrap_err(),
        "The path already exists. (m01)"
    );
}

#[test]
fn a_semester_is_removed_after_the_user_has_confirmed() {
    let (mut store, mut disk) = studies(Some("b01"), vec![semester_dir("b01", vec![])]);
    let name = || "b01".to_string();
    let asked = SemesterService::remove(&mut store, &mut disk, name(), Asked::NotYet);
    assert_eq!(
        question(asked),
        "Are you sure that you want to permanently remove semester 'b01' with all its courses? This action can not be reverted"
    );
    let no = Asked::Answered(Some(vec![DialogOutput::YesNo(false)]));
    assert_eq!(
        info(done(SemesterService::remove(&mut store, &mut disk, name(), no))),
        "Operation has been canceled"
    );
    let gave_up = Asked::Answered(None);
    assert_eq!(
        info(done(SemesterService::remove(&mut store, &mut disk, name(), gave_up))),
        "Operation has been canceled"
    );
    let nothing = Asked::Answered(Some(vec![]));
    assert_eq!(
        done(SemesterService::remove(&mut store, &mut disk, name(), nothing)).unwrap_err(),
        "Dialog has not returned not the specified output"
    );
    let number = Asked::Answered(Some(vec![DialogOutput::Number(1)]));
    assert_eq!(
        done(SemesterService::remove(&mut store, &mut disk, name(), number)).unwrap_err(),
        "Invalid Input"
    );
    assert!(store.current_semester(&mut disk).is_some());
    assert_eq!(
        done(SemesterService::remove(&mut store, &mut disk, "m01".to_string(), yes())).unwrap_err(),
        "Semester could not be found"
    );
    assert_eq!(
        success(done(SemesterService::remove(&mut store, &mut disk, name(), yes()))),
        "Semester 'b01' has been removed"
    );
    assert!(store.current_semester(&mut disk).is_none());
    assert!(store.get_semester("b01", &mut disk).is_none());
}

#[test]
fn courses_are_listed_by_the_names_they_are_shown_under() {
    let mut named = course_dir("a");
    named.file = CourseFile::Holds(CourseDO {
        name: Some("b01".to_string()),
        grade: None,
        ects: None,
        degrees: None,
        uebk: None,
    });
    let mut b01 = semester_dir("b01", vec![course_dir("z"), named]);
    b01.file = PointerFile::Holds(Some("z".to_string()));
    let (store, mut disk) = studies(Some("b01"), vec![b01]);
    let piece = CourseService::list(&store, &mut disk).unwrap();
    assert_eq!(lines_of(&piece), strings(&["Active | Courses", "     *       [z]", "             b01"]));

    let (store, mut disk) =
        studies(Some("b01"), vec![semester_dir("b01", vec![course_dir("z"), course_dir("b01")])]);
    let piece = CourseService::list(&store, &mut disk).unwrap();
    assert_eq!(lines_of(&piece), strings(&["Active | Courses", "           [b01]", "             [z]"]));

    let (store, mut disk) = studies(Some("b01"), vec![semester_dir("b01", vec![])]);
    assert_eq!(info(CourseService::list(&store, &mut disk)), "No courses found");
    let (store, mut disk) = studies(None, vec![semester_dir("b01", vec![course_dir("z")])]);
    assert_eq!(
        complaint(CourseService::list(&store, &mut disk)),
        (
            "No active semester found".to_string(),
            "An active semester is required in order to list the corresponding courses".to_string()
        )
    );
}

#[test]
fn a_course_is_added_and_removed_by_the_service() {
    let (store, mut disk) = studies(Some("b01"), vec![semester_dir("b01", vec![])]);
    let name = || "algebra".to_string();
    assert_eq!(success(CourseService::add(&store, &mut disk, name())), "Course 'algebra' has been added");
    assert_eq!(
        CourseService::add(&store, &mut disk, name()).unwrap_err(),
        "The path already exists. (algebra)"
    );
    assert_eq!(
        CourseService::add(&store, &mut disk, "a/b".to_string()).unwrap_err(),
        "The name is not a valid directory name. (a/b)"
    );
    assert_eq!(
        question(CourseService::remove(&store, &mut disk, name(), Asked::NotYet)),
        "Are you sure that you want to permanently remove course 'algebra' with all its content? This action can not be reverted"
    );
    assert_eq!(
        done(CourseService::remove(&store, &mut disk, "zz".to_string(), yes())).unwrap_err(),
        "Course 'zz' could not be found"
    );
    let text = Asked::Answered(Some(vec![DialogOutput::Text("y".to_string())]));
    assert_eq!(
        done(CourseService::remove(&store, &mut disk, name(), text)).unwrap_err(),
        "Invalid input"
    );
    assert_eq!(
        success(done(CourseService::remove(&store, &mut disk, name(), yes()))),
        "Course 'algebra' has been removed"
    );
    assert!(store.courses(&mut disk).is_empty());

    let (store, mut disk) = studies(None, vec![semester_dir("b01", vec![])]);
    assert_eq!(
        complaint(CourseService::add(&store, &mut disk, name())).1,
        "An active semester is required in order to add a new course"
    );
    assert_eq!(
        complaint(done(CourseService::remove(&store, &mut disk, name(), Asked::NotYet))).1,
        "An active semester is required in order to remove a course"
    );
}

#[test]
fn a_switch_says_what_is_active() {
    let (mut store, mut disk) = studies(None, vec![semester_dir("b01", vec![course_dir("x")])]);
    let run = |store: &mut Store, disk: &mut Disk, reference: Option<&str>, dir: &str| {
        SwitchService::run(store, disk, reference.map(str::to_string), dir)
    };
    assert_eq!(success(run(&mut store, &mut disk, Some("b01"), "")), "Switched to semester: b01");
    assert_eq!(success(run(&mut store, &mut disk, Some("x"), "")), "Switched to course: b01/[x]");
    assert_eq!(
        success(run(&mut store, &mut disk, Some("b01/x"), "")),
        "Switched to course: b01/[x]"
    );
    assert_eq!(
        success(run(&mut store, &mut disk, None, "/studies")),
        "No active semester or course"
    );
    assert_eq!(
        run(&mut store, &mut disk, None, "/elsewhere").unwrap_err(),
        "The current working directory must be a subfolder of the entry point. (/elsewhere)"
    );
    assert_eq!(
        run(&mut store, &mut disk, Some("zz"), "").unwrap_err(),
        "No semester or course found by reference. (zz)"
    );
    assert_eq!(
        run(&mut store, &mut disk, Some(""), "").unwrap_err(),
        "Please provide a valid reference. ()"
    );
    assert_eq!(
        run(&mut store, &mut disk, Some("b01/zz"), "").unwrap_err(),
        "No course found matching the reference. (b01/zz)"
    );
}

#[test]
fn the_status_shows_what_is_active_and_the_figures() {
    let mut b01 = semester_dir("b01", vec![course_dir("x")]);
    b01.file = PointerFile::Holds(Some("x".to_string()));
    let (store, mut disk) = studies(Some("b01"), vec![b01]);
    let figures = StatusFigures {
        average: "1.70".to_string(),
        weighted_average: "2.05".to_string(),
        degrees: strings(&["math"]),
        averages: strings(&["2.05"]),
    };
    let piece = StatusService::run(&store, &mut disk, &figures).unwrap();
    let FormatType::Chain(items) = &piece else { panic!("no chain") };
    assert_eq!(items.len(), 2);
    assert!(matches!(&items[0], FormatType::RawLine(line) if line == "Active on course: b01/[x]"));
    let FormatType::Block(head, body) = &items[1] else { panic!("no block") };
    assert!(matches!(&**head, FormatType::RawLine(line) if line == "Performance"));
    let FormatType::Chain(inner) = &**body else { panic!("no chain") };
    assert_eq!(inner.len(), 4);
    let table: Vec<String> = inner[..3].iter().flat_map(lines_of).collect();
    assert_eq!(table, strings(&["Average  | Grade", "Overall    1.70 ", "Weighted   2.05 "]));
    let FormatType::Block(head, body) = &inner[3] else { panic!("no block") };
    assert!(matches!(&**head, FormatType::RawLine(line) if line == "By Degree"));
    assert_eq!(lines_of(body), strings(&["Degree | Average", "math     2.05   "]));

    let (store, mut disk) = studies(Some("b01"), vec![semester_dir("b01", vec![])]);
    let piece = StatusService::run(&store, &mut disk, &no_figures()).unwrap();
    let FormatType::Chain(items) = &piece else { panic!("no chain") };
    assert!(matches!(&items[0], FormatType::RawLine(line) if line == "Active on: b01/"));
    let FormatType::Block(_, body) = &items[1] else { panic!("no block") };
    let FormatType::Chain(inner) = &**body else { panic!("no chain") };
    let FormatType::Block(_, body) = &inner[3] else { panic!("no block") };
    assert!(matches!(&**body, FormatType::RawLine(line) if line == "No courses found"));

    let (store, mut disk) = studies(None, vec![]);
    let piece = StatusService::run(&store, &mut disk, &no_figures()).unwrap();
    let FormatType::Chain(items) = &piece else { panic!("no chain") };
    assert!(matches!(&items[0], FormatType::RawLine(line) if line == "No active semester or course"));
}

#[test]
fn commands_go_to_their_services() {
    let (store, mut disk) = studies(None, vec![]);
    let mut service = Service::new(store);
    let input = |asked: Asked, dir: &str| Input {
        asked,
        working_dir: dir.to_string(),
        figures: no_figures(),
    };
    let add = Cli {
        command: Commands::Semester {
            command: Some(SemesterCommands::Add {
                number: 3,
                study_cycle: Some(StudyCycleDO::Doctorate),
            }),
        },
    };
    assert_eq!(success(done(service.run(&mut disk, add, input(Asked::NotYet, "")))), "d03 was created.");
    let switch = Cli { command: Commands::Switch { reference: None } };
    assert_eq!(
        success(done(service.run(&mut disk, switch, input(Asked::NotYet, "/studies/d03")))),
        "Switched to semester: d03"
    );
    assert_eq!(service.store().current_semester(&mut disk).unwrap().name(), "d03");
    let add = Cli {
        command: Commands::Course { command: Some(CourseCommands::Add { name: "x".to_string() }) },
    };
    assert_eq!(
        success(done(service.run(&mut disk, add, input(Asked::NotYet, "")))),
        "Course 'x' has been added"
    );
    let list = Cli { command: Commands::Course { command: None } };
    let listed = done(service.run(&mut disk, list, input(Asked::NotYet, ""))).unwrap();
    assert_eq!(lines_of(&listed), strings(&["Active | Courses", "             [x]"]));
    let list = Cli { command: Commands::Semester { command: Some(SemesterCommands::List) } };
    let listed = done(service.run(&mut disk, list, input(Asked::NotYet, ""))).unwrap();
    assert_eq!(lines_of(&listed), strings(&["active | courses", "   *     d03    "]));
    let status = Cli { command: Commands::Status {} };
    assert!(done(service.run(&mut disk, status, input(Asked::NotYet, ""))).is_ok());
    let remove = || Cli {
        command: Commands::Course {
            command: Some(CourseCommands::Remove { name: "x".to_string() }),
        },
    };
    assert!(matches!(service.run(&mut disk, remove(), input(Asked::NotYet, "")), Reply::Ask(_)));
    assert_eq!(
        success(done(service.run(&mut disk, remove(), input(yes(), "")))),
        "Course 'x' has been removed"
    );
    let remove = || Cli {
        command: Commands::Semester {
            command: Some(SemesterCommands::Remove { name: "d03".to_string() }),
        },
    };
    assert!(matches!(service.run(&mut disk, remove(), input(Asked::NotYet, "")), Reply::Ask(_)));
    assert_eq!(
        success(done(service.run(&mut disk, remove(), input(yes(), "")))),
        "Semester 'd03' has been removed"
    );
    assert!(service.store().current_semester(&mut disk).is_none());
}

#[test]
fn a_line_of_the_user_is_read() {
    for line in ["y", "Y", "yes", "YES", "yEs", "  y\n", "\tyes\r\n"] {
        assert_eq!(answer_of(line), Answer::Yes, "reading {line:?}");
    }
    for line in ["n", "N", "no", "No", " no ", "nO\n"] {
        assert_eq!(answer_of(line), Answer::No, "reading {line:?}");
    }
    for line in ["q", "Q", " q\n"] {
        assert_eq!(answer_of(line), Answer::Cancel, "reading {line:?}");
    }
    for line in ["", "\n", "   ", "ye", "yess", "y e s", "nope", "qq", "1", "ja", "y.", "ý"] {
        assert_eq!(answer_of(line), Answer::Invalid, "reading {line:?}");
    }
}

#[test]
fn the_services_note_what_they_do_in_its_order() {
    let (store, mut disk) = studies(
        Some("b01"),
        vec![semester_dir("b01", vec![course_dir("x")]), semester_dir("m01", vec![])],
    );
    let made_semester = |name: &str| Action::CreateSemesterFile { semester: name.to_string() };
    assert_eq!(disk.take_pending(), vec![]);
    SemesterService::list(&store, &mut disk).unwrap();
    assert_eq!(disk.take_pending(), vec![made_semester("b01"), made_semester("m01")]);
    CourseService::list(&store, &mut disk).unwrap();
    assert_eq!(
        disk.take_pending(),
        vec![Action::CreateCourseFile { semester: "b01".to_string(), course: "x".to_string() }]
    );
    CourseService::add(&store, &mut disk, "logic".to_string()).unwrap();
    assert_eq!(
        disk.take_pending(),
        vec![
            Action::CreateCourseDir { semester: "b01".to_string(), name: "logic".to_string() },
            Action::CreateCourseFile { semester: "b01".to_string(), course: "logic".to_string() },
        ]
    );
    question(CourseService::remove(&store, &mut disk, "logic".to_string(), Asked::NotYet));
    assert_eq!(disk.take_pending(), vec![]);
    done(CourseService::remove(&store, &mut disk, "logic".to_string(), yes())).unwrap();
    assert_eq!(
        disk.take_pending(),
        vec![Action::RemoveCourseDir { semester: "b01".to_string(), name: "logic".to_string() }]
    );
    StatusService::run(&store, &mut disk, &StatusFigures {
        average: "0".to_string(),
        weighted_average: "0".to_string(),
        degrees: vec![],
        averages: vec![],
    })
    .unwrap();
    assert_eq!(disk.take_pending(), vec![]);
}

#[test]
fn a_number_of_the_user_is_read() {
    for (line, number) in [("0", 0), ("7\n", 7), ("  42 ", 42), ("+5", 5), ("007", 7), ("\t12\r\n", 12)] {
        assert_eq!(number_of(line), NumberAnswer::Number(number), "reading {line:?}");
    }
    assert_eq!(number_of(&usize::MAX.to_string()), NumberAnswer::Number(usize::MAX));
    assert_eq!(number_of(&format!("{}0", usize::MAX)), NumberAnswer::Invalid);
    assert_eq!(number_of("340282366920938463463374607431768211456"), NumberAnswer::Invalid);
    for line in ["q", "Q", " q\n"] {
        assert_eq!(number_of(line), NumberAnswer::Cancel, "reading {line:?}");
    }
    for line in ["", "\n", "+", "-1", "1 2", "1.5", "x", "qq", "12a", "++1", "\u{663}"] {
        assert_eq!(number_of(line), NumberAnswer::Invalid, "reading {line:?}");
    }
    for line in ["5", " 5", "+5", "q", "", "x", "-0", "18446744073709551615", "18446744073709551616"] {
        let read = match number_of(line) {
            NumberAnswer::Number(number) => Some(number),
            _ => None,
        };
        let std_reads = if line.trim().eq_ignore_ascii_case("q") { None } else { line.trim().parse::<usize>().ok() };
        assert_eq!(read, std_reads, "reading {line:?}");
    }
}

#[test]
fn removing_the_active_course_removes_its_mirror_first() {
    let mut b01 = semester_dir("b01", vec![course_dir("x"), course_dir("y")]);
    b01.file = PointerFile::Holds(Some("x".to_string()));
    let image = Image {
        root: "/studies".to_string(),
        is_dir: true,
        file: PointerFile::Holds(Some("b01".to_string())),
        semesters: vec![b01],
        semester_link: LinkState::Link("/studies/b01".to_string()),
        course_link: LinkState::Link("/studies/b01/x".to_string()),
    };
    let mut disk = Disk::new(image).unwrap();
    let entry = EntryPoint::new("/studies", &disk).unwrap();
    let names = SemesterNames::new(None, None).unwrap();
    let semester_link =
        MaybeSymLinkable::new(Some("/links/semester".to_string()), Slot::Semester, &disk).unwrap();
    let course_link =
        MaybeSymLinkable::new(Some("/links/course".to_string()), Slot::Course, &disk).unwrap();
    let store =
        Store::new(Config::from_parts(entry, names, semester_link, course_link), &mut disk).unwrap();

    done(CourseService::remove(&store, &mut disk, "y".to_string(), yes())).unwrap();
    assert_eq!(disk.link_state(Slot::Course), LinkState::Link("/studies/b01/x".to_string()));
    assert_eq!(
        disk.take_pending(),
        vec![
            Action::CreateCourseFile { semester: "b01".to_string(), course: "y".to_string() },
            Action::RemoveCourseDir { semester: "b01".to_string(), name: "y".to_string() },
        ]
    );

    done(CourseService::remove(&store, &mut disk, "x".to_string(), yes())).unwrap();
    assert_eq!(disk.link_state(Slot::Course), LinkState::Absent);
    assert_eq!(disk.link_state(Slot::Semester), LinkState::Link("/studies/b01".to_string()));
    assert_eq!(disk.read_semester_file("b01"), Ok(None));
    assert!(store.current_course(&mut disk).is_none());
    assert_eq!(store.current_semester(&mut disk).unwrap().name(), "b01");
    assert_eq!(
        disk.take_pending(),
        vec![
            Action::CreateCourseFile { semester: "b01".to_string(), course: "x".to_string() },
            Action::WriteSemesterFile { semester: "b01".to_string(), active: None },
            Action::Unlink { slot: Slot::Course },
            Action::RemoveCourseDir { semester: "b01".to_string(), name: "x".to_string() },
        ]
    );
    assert_eq!(disk.course_names("b01"), Vec::<String>::new());
}
