use mm::config::{check_entry_point, get_entry_point, Config, ConfigDO, Lookup};
use mm::disk::Disk;
use mm::error::{ConfigError, Error, PathError};
use mm::image::{Image, LinkState, PointerFile};
use mm::names::{NamingError, StudyCycleMappingDO};

fn disk_of(semester_link: LinkState, course_link: LinkState) -> Disk {
    let image = Image {
        root: "/studies".to_string(),
        is_dir: true,
        file: PointerFile::Missing,
        semesters: vec![],
        semester_link,
        course_link,
    };
    Disk::new(image).expect("a well-formed image")
}

fn plain() -> ConfigDO {
    ConfigDO {
        entry_point: "/studies".to_string(),
        semster_names: None,
        study_cycle_mapping: None,
        semester_link: None,
        course_link: None,
    }
}

#[test]
fn the_entry_point_is_read_from_the_configuration() {
    let disk = disk_of(LinkState::Absent, LinkState::Absent);
    assert_eq!(get_entry_point("entry_point = \"/studies\"\n", &disk).unwrap(), "/studies");
    assert_eq!(
        get_entry_point("other = 1\n[table]\nentry_point = \"/studies\"\n", &disk).unwrap_err(),
        Error::Config(ConfigError::MissingEntryPoint)
    );
    assert_eq!(
        get_entry_point("entry_point = 7\n", &disk).unwrap_err(),
        Error::Config(ConfigError::EntryPointNotText)
    );
    assert_eq!(
        get_entry_point("entry_point = ", &disk).unwrap_err(),
        Error::Config(ConfigError::Unparsable)
    );
    assert_eq!(
        get_entry_point("entry_point = '/elsewhere'", &disk).unwrap_err(),
        Error::Path(PathError::NotADirectory)
    );
    assert_eq!(get_entry_point("", &disk).unwrap_err(), Error::Config(ConfigError::MissingEntryPoint));
}

#[test]
fn what_the_configuration_holds_is_judged() {
    let disk = disk_of(LinkState::Absent, LinkState::Absent);
    assert_eq!(check_entry_point(Lookup::Text("/studies".to_string()), &disk).unwrap(), "/studies");
    assert_eq!(
        check_entry_point(Lookup::Text("/".to_string()), &disk).unwrap_err(),
        Error::Path(PathError::NotADirectory)
    );
    assert_eq!(
        check_entry_point(Lookup::Unparsable, &disk).unwrap_err(),
        Error::Config(ConfigError::Unparsable)
    );
    assert_eq!(
        check_entry_point(Lookup::Missing, &disk).unwrap_err(),
        Error::Config(ConfigError::MissingEntryPoint)
    );
    assert_eq!(
        check_entry_point(Lookup::NotText, &disk).unwrap_err(),
        Error::Config(ConfigError::EntryPointNotText)
    );
}

#[test]
fn a_configuration_is_made_from_its_parts() {
    let disk = disk_of(LinkState::Link("/old".to_string()), LinkState::Absent);
    let mut given = plain();
    given.semster_names = Some(r"^(?P<study_cycle>[a-z]+)(?P<semester_number>\d+)$".to_string());
    given.study_cycle_mapping = Some(StudyCycleMappingDO {
        bachelor: Some("ba".to_string()),
        master: None,
        doctorate: None,
    });
    given.semester_link = Some("/links/semester".to_string());
    let config = Config::from_do(given, &disk).unwrap();
    assert_eq!(config.entry_point().path(), "/studies");
    assert!(config.semester_names().is_name("ba12"));
    assert!(!config.semester_names().is_name("b-12"));
    let (entry, names, semester_link, course_link) = config.into_parts();
    assert_eq!(entry.path(), "/studies");
    assert!(names.deserialize("ba1").is_ok());
    let mut disk = disk;
    semester_link.link_from(&mut disk, "/studies/ba01").unwrap();
    course_link.link_from(&mut disk, "/studies/ba01/x").unwrap();
    assert_eq!(disk.link_state(mm::image::Slot::Semester), LinkState::Link("/studies/ba01".to_string()));
    assert_eq!(disk.link_state(mm::image::Slot::Course), LinkState::Absent);
}

#[test]
fn a_configuration_can_be_refused() {
    let disk = disk_of(LinkState::Other, LinkState::Other);
    let mut elsewhere = plain();
    elsewhere.entry_point = "/elsewhere".to_string();
    elsewhere.semster_names = Some("(".to_string());
    assert_eq!(Config::from_do(elsewhere, &disk).unwrap_err(), Error::Path(PathError::NotADirectory));
    let mut broken = plain();
    broken.semster_names = Some("(".to_string());
    broken.course_link = Some("/links/course".to_string());
    assert_eq!(
        Config::from_do(broken, &disk).unwrap_err(),
        Error::Naming(NamingError::InvalidPattern)
    );
    let mut linked = plain();
    linked.course_link = Some("/links/course".to_string());
    assert_eq!(
        Config::from_do(linked, &disk).unwrap_err(),
        Error::Config(ConfigError::NotASymlink)
    );
    let mut linked = plain();
    linked.semester_link = Some("/links/semester".to_string());
    assert_eq!(
        Config::from_do(linked, &disk).unwrap_err(),
        Error::Config(ConfigError::NotASymlink)
    );
    assert!(Config::from_do(plain(), &disk).is_ok());
}

#[test]
fn every_error_has_a_message() {
    assert_eq!(Error::Path(PathError::AlreadyExists).message(), "The path already exists.");
    assert_eq!(
        Error::Config(ConfigError::NotASymlink).message(),
        "The path of a link already exists and is not a symlink."
    );
    assert_eq!(Error::Naming(NamingError::NotNumeric).message(), "Failed to parse semester number.");
}
