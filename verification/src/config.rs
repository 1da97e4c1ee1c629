//! The configuration: where the entry point lies, how semesters are named,
//! and where the mirrors are.

use crate::disk::Disk;
use crate::error::{ConfigError, Error, PathError};
use crate::image::{DiskView, Slot};
use crate::names::{NamingError, SemesterNames, StudyCycleMappingDO};
use crate::paths::{EntryPoint, MaybeSymLinkable, MirrorView};
use crate::pattern::regex_group_names;
use crate::text::opt_text;
use toml_edit::DocumentMut;
use vstd::prelude::*;
use vstd::string::*;

verus! {

/// The configuration as the configuration file gives it.
#[derive(Debug)]
pub struct ConfigDO {
    pub entry_point: String,
    pub semster_names: Option<String>,
    pub study_cycle_mapping: Option<StudyCycleMappingDO>,
    pub semester_link: Option<String>,
    pub course_link: Option<String>,
}

/// What the store is made from.
#[derive(Debug)]
pub struct Config {
    /// The directory that holds the semesters.
    entry_point: EntryPoint,
    /// The naming policy of the semesters.
    semester_names: SemesterNames,
    /// The mirror of the active semester.
    semester_link: MaybeSymLinkable,
    /// The mirror of the active course.
    course_link: MaybeSymLinkable,
}

/// What looking a key up in a TOML document gives.
#[derive(Debug, PartialEq, Eq)]
pub enum Lookup {
    /// The text is no TOML document.
    Unparsable,
    /// The document has no such key.
    Missing,
    /// The key holds something that is no text.
    NotText,
    Text(String),
}

/// The characters of what a lookup gives.
pub enum LookupView {
    Unparsable,
    Missing,
    NotText,
    Text(Seq<char>),
}

impl View for Lookup {
    type V = LookupView;

    open spec fn view(&self) -> LookupView {
        match self {
            Lookup::Unparsable => LookupView::Unparsable,
            Lookup::Missing => LookupView::Missing,
            Lookup::NotText => LookupView::NotText,
            Lookup::Text(text) => LookupView::Text(text@),
        }
    }
}

/// What the key `key` holds at the top of the TOML document `content`.
pub uninterp spec fn toml_lookup(content: Seq<char>, key: Seq<char>) -> LookupView;

/// Parses `content` as a `DocumentMut`, looks `key` up with `Table::get` and
/// reads the item with `Item::as_str`. Believed: the result is the one named
/// `toml_lookup`.
#[verifier::external_body]
fn lookup(content: &str, key: &str) -> (r: Lookup)
    ensures
        r@ == toml_lookup(content@, key@),
{
    match content.parse::<DocumentMut>() {
        Err(_) => Lookup::Unparsable,
        Ok(document) => match document.get(key) {
            None => Lookup::Missing,
            Some(item) => match item.as_str() {
                None => Lookup::NotText,
                Some(text) => Lookup::Text(text.to_string()),
            },
        },
    }
}

/// What the entry point of a configuration is, from what the document holds
/// under `entry_point`: it must be a text, and the directory that the image shows.
pub open spec fn entry_point_of(found: LookupView, disk: DiskView) -> Result<Seq<char>, Error> {
    match found {
        LookupView::Unparsable => Err(Error::Config(ConfigError::Unparsable)),
        LookupView::Missing => Err(Error::Config(ConfigError::MissingEntryPoint)),
        LookupView::NotText => Err(Error::Config(ConfigError::EntryPointNotText)),
        LookupView::Text(path) => if disk.root == path && disk.is_dir {
            Ok(path)
        } else {
            Err(Error::Path(PathError::NotADirectory))
        },
    }
}

/// Judges what a configuration holds under `entry_point`.
pub fn check_entry_point(found: Lookup, disk: &Disk) -> (r: Result<String, Error>)
    ensures
        match r {
            Ok(path) => entry_point_of(found@, disk@) == Ok::<Seq<char>, Error>(path@),
            Err(e) => entry_point_of(found@, disk@) == Err::<Seq<char>, Error>(e),
        },
{
    match found {
        Lookup::Unparsable => Err(Error::Config(ConfigError::Unparsable)),
        Lookup::Missing => Err(Error::Config(ConfigError::MissingEntryPoint)),
        Lookup::NotText => Err(Error::Config(ConfigError::EntryPointNotText)),
        Lookup::Text(path) => match EntryPoint::new(path.as_str(), disk) {
            Ok(_) => Ok(path),
            Err(e) => Err(Error::Path(e)),
        },
    }
}

/// Reads the entry point from the text of a configuration file.
pub fn get_entry_point(config_content: &str, disk: &Disk) -> (r: Result<String, Error>)
    ensures
        match r {
            Ok(path) => entry_point_of(toml_lookup(config_content@, "entry_point"@), disk@) == Ok::<
                Seq<char>,
                Error,
            >(path@),
            Err(e) => entry_point_of(toml_lookup(config_content@, "entry_point"@), disk@) == Err::<
                Seq<char>,
                Error,
            >(e),
        },
{
    check_entry_point(lookup(config_content, "entry_point"), disk)
}

impl Config {
    /// The path of the entry point.
    pub closed spec fn entry(&self) -> Seq<char> {
        self.entry_point@
    }

    /// The naming policy.
    pub closed spec fn policy(&self) -> SemesterNames {
        self.semester_names
    }

    /// The mirror of the active semester.
    pub closed spec fn semester_mirror(&self) -> MirrorView {
        self.semester_link@
    }

    /// The mirror of the active course.
    pub closed spec fn course_mirror(&self) -> MirrorView {
        self.course_link@
    }

    /// Puts a configuration together.
    pub fn from_parts(
        entry_point: EntryPoint,
        semester_names: SemesterNames,
        semester_link: MaybeSymLinkable,
        course_link: MaybeSymLinkable,
    ) -> (r: Config)
        ensures
            r.entry() == entry_point@,
            r.policy() == semester_names,
            r.semester_mirror() == semester_link@,
            r.course_mirror() == course_link@,
    {
        Config { entry_point, semester_names, semester_link, course_link }
    }

    /// Takes a configuration apart: entry point, policy, the semester's
    /// mirror and the course's mirror.
    pub fn into_parts(self) -> (r: (EntryPoint, SemesterNames, MaybeSymLinkable, MaybeSymLinkable))
        ensures
            r.0@ == self.entry(),
            r.1 == self.policy(),
            r.2@ == self.semester_mirror(),
            r.3@ == self.course_mirror(),
    {
        (self.entry_point, self.semester_names, self.semester_link, self.course_link)
    }

    /// What making a configuration gives: the entry point must be the
    /// directory that the image shows, the policy must be built, and what
    /// lies at the paths of the mirrors must be symlinks or nothing, the
    /// course's mirror first.
    pub open spec fn from_do_outcome(config_do: ConfigDO, disk: DiskView) -> Result<(), Error> {
        let policy = SemesterNames::new_outcome(
            regex_group_names(SemesterNames::chosen_pattern(config_do.semster_names)),
            SemesterNames::chosen_mapping(config_do.semster_names, config_do.study_cycle_mapping),
        );
        if EntryPoint::new_outcome(config_do.entry_point@, disk) is Err {
            Err(Error::Path(PathError::NotADirectory))
        } else if policy is Err {
            Err(Error::Naming(policy->Err_0))
        } else if MaybeSymLinkable::new_outcome(opt_text(config_do.course_link), Slot::Course, disk)
            is Err {
            Err(Error::Config(ConfigError::NotASymlink))
        } else if MaybeSymLinkable::new_outcome(
            opt_text(config_do.semester_link),
            Slot::Semester,
            disk,
        ) is Err {
            Err(Error::Config(ConfigError::NotASymlink))
        } else {
            Ok(())
        }
    }

    /// Makes the configuration from what the configuration file gives: takes
    /// the entry point, builds the naming policy and binds the mirrors.
    pub fn from_do(config_do: ConfigDO, disk: &Disk) -> (r: Result<Config, Error>)
        ensures
            match r {
                Ok(config) => {
                    &&& Self::from_do_outcome(config_do, disk@) is Ok
                    &&& config.entry() == config_do.entry_point@
                    &&& config.policy().wf()
                    &&& config.policy().pattern() == SemesterNames::chosen_pattern(
                        config_do.semster_names,
                    )
                    &&& SemesterNames::chosen_mapping(
                        config_do.semster_names,
                        config_do.study_cycle_mapping,
                    ) == Ok::<Seq<(Seq<char>, crate::cycle::StudyCycle)>, NamingError>(
                        config.policy().mapping(),
                    )
                    &&& config.semester_mirror() == (MirrorView {
                        path: opt_text(config_do.semester_link),
                        slot: Slot::Semester,
                    })
                    &&& config.course_mirror() == (MirrorView {
                        path: opt_text(config_do.course_link),
                        slot: Slot::Course,
                    })
                },
                Err(e) => Self::from_do_outcome(config_do, disk@) == Err::<(), Error>(e),
            },
    {
        let ConfigDO { entry_point, semster_names, study_cycle_mapping, semester_link, course_link } =
            config_do;
        let entry_point = match EntryPoint::new(entry_point.as_str(), disk) {
            Ok(entry_point) => entry_point,
            Err(e) => {
                return Err(Error::Path(e));
            },
        };
        let semester_names = match SemesterNames::new(semster_names, study_cycle_mapping) {
            Ok(semester_names) => semester_names,
            Err(e) => {
                return Err(Error::Naming(e));
            },
        };
        let course_link = match MaybeSymLinkable::new(course_link, Slot::Course, disk) {
            Ok(link) => link,
            Err(e) => {
                return Err(Error::Config(e));
            },
        };
        let semester_link = match MaybeSymLinkable::new(semester_link, Slot::Semester, disk) {
            Ok(link) => link,
            Err(e) => {
                return Err(Error::Config(e));
            },
        };
        Ok(Config { entry_point, semester_names, course_link, semester_link })
    }

    /// The entry point.
    pub fn entry_point(&self) -> (r: EntryPoint)
        ensures
            r@ == self.entry(),
    {
        self.entry_point.copy()
    }

    /// The mirror of the active course.
    pub fn current_course_link(&self) -> (r: MaybeSymLinkable)
        ensures
            r@ == self.course_mirror(),
    {
        self.course_link.copy()
    }

    /// The mirror of the active semester.
    pub fn current_semester_link(&self) -> (r: MaybeSymLinkable)
        ensures
            r@ == self.semester_mirror(),
    {
        self.semester_link.copy()
    }

    /// The naming policy.
    pub fn semester_names(&self) -> (r: &SemesterNames)
        ensures
            *r == self.policy(),
    {
        &self.semester_names
    }
}

} // verus!
