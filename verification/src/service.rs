//! The services behind the commands. Each works on the store and the image
//! and says back a piece of output; one that needs an answer from the user
//! first says which questions to ask.

use crate::cli::{Cli, Commands, CourseCommands, SemesterCommands};
use crate::course::{course_list_views, display_name, Course, CourseView};
use crate::cycle::StudyCycle;
use crate::disk::Disk;
use crate::error::Error;
use crate::format::{is_table, table, FormatAlignment, FormatType};
use crate::image::DiskView;
use crate::journal::ActionView as AV;
use crate::names::SemesterNames;
use crate::paths::SemesterPathView;
use crate::semester::{active_course_of, courses_of, semester_list_views, Semester, SemesterView};
use crate::store::{after_add_semester, after_remove_semester, current_semester_of, is_current};
use crate::store::{after_remove_course, noted_remove_course};
use crate::store::{semester_named, semesters_of, Store, StoreState};
use crate::switch::{switch, switch_outcome, Selection, SelectionView};
use crate::text::{same_text, sort_texts, sorted_texts};
use crate::course::{course_touched, courses_touched};
use crate::journal::{FileKey, Notes};
use crate::store::{chosen_cycle, current_course_touched, current_touched, named_touched};
use crate::store::{noted_add_semester, noted_remove_semester, semester_paths_of, semesters_touched};
use crate::switch::noted_switch;
use vstd::prelude::*;
use vstd::string::*;

verus! {

/// What a service says back when it is done: a piece of output, or what went wrong.
pub type ServiceResult = Result<FormatType, String>;

/// A step of a dialog with the user.
#[derive(Debug)]
pub enum DialogEntry {
    Message(String),
    YesNoInput(String),
    NumberInput(String),
}

/// An answer of the user.
#[derive(Debug)]
pub enum DialogOutput {
    Text(String),
    YesNo(bool),
    Number(usize),
}

/// What the user has been asked so far.
#[derive(Debug)]
pub enum Asked {
    /// Nothing yet.
    NotYet,
    /// The dialog was held: these are the answers, or none where the user
    /// gave up.
    Answered(Option<Vec<DialogOutput>>),
}

/// What a service says back: what it has done, or what to ask the user first.
#[derive(Debug)]
pub enum Reply {
    Done(ServiceResult),
    Ask(Vec<DialogEntry>),
}

/// Whether a result is the success message `text`.
pub open spec fn is_success(r: ServiceResult, text: Seq<char>) -> bool {
    r matches Ok(FormatType::Success(s)) && s@ == text
}

/// Whether a result is the note `text`.
pub open spec fn is_info(r: ServiceResult, text: Seq<char>) -> bool {
    r matches Ok(FormatType::Info(s)) && s@ == text
}

/// Whether a result is the failure `text`.
pub open spec fn is_failure(r: ServiceResult, text: Seq<char>) -> bool {
    r matches Err(s) && s@ == text
}

/// Whether a result is the error message `error` with the note `info` after it.
pub open spec fn is_complaint(r: ServiceResult, error: Seq<char>, info: Seq<char>) -> bool {
    r matches Ok(FormatType::Chain(items)) && items@.len() == 2 && (items@[0] matches FormatType::Error(
        e,
    ) && e@ == error) && (items@[1] matches FormatType::Info(i) && i@ == info)
}

/// Whether a reply asks the one question `text`, to be answered by yes or no.
pub open spec fn asks(reply: Reply, text: Seq<char>) -> bool {
    reply matches Reply::Ask(entries) && entries@.len() == 1 && (
    entries@[0] matches DialogEntry::YesNoInput(q) && q@ == text)
}

/// The names of the semesters: the names of their directories.
pub open spec fn semester_names(semesters: Seq<SemesterView>) -> Seq<Seq<char>> {
    Seq::new(semesters.len(), |i: int| semesters[i].path.name)
}

/// The names that the courses are shown under.
pub open spec fn display_names(courses: Seq<CourseView>) -> Seq<Seq<char>> {
    Seq::new(courses.len(), |i: int| display_name(courses[i]))
}

/// A column that marks, with a star, each of the names that is the active one.
pub open spec fn marks(names: Seq<Seq<char>>, active: Seq<char>) -> Seq<Seq<char>> {
    Seq::new(
        names.len(),
        |i: int|
            if names[i] == active {
                seq!['*']
            } else {
                seq![' ']
            },
    )
}

/// What a line of the user says to a question to be answered by yes or no.
#[derive(Debug, Clone, Copy, PartialEq, Eq, Structural)]
pub enum Answer {
    Yes,
    No,
    /// The user gives up.
    Cancel,
    /// The line is none of these.
    Invalid,
}

/// Whether a character is a blank, a tab or the end of a line.
pub open spec fn is_blank(c: char) -> bool {
    c == ' ' || c == '\t' || c == '\n' || c == '\r'
}

/// Where the first character of a line stands that is no blank; the length
/// of the line where it has none.
pub open spec fn ink_start(line: Seq<char>) -> int
    decreases line.len(),
{
    if line.len() == 0 || !is_blank(line[0]) {
        0
    } else {
        1 + ink_start(line.skip(1))
    }
}

/// Where the line ends once the blanks at its end are left out.
pub open spec fn ink_end(line: Seq<char>) -> int
    decreases line.len(),
{
    if line.len() == 0 || !is_blank(line.last()) {
        line.len() as int
    } else {
        ink_end(line.drop_last())
    }
}

/// The line without the blanks at its beginning and at its end.
pub open spec fn trimmed(line: Seq<char>) -> Seq<char> {
    if ink_start(line) < ink_end(line) {
        line.subrange(ink_start(line), ink_end(line))
    } else {
        Seq::empty()
    }
}

/// Whether a word is the word `small`, written in small or capital letters.
pub open spec fn says(word: Seq<char>, small: Seq<char>, capital: Seq<char>) -> bool {
    &&& word.len() == small.len()
    &&& forall|i: int| 0 <= i < word.len() ==> word[i] == small[i] || word[i] == capital[i]
}

/// What a line says: `y` or `yes`, `n` or `no`, `q` to give up, in small or
/// capital letters and with blanks around; anything else says nothing.
pub open spec fn answer_spec(line: Seq<char>) -> Answer {
    let word = trimmed(line);
    if says(word, seq!['y'], seq!['Y']) || says(word, seq!['y', 'e', 's'], seq!['Y', 'E', 'S']) {
        Answer::Yes
    } else if says(word, seq!['n'], seq!['N']) || says(word, seq!['n', 'o'], seq!['N', 'O']) {
        Answer::No
    } else if says(word, seq!['q'], seq!['Q']) {
        Answer::Cancel
    } else {
        Answer::Invalid
    }
}

/// Tells whether the characters from `start` to `end` are the word `small`,
/// written in small or capital letters.
fn reads(chars: &Vec<char>, start: usize, end: usize, small: &Vec<char>, capital: &Vec<char>) -> (r:
    bool)
    requires
        start <= end <= chars@.len(),
        small@.len() == capital@.len(),
    ensures
        r == says(chars@.subrange(start as int, end as int), small@, capital@),
{
    if end - start != small.len() {
        return false;
    }
    let ghost word = chars@.subrange(start as int, end as int);
    let mut i: usize = 0;
    while i < small.len()
        invariant
            i <= small@.len(),
            start <= end <= chars@.len(),
            end - start == small@.len(),
            small@.len() == capital@.len(),
            word == chars@.subrange(start as int, end as int),
            forall|k: int| 0 <= k < i ==> word[k] == small@[k] || word[k] == capital@[k],
        decreases small@.len() - i,
    {
        let c = chars[start + i];
        assert(word[i as int] == c);
        if c != small[i] && c != capital[i] {
            return false;
        }
        i += 1;
    }
    true
}

/// Finds where the line begins and ends once the blanks around it are left
/// out.
fn ink_of(chars: &Vec<char>) -> (r: (usize, usize))
    ensures
        r.0 == ink_start(chars@),
        r.1 == ink_end(chars@),
        r.0 <= chars@.len(),
        r.1 <= chars@.len(),
{
    let mut start: usize = 0;
    proof {
        assert(chars@.skip(0) =~= chars@);
    }
    while start < chars.len() && (chars[start] == ' ' || chars[start] == '\t' || chars[start] == '\n'
        || chars[start] == '\r')
        invariant
            start <= chars@.len(),
            ink_start(chars@) == start + ink_start(chars@.skip(start as int)),
        decreases chars@.len() - start,
    {
        proof {
            let rest = chars@.skip(start as int);
            assert(rest[0] == chars@[start as int]);
            assert(rest.skip(1) =~= chars@.skip(start + 1));
        }
        start += 1;
    }
    proof {
        let rest = chars@.skip(start as int);
        if start < chars@.len() {
            assert(rest[0] == chars@[start as int]);
        }
        assert(ink_start(rest) == 0);
    }
    let mut end: usize = chars.len();
    proof {
        assert(chars@.take(end as int) =~= chars@);
    }
    while end > 0 && (chars[end - 1] == ' ' || chars[end - 1] == '\t' || chars[end - 1] == '\n'
        || chars[end - 1] == '\r')
        invariant
            end <= chars@.len(),
            ink_end(chars@) == ink_end(chars@.take(end as int)),
        decreases end,
    {
        proof {
            let head = chars@.take(end as int);
            assert(head.last() == chars@[end - 1]);
            assert(head.drop_last() =~= chars@.take(end - 1));
        }
        end -= 1;
    }
    proof {
        let head = chars@.take(end as int);
        if end > 0 {
            assert(head.last() == chars@[end - 1]);
        }
        assert(ink_end(head) == end);
    }
    (start, end)
}

/// What a line of the user says to a question to be answered by a number.
#[derive(Debug, Clone, Copy, PartialEq, Eq, Structural)]
pub enum NumberAnswer {
    Number(usize),
    /// The user gives up.
    Cancel,
    /// The line is neither.
    Invalid,
}

/// What a line says where a number is asked for: `q` to give up, in a small
/// or a capital letter; or a number in base ten, with a plus sign before it
/// or none; blanks around either are left out. Anything else says nothing.
pub open spec fn number_spec(line: Seq<char>) -> NumberAnswer {
    let word = trimmed(line);
    if says(word, seq!['q'], seq!['Q']) {
        NumberAnswer::Cancel
    } else {
        match crate::text::parse_usize_spec(word) {
            Some(number) => NumberAnswer::Number(number),
            None => NumberAnswer::Invalid,
        }
    }
}

/// Reads what a line of the user says where a number is asked for.
pub fn number_of(line: &str) -> (r: NumberAnswer)
    ensures
        r == number_spec(line@),
{
    let chars = crate::text::chars_of(line);
    let (start, end) = ink_of(&chars);
    if start >= end {
        assert(trimmed(line@).len() == 0);
        return NumberAnswer::Invalid;
    }
    assert(trimmed(line@) == chars@.subrange(start as int, end as int));
    let q = vec!['q'];
    let cap_q = vec!['Q'];
    proof {
        assert(q@ =~= seq!['q'] && cap_q@ =~= seq!['Q']);
    }
    if reads(&chars, start, end, &q, &cap_q) {
        return NumberAnswer::Cancel;
    }
    match crate::text::parse_usize(&chars, start, end) {
        Some(number) => NumberAnswer::Number(number),
        None => NumberAnswer::Invalid,
    }
}

/// Reads what a line of the user says.
pub fn answer_of(line: &str) -> (r: Answer)
    ensures
        r == answer_spec(line@),
{
    let chars = crate::text::chars_of(line);
    let (start, end) = ink_of(&chars);
    if start >= end {
        assert(trimmed(line@).len() == 0);
        return Answer::Invalid;
    }
    assert(trimmed(line@) == chars@.subrange(start as int, end as int));
    let y = vec!['y'];
    let cap_y = vec!['Y'];
    let yes = vec!['y', 'e', 's'];
    let cap_yes = vec!['Y', 'E', 'S'];
    let n = vec!['n'];
    let cap_n = vec!['N'];
    let no = vec!['n', 'o'];
    let cap_no = vec!['N', 'O'];
    let q = vec!['q'];
    let cap_q = vec!['Q'];
    proof {
        assert(y@ =~= seq!['y'] && cap_y@ =~= seq!['Y']);
        assert(yes@ =~= seq!['y', 'e', 's'] && cap_yes@ =~= seq!['Y', 'E', 'S']);
        assert(n@ =~= seq!['n'] && cap_n@ =~= seq!['N']);
        assert(no@ =~= seq!['n', 'o'] && cap_no@ =~= seq!['N', 'O']);
        assert(q@ =~= seq!['q'] && cap_q@ =~= seq!['Q']);
    }
    if reads(&chars, start, end, &y, &cap_y) || reads(&chars, start, end, &yes, &cap_yes) {
        Answer::Yes
    } else if reads(&chars, start, end, &n, &cap_n) || reads(&chars, start, end, &no, &cap_no) {
        Answer::No
    } else if reads(&chars, start, end, &q, &cap_q) {
        Answer::Cancel
    } else {
        Answer::Invalid
    }
}

/// What the user said to a question to be answered by yes or no.
pub enum Decision {
    /// The user gave up, or said no.
    Cancelled,
    /// The dialog gave no answer.
    Unanswered,
    /// The dialog gave an answer of another kind.
    Invalid,
    Confirmed,
}

/// Reads the user's decision from the answers of a dialog.
pub open spec fn decision_of(answers: Option<Vec<DialogOutput>>) -> Decision {
    match answers {
        None => Decision::Cancelled,
        Some(list) => if list@.len() == 0 {
            Decision::Unanswered
        } else {
            match list@[0] {
                DialogOutput::YesNo(true) => Decision::Confirmed,
                DialogOutput::YesNo(false) => Decision::Cancelled,
                _ => Decision::Invalid,
            }
        },
    }
}

fn decide(answers: &Option<Vec<DialogOutput>>) -> (r: Decision)
    ensures
        r == decision_of(*answers),
{
    match answers {
        None => Decision::Cancelled,
        Some(list) => if list.len() == 0 {
            Decision::Unanswered
        } else {
            match &list[0] {
                DialogOutput::YesNo(true) => Decision::Confirmed,
                DialogOutput::YesNo(false) => Decision::Cancelled,
                _ => Decision::Invalid,
            }
        },
    }
}

/// Three texts in a row.
fn text3(a: &str, b: &str, c: &str) -> (r: String)
    ensures
        r@ == a@ + b@ + c@,
{
    a.to_owned().concat(b).concat(c)
}

/// A column that marks each of the names that is the active one.
fn mark_active(names: &Vec<String>, active: &str) -> (r: Vec<String>)
    ensures
        r.deep_view() == marks(names.deep_view(), active@),
{
    let mut out: Vec<String> = Vec::new();
    let mut i: usize = 0;
    proof {
        reveal_strlit("*");
        reveal_strlit(" ");
    }
    while i < names.len()
        invariant
            i <= names@.len(),
            out@.len() == i,
            "*"@ =~= seq!['*'],
            " "@ =~= seq![' '],
            forall|k: int| 0 <= k < i ==> (#[trigger] out@[k])@ == marks(names.deep_view(), active@)[k],
        decreases names@.len() - i,
    {
        if same_text(names[i].as_str(), active) {
            out.push("*".to_owned());
        } else {
            out.push(" ".to_owned());
        }
        i += 1;
    }
    out
}

fn one_text(a: &str) -> (r: Vec<String>)
    ensures
        r.deep_view() == seq![a@],
        r@.len() == 1,
{
    let mut out: Vec<String> = Vec::new();
    out.push(a.to_owned());
    out
}

fn two_texts(a: &str, b: &str) -> (r: Vec<String>)
    ensures
        r.deep_view() == seq![a@, b@],
        r@.len() == 2,
{
    let mut out: Vec<String> = Vec::new();
    out.push(a.to_owned());
    out.push(b.to_owned());
    out
}

/// A table with one column.
fn table_of_one(heading: &str, column: Vec<String>, alignment: FormatAlignment) -> (r: FormatType)
    ensures
        is_table(r, seq![heading@], seq![column.deep_view()], seq![alignment]),
{
    let header = one_text(heading);
    let mut columns: Vec<Vec<String>> = Vec::new();
    columns.push(column);
    let mut alignments: Vec<FormatAlignment> = Vec::new();
    alignments.push(alignment);
    assert(crate::format::column_views(columns@) =~= seq![column.deep_view()]);
    table(&header, &columns, &alignments)
}

/// A table with two columns.
fn table_of_two(
    first: &str,
    second: &str,
    left: Vec<String>,
    right: Vec<String>,
    first_alignment: FormatAlignment,
    second_alignment: FormatAlignment,
) -> (r: FormatType)
    ensures
        is_table(
            r,
            seq![first@, second@],
            seq![left.deep_view(), right.deep_view()],
            seq![first_alignment, second_alignment],
        ),
{
    let header = two_texts(first, second);
    let mut columns: Vec<Vec<String>> = Vec::new();
    columns.push(left);
    columns.push(right);
    let mut alignments: Vec<FormatAlignment> = Vec::new();
    alignments.push(first_alignment);
    alignments.push(second_alignment);
    assert(crate::format::column_views(columns@) =~= seq![left.deep_view(), right.deep_view()]);
    assert(alignments@ =~= seq![first_alignment, second_alignment]);
    table(&header, &columns, &alignments)
}

/// The error message `error` with the note `info` after it.
fn complain(error: &str, info: &str) -> (r: ServiceResult)
    ensures
        is_complaint(r, error@, info@),
{
    let piece = FormatType::Error(error.to_owned()).chain(FormatType::Info(info.to_owned()));
    Ok(piece)
}

/// The service of the semester commands.
pub struct SemesterService;

/// The names of the semesters as they are listed: the names of the
/// semesters that load, in the order of a dictionary.
pub open spec fn listed_semesters(disk: DiskView, policy: SemesterNames, store: StoreState) -> Seq<
    Seq<char>,
> {
    sorted_texts(semester_names(semesters_of(disk, policy, store.entry)))
}

/// The question before a semester is removed.
pub open spec fn remove_semester_question(name: Seq<char>) -> Seq<char> {
    "Are you sure that you want to permanently remove semester '"@ + name
        + "' with all its courses? This action can not be reverted"@
}

/// The question before a course is removed.
pub open spec fn remove_course_question(name: Seq<char>) -> Seq<char> {
    "Are you sure that you want to permanently remove course '"@ + name
        + "' with all its content? This action can not be reverted"@
}

/// What is said where the user's answer keeps a removal from being done.
pub open spec fn declined(done: ServiceResult, decision: Decision, invalid: Seq<char>) -> bool {
    match decision {
        Decision::Cancelled => is_info(done, "Operation has been canceled"@),
        Decision::Unanswered => is_failure(
            done,
            "Dialog has not returned not the specified output"@,
        ),
        Decision::Invalid => is_failure(done, invalid),
        Decision::Confirmed => false,
    }
}

impl SemesterService {
    /// The changes that adding a semester makes: its directory is made, or
    /// nothing is changed.
    pub open spec fn add_changes(
        store: Store,
        disk: DiskView,
        number: u16,
        study_cycle: Option<StudyCycle>,
    ) -> Seq<AV> {
        after_add_semester(disk, store.policy(), store@, number, study_cycle).2
    }

    /// The changes that removing a semester makes: none unless the user has
    /// confirmed and the semester is found.
    pub open spec fn remove_changes(store: Store, disk: DiskView, name: Seq<char>, asked: Asked) -> Seq<
        AV,
    > {
        match asked {
            Asked::NotYet => Seq::empty(),
            Asked::Answered(answers) => if decision_of(answers) is Confirmed {
                match semester_named(disk, store.policy(), store@.entry, name) {
                    None => Seq::empty(),
                    Some(semester) => after_remove_semester(
                        disk,
                        store.policy(),
                        store@,
                        semester.path,
                    ).2,
                }
            } else {
                Seq::empty()
            },
        }
    }

    /// The notes after the semesters were listed: all of them are loaded,
    /// and the active one once more where there is a semester to show.
    pub open spec fn list_noted(store: Store, notes: Notes, disk: DiskView) -> Notes {
        let loaded = semesters_touched(
            notes,
            disk,
            semester_paths_of(disk, store.policy(), store@.entry),
        );
        if listed_semesters(disk, store.policy(), store@).len() == 0 {
            loaded
        } else {
            current_touched(loaded, disk, store@.active)
        }
    }

    /// The notes after a semester was added: the active semester is loaded
    /// where no cycle is given, and then the semester is added with the cycle
    /// that was found.
    pub open spec fn add_noted(
        store: Store,
        notes: Notes,
        disk: DiskView,
        number: u16,
        study_cycle: Option<StudyCycle>,
    ) -> Notes {
        let asked = match study_cycle {
            Some(_) => notes,
            None => current_touched(notes, disk, store@.active),
        };
        noted_add_semester(
            asked,
            disk,
            store.policy(),
            store@,
            number,
            chosen_cycle(disk, store.policy(), store@, study_cycle),
        )
    }

    /// The notes after a semester was removed: nothing is noted unless the
    /// user has confirmed; then the semester is looked up, and removed where
    /// it is found.
    pub open spec fn remove_noted(
        store: Store,
        notes: Notes,
        disk: DiskView,
        name: Seq<char>,
        asked: Asked,
    ) -> Notes {
        match asked {
            Asked::NotYet => notes,
            Asked::Answered(answers) => if decision_of(answers) is Confirmed {
                let looked = named_touched(notes, disk, store.policy(), name);
                match semester_named(disk, store.policy(), store@.entry, name) {
                    None => looked,
                    Some(semester) => noted_remove_semester(
                        looked,
                        disk,
                        store.policy(),
                        store@,
                        semester.path,
                    ),
                }
            } else {
                notes
            },
        }
    }

    /// The notes after a semester command.
    pub open spec fn run_noted(
        store: Store,
        notes: Notes,
        disk: DiskView,
        command: Option<SemesterCommands>,
        asked: Asked,
    ) -> Notes {
        match command {
            None | Some(SemesterCommands::List) => Self::list_noted(store, notes, disk),
            Some(SemesterCommands::Add { number, study_cycle }) => Self::add_noted(
                store,
                notes,
                disk,
                number,
                match study_cycle {
                    Some(it) => Some(StudyCycle::from_do_spec(it)),
                    None => None,
                },
            ),
            Some(SemesterCommands::Remove { name }) => Self::remove_noted(
                store,
                notes,
                disk,
                name@,
                asked,
            ),
        }
    }

    /// The changes that a semester command makes.
    pub open spec fn run_changes(
        store: Store,
        disk: DiskView,
        command: Option<SemesterCommands>,
        asked: Asked,
    ) -> Seq<AV> {
        match command {
            None | Some(SemesterCommands::List) => Seq::empty(),
            Some(SemesterCommands::Add { number, study_cycle }) => Self::add_changes(
                store,
                disk,
                number,
                match study_cycle {
                    Some(it) => Some(StudyCycle::from_do_spec(it)),
                    None => None,
                },
            ),
            Some(SemesterCommands::Remove { name }) => Self::remove_changes(
                store,
                disk,
                name@,
                asked,
            ),
        }
    }

    /// What listing the semesters gives: a table of their names, with a
    /// column that marks the active one where a semester is active; a failure
    /// where there is no semester.
    pub open spec fn list_post(store: Store, disk: DiskView, r: ServiceResult) -> bool {
        let names = listed_semesters(disk, store.policy(), store@);
        match r {
            Err(message) => names.len() == 0 && message@ == "No semesters found!"@,
            Ok(piece) => names.len() > 0 && match current_semester_of(
                disk,
                store.policy(),
                store@.active,
            ) {
                Some(active) => is_table(
                    piece,
                    seq!["active"@, "courses"@],
                    seq![marks(names, active.path.name), names],
                    seq![FormatAlignment::Center, FormatAlignment::Left],
                ),
                None => is_table(piece, seq!["courses"@], seq![names], seq![FormatAlignment::Left]),
            },
        }
    }

    /// What adding a semester gives: the image with the new directory, and
    /// the message that it was created; or the image as it was, and why.
    pub open spec fn add_post(
        store: Store,
        disk: DiskView,
        number: u16,
        study_cycle: Option<StudyCycle>,
        after: DiskView,
        r: ServiceResult,
    ) -> bool {
        &&& after == after_add_semester(disk, store.policy(), store@, number, study_cycle).0
        &&& match after_add_semester(disk, store.policy(), store@, number, study_cycle).1 {
            Ok(semester) => is_success(r, semester.path.name + " was created."@),
            Err(e) => is_failure(
                r,
                match crate::store::chosen_cycle(disk, store.policy(), store@, study_cycle) {
                    Some(c) => e.about_spec(crate::names::format_name_spec(c, number)),
                    None => e.message_spec(),
                },
            ),
        }
    }

    /// What removing a semester gives: the question, before the user was
    /// asked; nothing but a message, unless the user confirmed; and then the
    /// semester removed, or why it was not.
    pub open spec fn remove_post(
        store: Store,
        disk: DiskView,
        name: Seq<char>,
        asked: Asked,
        after_store: Store,
        after: DiskView,
        r: Reply,
    ) -> bool {
        &&& after_store.policy() == store.policy()
        &&& match asked {
            Asked::NotYet => asks(r, remove_semester_question(name)) && after == disk
                && after_store@ == store@,
            Asked::Answered(answers) => r matches Reply::Done(done) && (if decision_of(answers)
                is Confirmed {
                match semester_named(disk, store.policy(), store@.entry, name) {
                    None => is_failure(done, "Semester could not be found"@) && after == disk
                        && after_store@ == store@,
                    Some(semester) => {
                        &&& after == after_remove_semester(
                            disk,
                            store.policy(),
                            store@,
                            semester.path,
                        ).0
                        &&& after_store@ == (if is_current(
                            disk,
                            store.policy(),
                            store@.active,
                            semester.path,
                        ) {
                            store@.with_active(None)
                        } else {
                            store@
                        })
                        &&& match after_remove_semester(
                            disk,
                            store.policy(),
                            store@,
                            semester.path,
                        ).1 {
                            Ok(()) => is_success(
                                done,
                                "Semester '"@ + name + "' has been removed"@,
                            ),
                            Err(e) => is_failure(done, Error::Persistence(e).about_spec(name)),
                        }
                    },
                }
            } else {
                declined(done, decision_of(answers), "Invalid Input"@) && after == disk
                    && after_store@ == store@
            }),
        }
    }

    /// What a semester command gives; without a command the semesters are listed.
    pub open spec fn run_post(
        store: Store,
        disk: DiskView,
        command: Option<SemesterCommands>,
        asked: Asked,
        after_store: Store,
        after: DiskView,
        r: Reply,
    ) -> bool {
        match command {
            None | Some(SemesterCommands::List) => r matches Reply::Done(done) && Self::list_post(
                store,
                disk,
                done,
            ) && after == disk && after_store == store,
            Some(SemesterCommands::Add { number, study_cycle }) => r matches Reply::Done(done)
                && Self::add_post(
                store,
                disk,
                number,
                match study_cycle {
                    Some(it) => Some(StudyCycle::from_do_spec(it)),
                    None => None,
                },
                after,
                done,
            ) && after_store == store,
            Some(SemesterCommands::Remove { name }) => Self::remove_post(
                store,
                disk,
                name@,
                asked,
                after_store,
                after,
                r,
            ),
        }
    }

    /// Does a semester command; without a command the semesters are listed.
    pub fn run(store: &mut Store, disk: &mut Disk, command: Option<SemesterCommands>, asked: Asked) -> (r:
        Reply)
        requires
            old(disk).wf(),
        ensures
            final(disk).wf(),
            final(disk).follows(*old(disk)),
            final(disk).changes() =~= old(disk).changes() + Self::run_changes(
                *old(store),
                old(disk)@,
                command,
                asked,
            ),
            Self::run_post(*old(store), old(disk)@, command, asked, *final(store), final(disk)@, r),
            final(disk).notes() == Self::run_noted(
                *old(store),
                old(disk).notes(),
                old(disk)@,
                command,
                asked,
            ),
    {
        match command {
            None | Some(SemesterCommands::List) => Reply::Done(Self::list(store, disk)),
            Some(SemesterCommands::Add { number, study_cycle }) => {
                let cycle = match study_cycle {
                    Some(it) => Some(StudyCycle::from_do(it)),
                    None => None,
                };
                Reply::Done(Self::add(store, disk, number, cycle))
            },
            Some(SemesterCommands::Remove { name }) => Self::remove(store, disk, name, asked),
        }
    }

    /// Lists the semesters in a table, with a column that marks the active
    /// one where a semester is active. Fails where there is no semester.
    pub fn list(store: &Store, disk: &mut Disk) -> (r: ServiceResult)
        requires
            old(disk).wf(),
        ensures
            final(disk).wf(),
            final(disk).only_made_files(*old(disk)),
            final(disk)@ == old(disk)@,
            Self::list_post(*store, old(disk)@, r),
            final(disk).notes() == Self::list_noted(*store, old(disk).notes(), old(disk)@),
    {
        let semesters = store.semesters(disk);
        let mut names: Vec<String> = Vec::new();
        let mut i: usize = 0;
        while i < semesters.len()
            invariant
                i <= semesters@.len(),
                names@.len() == i,
                forall|k: int|
                    0 <= k < i ==> (#[trigger] names@[k])@ == semester_names(
                        semester_list_views(semesters@),
                    )[k],
            decreases semesters@.len() - i,
        {
            names.push(semesters[i].name());
            i += 1;
        }
        assert(names.deep_view() =~= semester_names(semester_list_views(semesters@)));
        let names = sort_texts(names);
        if names.len() == 0 {
            return Err("No semesters found!".to_owned());
        }
        match store.current_semester(disk) {
            Some(active) => {
                let active_name = active.name();
                let column = mark_active(&names, active_name.as_str());
                Ok(
                    table_of_two(
                        "active",
                        "courses",
                        column,
                        names,
                        FormatAlignment::Center,
                        FormatAlignment::Left,
                    ),
                )
            },
            None => Ok(table_of_one("courses", names, FormatAlignment::Left)),
        }
    }

    /// Adds the semester with this number and says that it was created.
    /// Without a cycle, the cycle of the active semester is taken. A failure
    /// names the canonical name that was asked for.
    pub fn add(store: &Store, disk: &mut Disk, number: u16, study_cycle: Option<StudyCycle>) -> (r:
        ServiceResult)
        requires
            old(disk).wf(),
        ensures
            final(disk).wf(),
            final(disk).follows(*old(disk)),
            final(disk).changes() =~= old(disk).changes() + Self::add_changes(
                *store,
                old(disk)@,
                number,
                study_cycle,
            ),
            Self::add_post(*store, old(disk)@, number, study_cycle, final(disk)@, r),
            final(disk).notes() == Self::add_noted(
                *store,
                old(disk).notes(),
                old(disk)@,
                number,
                study_cycle,
            ),
    {
        let chosen = match study_cycle {
            Some(c) => Some(c),
            None => match store.current_semester(disk) {
                Some(active) => Some(active.study_cycle()),
                None => None,
            },
        };
        match store.add_semester(disk, number, chosen) {
            Ok(semester) => {
                let name = semester.name();
                Ok(FormatType::Success(name.concat(" was created.")))
            },
            Err(e) => match chosen {
                Some(c) => Err(e.message_about(crate::names::format_name(c, number).as_str())),
                None => Err(e.message()),
            },
        }
    }

    /// The dialog before a semester is removed.
    pub fn remove_dialog(name: &str) -> (r: Vec<DialogEntry>)
        ensures
            asks(Reply::Ask(r), remove_semester_question(name@)),
    {
        let mut dialog: Vec<DialogEntry> = Vec::new();
        dialog.push(
            DialogEntry::YesNoInput(
                text3(
                    "Are you sure that you want to permanently remove semester '",
                    name,
                    "' with all its courses? This action can not be reverted",
                ),
            ),
        );
        dialog
    }

    /// Removes the semester named `name` once the user has confirmed it.
    /// Before the user was asked, the reply is the question to ask.
    pub fn remove(store: &mut Store, disk: &mut Disk, name: String, asked: Asked) -> (r: Reply)
        requires
            old(disk).wf(),
        ensures
            final(disk).wf(),
            final(disk).follows(*old(disk)),
            final(disk).changes() =~= old(disk).changes() + Self::remove_changes(
                *old(store),
                old(disk)@,
                name@,
                asked,
            ),
            Self::remove_post(
                *old(store),
                old(disk)@,
                name@,
                asked,
                *final(store),
                final(disk)@,
                r,
            ),
            final(disk).notes() == Self::remove_noted(
                *old(store),
                old(disk).notes(),
                old(disk)@,
                name@,
                asked,
            ),
    {
        let answers = match asked {
            Asked::NotYet => {
                return Reply::Ask(Self::remove_dialog(name.as_str()));
            },
            Asked::Answered(answers) => answers,
        };
        match decide(&answers) {
            Decision::Cancelled => Reply::Done(
                Ok(FormatType::Info("Operation has been canceled".to_owned())),
            ),
            Decision::Unanswered => Reply::Done(
                Err("Dialog has not returned not the specified output".to_owned()),
            ),
            Decision::Invalid => Reply::Done(Err("Invalid Input".to_owned())),
            Decision::Confirmed => {
                let semester = match store.get_semester(name.as_str(), disk) {
                    Some(semester) => semester,
                    None => {
                        return Reply::Done(Err("Semester could not be found".to_owned()));
                    },
                };
                match store.remove_semester(disk, semester) {
                    Ok(()) => Reply::Done(
                        Ok(
                            FormatType::Success(
                                text3("Semester '", name.as_str(), "' has been removed"),
                            ),
                        ),
                    ),
                    Err(e) => Reply::Done(Err(Error::Persistence(e).message_about(name.as_str()))),
                }
            },
        }
    }
}

/// The service of the course commands.
pub struct CourseService;

/// The names of the courses of a semester as they are listed: the names that
/// the courses that load are shown under, in the order of a dictionary.
pub open spec fn listed_courses(disk: DiskView, semester: SemesterPathView) -> Seq<Seq<char>> {
    sorted_texts(display_names(courses_of(disk, semester)))
}

/// The column that marks the active course among the names that the courses
/// are shown under; it marks none where no course is active.
pub open spec fn course_marks(names: Seq<Seq<char>>, active: Option<CourseView>) -> Seq<Seq<char>> {
    match active {
        Some(course) => marks(names, display_name(course)),
        None => Seq::new(names.len(), |i: int| seq![' ']),
    }
}

/// A column of `n` blanks.
fn no_marks(n: usize) -> (r: Vec<String>)
    ensures
        r.deep_view() == Seq::new(n as nat, |i: int| seq![' ']),
{
    let mut out: Vec<String> = Vec::new();
    let mut i: usize = 0;
    proof {
        reveal_strlit(" ");
    }
    while i < n
        invariant
            i <= n,
            out@.len() == i,
            " "@ =~= seq![' '],
            forall|k: int| 0 <= k < i ==> (#[trigger] out@[k])@ == seq![' '],
        decreases n - i,
    {
        out.push(" ".to_owned());
        i += 1;
    }
    assert(out.deep_view() =~= Seq::new(n as nat, |i: int| seq![' ']));
    out
}

impl CourseService {
    /// The changes that adding a course makes: its directory is made in the
    /// active semester, or nothing is changed.
    pub open spec fn add_changes(store: Store, disk: DiskView, name: Seq<char>) -> Seq<AV> {
        match current_semester_of(disk, store.policy(), store@.active) {
            None => Seq::empty(),
            Some(semester) => if disk.create_course_outcome(semester.path.name, name) is Ok {
                seq![AV::CreateCourseDir { semester: semester.path.name, name: name }]
            } else {
                Seq::empty()
            },
        }
    }

    /// The changes that removing a course makes: none unless a semester is
    /// active, the user has confirmed and the course is found; the active
    /// course is cleared, with its mirror, before its directory goes.
    pub open spec fn remove_changes(store: Store, disk: DiskView, name: Seq<char>, asked: Asked) -> Seq<
        AV,
    > {
        match current_semester_of(disk, store.policy(), store@.active) {
            None => Seq::empty(),
            Some(semester) => match asked {
                Asked::NotYet => Seq::empty(),
                Asked::Answered(answers) => if decision_of(answers) is Confirmed {
                    match crate::semester::course_of(disk, semester.path, name) {
                        None => Seq::empty(),
                        Some(course) => after_remove_course(
                            store@,
                            disk,
                            semester,
                            course.path,
                        ).2,
                    }
                } else {
                    Seq::empty()
                },
            },
        }
    }

    /// The notes after the courses were listed: the active semester is
    /// loaded, then its courses, and the active course once more where there
    /// is a course to show.
    pub open spec fn list_noted(store: Store, notes: Notes, disk: DiskView) -> Notes {
        let loaded = current_touched(notes, disk, store@.active);
        match current_semester_of(disk, store.policy(), store@.active) {
            None => loaded,
            Some(semester) => {
                let listed = courses_touched(
                    loaded,
                    disk,
                    semester.path.children(sorted_texts(disk.course_dir_names(semester.path.name))),
                );
                if listed_courses(disk, semester.path).len() == 0 {
                    listed
                } else {
                    match semester.active_course {
                        Some(path) => course_touched(listed, disk, path.semester, path.name),
                        None => listed,
                    }
                }
            },
        }
    }

    /// The notes after a course was added: the active semester is loaded;
    /// then the directory of the course and its sidecar file are made.
    pub open spec fn add_noted(store: Store, notes: Notes, disk: DiskView, name: Seq<char>) -> Notes {
        let loaded = current_touched(notes, disk, store@.active);
        match current_semester_of(disk, store.policy(), store@.active) {
            None => loaded,
            Some(semester) => if disk.create_course_outcome(semester.path.name, name) is Ok {
                loaded.noting(
                    AV::CreateCourseDir { semester: semester.path.name, name: name },
                ).write(
                    FileKey::Course(semester.path.name, name),
                    AV::CreateCourseFile { semester: semester.path.name, course: name },
                )
            } else {
                loaded
            },
        }
    }

    /// The notes after a course was removed: the active semester is loaded;
    /// once the user has confirmed, the course is looked up, and removed
    /// where it is found.
    pub open spec fn remove_noted(
        store: Store,
        notes: Notes,
        disk: DiskView,
        name: Seq<char>,
        asked: Asked,
    ) -> Notes {
        let loaded = current_touched(notes, disk, store@.active);
        match current_semester_of(disk, store.policy(), store@.active) {
            None => loaded,
            Some(semester) => match asked {
                Asked::NotYet => loaded,
                Asked::Answered(answers) => if decision_of(answers) is Confirmed {
                    let looked = course_touched(loaded, disk, semester.path.name, name);
                    match crate::semester::course_of(disk, semester.path, name) {
                        None => looked,
                        Some(course) => noted_remove_course(
                            store@,
                            looked,
                            disk,
                            semester,
                            course.path,
                        ),
                    }
                } else {
                    loaded
                },
            },
        }
    }

    /// The notes after a course command.
    pub open spec fn run_noted(
        store: Store,
        notes: Notes,
        disk: DiskView,
        command: Option<CourseCommands>,
        asked: Asked,
    ) -> Notes {
        match command {
            None | Some(CourseCommands::List) => Self::list_noted(store, notes, disk),
            Some(CourseCommands::Add { name }) => Self::add_noted(store, notes, disk, name@),
            Some(CourseCommands::Remove { name }) => Self::remove_noted(
                store,
                notes,
                disk,
                name@,
                asked,
            ),
        }
    }

    /// The changes that a course command makes.
    pub open spec fn run_changes(
        store: Store,
        disk: DiskView,
        command: Option<CourseCommands>,
        asked: Asked,
    ) -> Seq<AV> {
        match command {
            None | Some(CourseCommands::List) => Seq::empty(),
            Some(CourseCommands::Add { name }) => Self::add_changes(store, disk, name@),
            Some(CourseCommands::Remove { name }) => Self::remove_changes(store, disk, name@, asked),
        }
    }

    /// What listing the courses gives: a complaint where no semester is
    /// active; a note where the active semester has no course; and else a
    /// table of the names of its courses, with a column that marks the
    /// active course.
    pub open spec fn list_post(store: Store, disk: DiskView, r: ServiceResult) -> bool {
        match current_semester_of(disk, store.policy(), store@.active) {
            None => is_complaint(
                r,
                "No active semester found"@,
                "An active semester is required in order to list the corresponding courses"@,
            ),
            Some(semester) => if listed_courses(disk, semester.path).len() == 0 {
                is_info(r, "No courses found"@)
            } else {
                r matches Ok(piece) && is_table(
                    piece,
                    seq!["Active"@, "Courses"@],
                    seq![
                        course_marks(
                            listed_courses(disk, semester.path),
                            active_course_of(disk, semester),
                        ),
                        listed_courses(disk, semester.path),
                    ],
                    seq![FormatAlignment::Right, FormatAlignment::Right],
                )
            },
        }
    }

    /// What adding a course gives: a complaint where no semester is active;
    /// and else the image with the new directory, and the message that the
    /// course was added, or the image as it was, and why.
    pub open spec fn add_post(
        store: Store,
        disk: DiskView,
        name: Seq<char>,
        after: DiskView,
        r: ServiceResult,
    ) -> bool {
        match current_semester_of(disk, store.policy(), store@.active) {
            None => is_complaint(
                r,
                "No active semester found"@,
                "An active semester is required in order to add a new course"@,
            ) && after == disk,
            Some(semester) => match disk.create_course_outcome(semester.path.name, name) {
                Ok(()) => is_success(r, "Course '"@ + name + "' has been added"@) && after
                    == disk.with_course(semester.path.name, name),
                Err(e) => is_failure(r, Error::Path(e).about_spec(name)) && after == disk,
            },
        }
    }

    /// What removing a course gives: a complaint where no semester is active;
    /// the question, before the user was asked; nothing but a message, unless
    /// the user confirmed; and then the course removed, or why it was not.
    pub open spec fn remove_post(
        store: Store,
        disk: DiskView,
        name: Seq<char>,
        asked: Asked,
        after: DiskView,
        r: Reply,
    ) -> bool {
        match current_semester_of(disk, store.policy(), store@.active) {
            None => r matches Reply::Done(done) && is_complaint(
                done,
                "No active semester found"@,
                "An active semester is required in order to remove a course"@,
            ) && after == disk,
            Some(semester) => match asked {
                Asked::NotYet => asks(r, remove_course_question(name)) && after == disk,
                Asked::Answered(answers) => r matches Reply::Done(done) && (if decision_of(answers)
                    is Confirmed {
                    match crate::semester::course_of(disk, semester.path, name) {
                        None => is_failure(done, "Course '"@ + name + "' could not be found"@)
                            && after == disk,
                        Some(course) => {
                            &&& after == after_remove_course(
                                store@,
                                disk,
                                semester,
                                course.path,
                            ).0
                            &&& match after_remove_course(
                                store@,
                                disk,
                                semester,
                                course.path,
                            ).1 {
                                Ok(()) => is_success(
                                    done,
                                    "Course '"@ + name + "' has been removed"@,
                                ),
                                Err(e) => is_failure(done, Error::Persistence(e).about_spec(name)),
                            }
                        },
                    }
                } else {
                    declined(done, decision_of(answers), "Invalid input"@) && after == disk
                }),
            },
        }
    }

    /// What a course command gives; without a command the courses are listed.
    pub open spec fn run_post(
        store: Store,
        disk: DiskView,
        command: Option<CourseCommands>,
        asked: Asked,
        after: DiskView,
        r: Reply,
    ) -> bool {
        match command {
            None | Some(CourseCommands::List) => r matches Reply::Done(done) && Self::list_post(
                store,
                disk,
                done,
            ) && after == disk,
            Some(CourseCommands::Add { name }) => r matches Reply::Done(done) && Self::add_post(
                store,
                disk,
                name@,
                after,
                done,
            ),
            Some(CourseCommands::Remove { name }) => Self::remove_post(
                store,
                disk,
                name@,
                asked,
                after,
                r,
            ),
        }
    }

    /// Does a course command; without a command the courses are listed.
    pub fn run(store: &Store, disk: &mut Disk, command: Option<CourseCommands>, asked: Asked) -> (r:
        Reply)
        requires
            old(disk).wf(),
        ensures
            final(disk).wf(),
            final(disk).follows(*old(disk)),
            final(disk).changes() =~= old(disk).changes() + Self::run_changes(
                *store,
                old(disk)@,
                command,
                asked,
            ),
            Self::run_post(*store, old(disk)@, command, asked, final(disk)@, r),
            final(disk).notes() == Self::run_noted(
                *store,
                old(disk).notes(),
                old(disk)@,
                command,
                asked,
            ),
    {
        match command {
            None | Some(CourseCommands::List) => Reply::Done(Self::list(store, disk)),
            Some(CourseCommands::Add { name }) => Reply::Done(Self::add(store, disk, name)),
            Some(CourseCommands::Remove { name }) => Self::remove(store, disk, name, asked),
        }
    }

    /// Lists the courses of the active semester in a table.
    pub fn list(store: &Store, disk: &mut Disk) -> (r: ServiceResult)
        requires
            old(disk).wf(),
        ensures
            final(disk).wf(),
            final(disk).only_made_files(*old(disk)),
            final(disk)@ == old(disk)@,
            Self::list_post(*store, old(disk)@, r),
            final(disk).notes() == Self::list_noted(*store, old(disk).notes(), old(disk)@),
    {
        let semester = match store.current_semester(disk) {
            Some(semester) => semester,
            None => {
                return complain(
                    "No active semester found",
                    "An active semester is required in order to list the corresponding courses",
                );
            },
        };
        let courses = semester.courses(disk);
        let mut names: Vec<String> = Vec::new();
        let mut i: usize = 0;
        while i < courses.len()
            invariant
                i <= courses@.len(),
                names@.len() == i,
                forall|k: int|
                    0 <= k < i ==> (#[trigger] names@[k])@ == display_names(
                        course_list_views(courses@),
                    )[k],
            decreases courses@.len() - i,
        {
            names.push(courses[i].name());
            i += 1;
        }
        assert(names.deep_view() =~= display_names(course_list_views(courses@)));
        let names = sort_texts(names);
        if names.len() == 0 {
            return Ok(FormatType::Info("No courses found".to_owned()));
        }
        let column = match semester.active_course(disk) {
            Some(active) => mark_active(&names, active.name().as_str()),
            None => no_marks(names.len()),
        };
        Ok(
            table_of_two(
                "Active",
                "Courses",
                column,
                names,
                FormatAlignment::Right,
                FormatAlignment::Right,
            ),
        )
    }

    /// Adds a course named `name` to the active semester and says that it
    /// was added.
    pub fn add(store: &Store, disk: &mut Disk, name: String) -> (r: ServiceResult)
        requires
            old(disk).wf(),
        ensures
            final(disk).wf(),
            final(disk).follows(*old(disk)),
            final(disk).changes() =~= old(disk).changes() + Self::add_changes(
                *store,
                old(disk)@,
                name@,
            ),
            Self::add_post(*store, old(disk)@, name@, final(disk)@, r),
            final(disk).notes() == Self::add_noted(*store, old(disk).notes(), old(disk)@, name@),
    {
        let semester = match store.current_semester(disk) {
            Some(semester) => semester,
            None => {
                return complain(
                    "No active semester found",
                    "An active semester is required in order to add a new course",
                );
            },
        };
        match semester.add_course(disk, name.as_str()) {
            Ok(_) => Ok(FormatType::Success(text3("Course '", name.as_str(), "' has been added"))),
            Err(e) => Err(e.message_about(name.as_str())),
        }
    }

    /// The dialog before a course is removed.
    pub fn remove_dialog(name: &str) -> (r: Vec<DialogEntry>)
        ensures
            asks(Reply::Ask(r), remove_course_question(name@)),
    {
        let mut dialog: Vec<DialogEntry> = Vec::new();
        dialog.push(
            DialogEntry::YesNoInput(
                text3(
                    "Are you sure that you want to permanently remove course '",
                    name,
                    "' with all its content? This action can not be reverted",
                ),
            ),
        );
        dialog
    }

    /// Removes the course named `name` of the active semester once the user
    /// has confirmed it. Before the user was asked, the reply is the question
    /// to ask.
    pub fn remove(store: &Store, disk: &mut Disk, name: String, asked: Asked) -> (r: Reply)
        requires
            old(disk).wf(),
        ensures
            final(disk).wf(),
            final(disk).follows(*old(disk)),
            final(disk).changes() =~= old(disk).changes() + Self::remove_changes(
                *store,
                old(disk)@,
                name@,
                asked,
            ),
            Self::remove_post(*store, old(disk)@, name@, asked, final(disk)@, r),
            final(disk).notes() == Self::remove_noted(
                *store,
                old(disk).notes(),
                old(disk)@,
                name@,
                asked,
            ),
    {
        let mut semester = match store.current_semester(disk) {
            Some(semester) => semester,
            None => {
                return Reply::Done(
                    complain(
                        "No active semester found",
                        "An active semester is required in order to remove a course",
                    ),
                );
            },
        };
        let answers = match asked {
            Asked::NotYet => {
                return Reply::Ask(Self::remove_dialog(name.as_str()));
            },
            Asked::Answered(answers) => answers,
        };
        match decide(&answers) {
            Decision::Cancelled => Reply::Done(
                Ok(FormatType::Info("Operation has been canceled".to_owned())),
            ),
            Decision::Unanswered => Reply::Done(
                Err("Dialog has not returned not the specified output".to_owned()),
            ),
            Decision::Invalid => Reply::Done(Err("Invalid input".to_owned())),
            Decision::Confirmed => {
                let course = match semester.course(name.as_str(), disk) {
                    Some(course) => course,
                    None => {
                        return Reply::Done(
                            Err(text3("Course '", name.as_str(), "' could not be found")),
                        );
                    },
                };
                match store.remove_course(disk, &mut semester, course) {
                    Ok(()) => Reply::Done(
                        Ok(
                            FormatType::Success(
                                text3("Course '", name.as_str(), "' has been removed"),
                            ),
                        ),
                    ),
                    Err(e) => Reply::Done(Err(Error::Persistence(e).message_about(name.as_str()))),
                }
            },
        }
    }
}

/// The service of the switch command.
pub struct SwitchService;

/// What is said after a switch.
pub open spec fn switch_message(selection: SelectionView) -> Seq<char> {
    match selection {
        SelectionView::Nothing => "No active semester or course"@,
        SelectionView::Semester(s) => "Switched to semester: "@ + s.path.name,
        SelectionView::ActiveCourse(s, c) => "Switched to course: "@ + s.path.name + "/"@ + display_name(c),
        SelectionView::Course(s, c) => "Switched to course: "@ + s.path.name + "/"@ + display_name(c),
    }
}

/// What a switch goes by: the reference where one is given, and the working
/// directory otherwise.
pub open spec fn asked_for(reference: Option<String>, working_dir: Seq<char>) -> Seq<char> {
    match reference {
        Some(it) => it@,
        None => working_dir,
    }
}

impl SwitchService {
    /// What a switch gives: the image and the store as the switch leaves
    /// them, and a message that says what is active, or why the switch
    /// failed and for which reference or working directory.
    pub open spec fn run_post(
        store: Store,
        disk: DiskView,
        reference: Option<String>,
        working_dir: Seq<char>,
        after_store: Store,
        after: DiskView,
        r: ServiceResult,
    ) -> bool {
        let out = switch_outcome(disk, store.policy(), store@, reference, working_dir);
        &&& after == out.0
        &&& after_store@ == store@.with_active(out.1)
        &&& after_store.policy() == store.policy()
        &&& match out.2 {
            Ok(selection) => is_success(r, switch_message(selection)),
            Err(e) => is_failure(r, e.about_spec(asked_for(reference, working_dir))),
        }
    }

    /// Switches by a reference where one is given, and by the working
    /// directory otherwise, and says what is active afterwards.
    pub fn run(store: &mut Store, disk: &mut Disk, reference: Option<String>, working_dir: &str) -> (r:
        ServiceResult)
        requires
            old(disk).wf(),
        ensures
            final(disk).wf(),
            final(disk).follows(*old(disk)),
            final(disk).changes() =~= old(disk).changes() + switch_outcome(
                old(disk)@,
                old(store).policy(),
                old(store)@,
                reference,
                working_dir@,
            ).3,
            Self::run_post(
                *old(store),
                old(disk)@,
                reference,
                working_dir@,
                *final(store),
                final(disk)@,
                r,
            ),
            (switch_outcome(
                old(disk)@,
                old(store).policy(),
                old(store)@,
                reference,
                working_dir@,
            ).2 matches Err(Error::Reference(e)) && (e is InvalidReference || e is OutOfScope))
                ==> final(disk).pending() == old(disk).pending(),
            final(disk).notes() == noted_switch(
                old(disk).notes(),
                old(disk)@,
                old(store).policy(),
                old(store)@,
                reference,
                working_dir@,
            ),
    {
        let asked = match &reference {
            Some(it) => it.clone(),
            None => working_dir.to_owned(),
        };
        match switch(store, disk, reference, working_dir) {
            Ok(Selection::Nothing) => Ok(
                FormatType::Success("No active semester or course".to_owned()),
            ),
            Ok(Selection::Semester(s)) => Ok(
                FormatType::Success("Switched to semester: ".to_owned().concat(s.name().as_str())),
            ),
            Ok(Selection::ActiveCourse(s, c)) => Ok(
                FormatType::Success(
                    text3("Switched to course: ", s.name().as_str(), "/").concat(c.name().as_str()),
                ),
            ),
            Ok(Selection::Course(s, c)) => Ok(
                FormatType::Success(
                    text3("Switched to course: ", s.name().as_str(), "/").concat(c.name().as_str()),
                ),
            ),
            Err(e) => Err(e.message_about(asked.as_str())),
        }
    }
}

/// The figures of the status, as they are to be shown.
#[derive(Debug)]
pub struct StatusFigures {
    /// The average of all grades.
    pub average: String,
    /// The average of all grades, weighted by credits.
    pub weighted_average: String,
    /// The degrees that have an average of their own.
    pub degrees: Vec<String>,
    /// The weighted averages of those degrees, in their order.
    pub averages: Vec<String>,
}

/// The service of the status command.
pub struct StatusService;

/// The line that says what is active.
pub open spec fn status_line(disk: DiskView, policy: SemesterNames, active: Option<SemesterPathView>) -> Seq<
    char,
> {
    match current_semester_of(disk, policy, active) {
        Some(s) => match active_course_of(disk, s) {
            Some(c) => "Active on course: "@ + s.path.name + "/"@
                + display_name(c),
            None => "Active on: "@ + s.path.name + "/"@,
        },
        None => "No active semester or course"@,
    }
}

/// Whether a piece of output is the raw line `text`.
pub open spec fn is_line(piece: FormatType, text: Seq<char>) -> bool {
    piece matches FormatType::RawLine(s) && s@ == text
}

/// Whether a piece of output is the block of the averages by degree: the
/// heading, and below it the table of the degrees, or a line that says that
/// there are none.
pub open spec fn is_degree_block(piece: FormatType, figures: StatusFigures) -> bool {
    piece matches FormatType::Block(heading, body) && is_line(*heading, "By Degree"@) && (
    if figures.degrees@.len() == 0 {
        is_line(*body, "No courses found"@)
    } else {
        is_table(
            *body,
            seq!["Degree"@, "Average"@],
            seq![figures.degrees.deep_view(), figures.averages.deep_view()],
            seq![FormatAlignment::Left, FormatAlignment::Left],
        )
    })
}

/// Whether a piece of output is the status: the line that says what is
/// active, then the block of the performance, which holds the table of the
/// two averages and, after it, the block of the averages by degree.
pub open spec fn is_status(piece: FormatType, line: Seq<char>, figures: StatusFigures) -> bool {
    piece matches FormatType::Chain(items) && items@.len() == 2 && is_line(items@[0], line) && (
    items@[1] matches FormatType::Block(heading, body) && is_line(*heading, "Performance"@) && (
    *body matches FormatType::Chain(inner) && inner@.len() == 4 && crate::format::all_raw(
        inner@.take(3),
    ) && crate::format::raw_lines(inner@.take(3)) == crate::format::table_lines(
        seq!["Average"@, "Grade"@],
        seq![
            seq!["Overall"@, "Weighted"@],
            seq![figures.average@, figures.weighted_average@],
        ],
        seq![FormatAlignment::Left, FormatAlignment::Left],
    ) && is_degree_block(inner@[3], figures)))
}

/// Copies a list of texts.
fn copy_texts(texts: &Vec<String>) -> (r: Vec<String>)
    ensures
        r.deep_view() == texts.deep_view(),
{
    let mut out: Vec<String> = Vec::new();
    let mut i: usize = 0;
    while i < texts.len()
        invariant
            i <= texts@.len(),
            out@.len() == i,
            forall|k: int| 0 <= k < i ==> (#[trigger] out@[k])@ == texts@[k]@,
        decreases texts@.len() - i,
    {
        out.push(texts[i].clone());
        i += 1;
    }
    out
}

impl StatusService {
    /// Says what is active and shows the figures.
    pub fn run(store: &Store, disk: &mut Disk, figures: &StatusFigures) -> (r: ServiceResult)
        requires
            old(disk).wf(),
        ensures
            final(disk).wf(),
            final(disk).only_made_files(*old(disk)),
            final(disk)@ == old(disk)@,
            r matches Ok(piece) && is_status(
                piece,
                status_line(old(disk)@, store.policy(), store@.active),
                *figures,
            ),
            final(disk).notes() == current_course_touched(
                old(disk).notes(),
                old(disk)@,
                store.policy(),
                store@.active,
            ),
    {
        Self::status(store, disk, figures)
    }

    fn status(store: &Store, disk: &mut Disk, figures: &StatusFigures) -> (r: ServiceResult)
        requires
            old(disk).wf(),
        ensures
            final(disk).wf(),
            final(disk).only_made_files(*old(disk)),
            final(disk)@ == old(disk)@,
            r matches Ok(piece) && is_status(
                piece,
                status_line(old(disk)@, store.policy(), store@.active),
                *figures,
            ),
            final(disk).notes() == current_course_touched(
                old(disk).notes(),
                old(disk)@,
                store.policy(),
                store@.active,
            ),
    {
        let acc = match store.current_semester(disk) {
            Some(semester) => match semester.active_course(disk) {
                Some(course) => text3("Active on course: ", semester.name().as_str(), "/").concat(
                    course.name().as_str(),
                ),
                None => text3("Active on: ", semester.name().as_str(), "/"),
            },
            None => "No active semester or course".to_owned(),
        };
        let header = FormatType::RawLine("Performance".to_owned());
        let body = table_of_two(
            "Average",
            "Grade",
            two_texts("Overall", "Weighted"),
            two_texts(figures.average.as_str(), figures.weighted_average.as_str()),
            FormatAlignment::Left,
            FormatAlignment::Left,
        );
        let block_header = FormatType::RawLine("By Degree".to_owned());
        let block_body = if figures.degrees.len() == 0 {
            FormatType::RawLine("No courses found".to_owned())
        } else {
            table_of_two(
                "Degree",
                "Average",
                copy_texts(&figures.degrees),
                copy_texts(&figures.averages),
                FormatAlignment::Left,
                FormatAlignment::Left,
            )
        };
        proof {
            reveal_with_fuel(crate::format::row_count, 3);
            assert(crate::format::raw_lines(body->Chain_0@).len() == body->Chain_0@.len());
        }
        let ghost lines = body->Chain_0@;
        let inner = body.chain(block_header.block(block_body));
        proof {
            assert(inner->Chain_0@.take(3) =~= lines);
        }
        let msg = FormatType::RawLine(acc).chain(header.block(inner));
        Ok(msg)
    }
}

/// What the commands need besides the store and the image.
#[derive(Debug)]
pub struct Input {
    /// What the user has been asked so far.
    pub asked: Asked,
    /// The working directory, with its links resolved.
    pub working_dir: String,
    /// The figures of the status.
    pub figures: StatusFigures,
}

/// The services, with the store that they work on.
#[derive(Debug)]
pub struct Service {
    store: Store,
}

impl Service {
    /// The store of the services.
    pub closed spec fn store_spec(&self) -> Store {
        self.store
    }

    /// The services on a store.
    pub fn new(store: Store) -> (r: Service)
        ensures
            r.store_spec() == store,
    {
        Service { store }
    }

    /// The store of the services.
    pub fn store(&self) -> (r: &Store)
        ensures
            *r == self.store_spec(),
    {
        &self.store
    }

    /// The notes after a command, by its kind.
    pub open spec fn run_noted(
        store: Store,
        notes: Notes,
        disk: DiskView,
        args: Cli,
        input: Input,
    ) -> Notes {
        match args.command {
            Commands::Semester { command } => SemesterService::run_noted(
                store,
                notes,
                disk,
                command,
                input.asked,
            ),
            Commands::Course { command } => CourseService::run_noted(
                store,
                notes,
                disk,
                command,
                input.asked,
            ),
            Commands::Switch { reference } => noted_switch(
                notes,
                disk,
                store.policy(),
                store@,
                reference,
                input.working_dir@,
            ),
            Commands::Status {  } => current_course_touched(
                notes,
                disk,
                store.policy(),
                store@.active,
            ),
            _ => notes,
        }
    }

    /// The changes that a command makes, by its kind.
    pub open spec fn run_changes(store: Store, disk: DiskView, args: Cli, input: Input) -> Seq<AV> {
        match args.command {
            Commands::Semester { command } => SemesterService::run_changes(
                store,
                disk,
                command,
                input.asked,
            ),
            Commands::Course { command } => CourseService::run_changes(
                store,
                disk,
                command,
                input.asked,
            ),
            Commands::Switch { reference } => switch_outcome(
                disk,
                store.policy(),
                store@,
                reference,
                input.working_dir@,
            ).3,
            _ => Seq::empty(),
        }
    }

    /// What a command gives, by its kind.
    pub open spec fn run_post(
        store: Store,
        disk: DiskView,
        args: Cli,
        input: Input,
        after_store: Store,
        after: DiskView,
        r: Reply,
    ) -> bool {
        match args.command {
            Commands::Semester { command } => SemesterService::run_post(
                store,
                disk,
                command,
                input.asked,
                after_store,
                after,
                r,
            ),
            Commands::Course { command } => CourseService::run_post(
                store,
                disk,
                command,
                input.asked,
                after,
                r,
            ) && after_store == store,
            Commands::Switch { reference } => r matches Reply::Done(done)
                && SwitchService::run_post(
                store,
                disk,
                reference,
                input.working_dir@,
                after_store,
                after,
                done,
            ),
            Commands::Status {  } => r matches Reply::Done(Ok(piece)) && is_status(
                piece,
                status_line(disk, store.policy(), store@.active),
                input.figures,
            ) && after == disk && after_store == store,
            _ => true,
        }
    }

    /// Does a command of the kinds status, switch, semester and course.
    pub fn run(&mut self, disk: &mut Disk, args: Cli, input: Input) -> (r: Reply)
        requires
            old(disk).wf(),
            !(args.command is Exercise),
            !(args.command is Config),
        ensures
            final(disk).wf(),
            final(disk).follows(*old(disk)),
            final(disk).changes() =~= old(disk).changes() + Self::run_changes(
                old(self).store_spec(),
                old(disk)@,
                args,
                input,
            ),
            Self::run_post(
                old(self).store_spec(),
                old(disk)@,
                args,
                input,
                final(self).store_spec(),
                final(disk)@,
                r,
            ),
            final(disk).notes() == Self::run_noted(
                old(self).store_spec(),
                old(disk).notes(),
                old(disk)@,
                args,
                input,
            ),
    {
        match args.command {
            Commands::Semester { command } => SemesterService::run(
                &mut self.store,
                disk,
                command,
                input.asked,
            ),
            Commands::Course { command } => CourseService::run(
                &self.store,
                disk,
                command,
                input.asked,
            ),
            Commands::Switch { reference } => Reply::Done(
                SwitchService::run(&mut self.store, disk, reference, input.working_dir.as_str()),
            ),
            Commands::Status {  } => Reply::Done(
                StatusService::run(&self.store, disk, &input.figures),
            ),
            _ => Reply::Done(Err("This command is not available.".to_owned())),
        }
    }
}

} // verus!
