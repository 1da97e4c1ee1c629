//! The naming policy: which directory names are semesters, and how such a
//! name is taken apart into a number and a study cycle, or written from them.

use crate::cycle::StudyCycle;
use crate::pattern::{capture_group, group_names};
use crate::pattern::{regex_group, regex_group_names, regex_matches};
use crate::text::{opt_text, parse_u16, parse_u16_spec, same_text, two_digit, two_digit_spec};
use crate::text::lemma_parse_two_digit;
use vstd::prelude::*;
use vstd::string::*;

verus! {

/// Why a policy could not be built, or a name not be read.
#[derive(Debug, Clone, Copy, PartialEq, Eq, Structural)]
pub enum NamingError {
    /// The pattern is no regular expression.
    InvalidPattern,
    /// The pattern lacks one of the two capture groups.
    MissingCapture,
    /// The table leaves a study cycle without a token.
    IncompleteMapping,
    /// The name does not match the pattern.
    NoMatch,
    /// The name matches, but a capture group took no part in the match.
    EmptyCapture,
    /// The captured number is no unsigned 16-bit number.
    NotNumeric,
    /// The captured token stands for no study cycle.
    UnmappedCycle,
    /// No study cycle is given, and no semester is active to take it from.
    MissingCycle,
    /// The policy does not read the canonical name as the number and the
    /// cycle that it was written from.
    NotCanonical,
}

/// A table of tokens, one for each study cycle; a missing one is filled from the defaults.
#[derive(Debug)]
pub struct StudyCycleMappingDO {
    pub bachelor: Option<String>,
    pub master: Option<String>,
    pub doctorate: Option<String>,
}

/// The characters of a table of tokens.
pub struct TokensView {
    pub bachelor: Option<Seq<char>>,
    pub master: Option<Seq<char>>,
    pub doctorate: Option<Seq<char>>,
}

impl View for StudyCycleMappingDO {
    type V = TokensView;

    open spec fn view(&self) -> TokensView {
        TokensView {
            bachelor: opt_text(self.bachelor),
            master: opt_text(self.master),
            doctorate: opt_text(self.doctorate),
        }
    }
}

/// The tokens of an optional table.
pub open spec fn opt_tokens(mapping: Option<StudyCycleMappingDO>) -> Option<TokensView> {
    match mapping {
        Some(m) => Some(m@),
        None => None,
    }
}

/// The default tokens: `b`, `m` and `d`.
pub open spec fn default_tokens() -> TokensView {
    TokensView { bachelor: Some(seq!['b']), master: Some(seq!['m']), doctorate: Some(seq!['d']) }
}

/// The naming policy: a pattern with the capture groups `study_cycle` and
/// `semester_number`, and the tokens that stand for the study cycles.
#[derive(Debug)]
pub struct SemesterNames {
    regex: String,
    study_cycle_mapping: Vec<(String, StudyCycle)>,
}

/// The name of the capture group that holds the cycle's token.
pub open spec fn cycle_group() -> Seq<char> {
    "study_cycle"@
}

/// The name of the capture group that holds the semester's number.
pub open spec fn number_group() -> Seq<char> {
    "semester_number"@
}

/// The table as pairs of a token's characters and its cycle.
pub open spec fn mapping_view(mapping: Vec<(String, StudyCycle)>) -> Seq<(Seq<char>, StudyCycle)> {
    Seq::new(mapping@.len(), |i: int| (mapping@[i].0@, mapping@[i].1))
}

/// The cycle of the first entry of the table whose token is `token`.
pub open spec fn cycle_of(mapping: Seq<(Seq<char>, StudyCycle)>, token: Seq<char>) -> Option<
    StudyCycle,
>
    decreases mapping.len(),
{
    if mapping.len() == 0 {
        None
    } else if mapping[0].0 == token {
        Some(mapping[0].1)
    } else {
        cycle_of(mapping.skip(1), token)
    }
}

/// The token that a table gives, or else the default one.
pub open spec fn fill_spec(input: Option<Seq<char>>, default: Option<Seq<char>>) -> Option<
    Seq<char>,
> {
    if input.is_some() {
        input
    } else {
        default
    }
}

/// The table built from the given tokens and the defaults: bachelor, master
/// and doctorate in this order, or the error where a token is missing in both.
pub open spec fn mapping_spec(mapping: Option<TokensView>, default_map: TokensView) -> Result<
    Seq<(Seq<char>, StudyCycle)>,
    NamingError,
> {
    let given = match mapping {
        Some(m) => m,
        None => default_map,
    };
    let bachelor = fill_spec(given.bachelor, default_map.bachelor);
    let master = fill_spec(given.master, default_map.master);
    let doctorate = fill_spec(given.doctorate, default_map.doctorate);
    if bachelor.is_some() && master.is_some() && doctorate.is_some() {
        Ok(
            seq![
                (bachelor.unwrap(), StudyCycle::Bachelor),
                (master.unwrap(), StudyCycle::Master),
                (doctorate.unwrap(), StudyCycle::Doctorate),
            ],
        )
    } else {
        Err(NamingError::IncompleteMapping)
    }
}

/// The table of a policy that was given none: `b`, `m` and `d`.
pub open spec fn default_mapping() -> Seq<(Seq<char>, StudyCycle)> {
    seq![
        (seq!['b'], StudyCycle::Bachelor),
        (seq!['m'], StudyCycle::Master),
        (seq!['d'], StudyCycle::Doctorate),
    ]
}

/// Whether a table has an entry for each of the three cycles, in their order.
pub open spec fn maps_all_cycles(mapping: Seq<(Seq<char>, StudyCycle)>) -> bool {
    &&& mapping.len() == 3
    &&& mapping[0].1 == StudyCycle::Bachelor
    &&& mapping[1].1 == StudyCycle::Master
    &&& mapping[2].1 == StudyCycle::Doctorate
}

/// Whether a list of group names holds a group named `group`.
pub open spec fn exposes_spec(names: Seq<Option<Seq<char>>>, group: Seq<char>) -> bool {
    exists|i: int| 0 <= i < names.len() && #[trigger] names[i] == Some(group)
}

/// Whether a list of group names holds each of the first `upto` required groups.
pub open spec fn exposes_all(
    names: Seq<Option<Seq<char>>>,
    groups: Seq<Seq<char>>,
    upto: int,
) -> bool {
    forall|k: int| 0 <= k < upto ==> exposes_spec(names, #[trigger] groups[k])
}

/// What validating a pattern gives, from the group names that it compiled to.
pub open spec fn validated(
    names: Option<Seq<Option<Seq<char>>>>,
    groups: Seq<Seq<char>>,
) -> Result<(), NamingError> {
    match names {
        None => Err(NamingError::InvalidPattern),
        Some(found) => if exposes_all(found, groups, groups.len() as int) {
            Ok(())
        } else {
            Err(NamingError::MissingCapture)
        },
    }
}

/// What reading a name gives, from what the pattern found in it: whether it
/// matched, and what the two groups captured.
pub open spec fn parse_outcome(
    matched: bool,
    number: Option<Seq<char>>,
    token: Option<Seq<char>>,
    mapping: Seq<(Seq<char>, StudyCycle)>,
) -> Result<(u16, StudyCycle), NamingError> {
    if !matched {
        Err(NamingError::NoMatch)
    } else {
        match number {
            None => Err(NamingError::EmptyCapture),
            Some(digits) => match parse_u16_spec(digits) {
                None => Err(NamingError::NotNumeric),
                Some(value) => match token {
                    None => Err(NamingError::EmptyCapture),
                    Some(t) => match cycle_of(mapping, t) {
                        None => Err(NamingError::UnmappedCycle),
                        Some(cycle) => Ok((value, cycle)),
                    },
                },
            },
        }
    }
}

/// The canonical name of a semester: the cycle's letter, then the number with
/// two digits at least.
pub open spec fn format_name_spec(cycle: StudyCycle, number: u16) -> Seq<char> {
    cycle.abbreviation_spec() + two_digit_spec(number as nat)
}

/// Tells whether the list of group names holds a group named `group`.
pub fn exposes(names: &Vec<Option<String>>, group: &str) -> (r: bool)
    ensures
        r == exposes_spec(names.deep_view(), group@),
{
    let mut i: usize = 0;
    while i < names.len()
        invariant
            i <= names@.len(),
            forall|k: int| 0 <= k < i ==> (#[trigger] names.deep_view()[k]) != Some(group@),
        decreases names@.len() - i,
    {
        let hit = match &names[i] {
            Some(name) => same_text(name.as_str(), group),
            None => false,
        };
        if hit {
            assert(names.deep_view()[i as int] == Some(group@));
            return true;
        }
        i += 1;
    }
    false
}

/// Judges a pattern by the group names that it compiled to: it must have
/// compiled, and expose every group of `capture_groups`.
pub fn check_groups(names: &Option<Vec<Option<String>>>, capture_groups: &Vec<&str>) -> (r: Result<
    (),
    NamingError,
>)
    ensures
        r == validated(names.deep_view(), capture_groups.deep_view()),
{
    match names {
        None => Err(NamingError::InvalidPattern),
        Some(found) => {
            let mut k: usize = 0;
            while k < capture_groups.len()
                invariant
                    k <= capture_groups@.len(),
                    *names == Some(*found),
                    exposes_all(found.deep_view(), capture_groups.deep_view(), k as int),
                decreases capture_groups@.len() - k,
            {
                if !exposes(found, capture_groups[k]) {
                    assert(!exposes_spec(found.deep_view(), capture_groups.deep_view()[k as int]));
                    return Err(NamingError::MissingCapture);
                }
                k += 1;
            }
            Ok(())
        },
    }
}

/// Validates a pattern for semester names: it must compile and expose every
/// group of `capture_groups`. Gives the pattern back.
pub fn semester_regex(regex: &str, capture_groups: &Vec<&str>) -> (r: Result<String, NamingError>)
    ensures
        match r {
            Ok(pattern) => pattern@ == regex@ && validated(
                regex_group_names(regex@),
                capture_groups.deep_view(),
            ).is_ok(),
            Err(e) => validated(regex_group_names(regex@), capture_groups.deep_view()) == Err::<
                (),
                NamingError,
            >(e),
        },
{
    let names = group_names(regex);
    match check_groups(&names, capture_groups) {
        Ok(()) => Ok(regex.to_owned()),
        Err(e) => Err(e),
    }
}

fn fill(input: &Option<String>, default: &Option<String>) -> (r: Option<String>)
    ensures
        opt_text(r) == fill_spec(opt_text(*input), opt_text(*default)),
{
    match input {
        Some(token) => Some(token.clone()),
        None => match default {
            Some(token) => Some(token.clone()),
            None => None,
        },
    }
}

/// Builds the table of tokens: each cycle's token is the given one, or else
/// the default one; a cycle without either is an error.
pub fn study_cycle_mapping(
    mapping: Option<StudyCycleMappingDO>,
    default_map: StudyCycleMappingDO,
) -> (r: Result<Vec<(String, StudyCycle)>, NamingError>)
    ensures
        match r {
            Ok(table) => mapping_spec(opt_tokens(mapping), default_map@) == Ok::<
                Seq<(Seq<char>, StudyCycle)>,
                NamingError,
            >(mapping_view(table)) && maps_all_cycles(mapping_view(table)),
            Err(e) => mapping_spec(opt_tokens(mapping), default_map@) == Err::<
                Seq<(Seq<char>, StudyCycle)>,
                NamingError,
            >(e),
        },
{
    let (bachelor, master, doctorate) = match &mapping {
        Some(m) => (
            fill(&m.bachelor, &default_map.bachelor),
            fill(&m.master, &default_map.master),
            fill(&m.doctorate, &default_map.doctorate),
        ),
        None => (
            fill(&default_map.bachelor, &default_map.bachelor),
            fill(&default_map.master, &default_map.master),
            fill(&default_map.doctorate, &default_map.doctorate),
        ),
    };
    match (bachelor, master, doctorate) {
        (Some(b), Some(m), Some(d)) => {
            let mut table: Vec<(String, StudyCycle)> = Vec::new();
            table.push((b, StudyCycle::Bachelor));
            table.push((m, StudyCycle::Master));
            table.push((d, StudyCycle::Doctorate));
            assert(mapping_view(table) =~= seq![
                (b@, StudyCycle::Bachelor),
                (m@, StudyCycle::Master),
                (d@, StudyCycle::Doctorate),
            ]);
            Ok(table)
        },
        _ => Err(NamingError::IncompleteMapping),
    }
}

/// Looks a token up in the table: the cycle of the first entry that has it.
pub fn lookup_cycle(mapping: &Vec<(String, StudyCycle)>, token: &str) -> (r: Option<StudyCycle>)
    ensures
        r == cycle_of(mapping_view(*mapping), token@),
{
    let mut i: usize = 0;
    proof {
        assert(mapping_view(*mapping).skip(0) =~= mapping_view(*mapping));
    }
    while i < mapping.len()
        invariant
            i <= mapping@.len(),
            cycle_of(mapping_view(*mapping), token@) == cycle_of(
                mapping_view(*mapping).skip(i as int),
                token@,
            ),
        decreases mapping@.len() - i,
    {
        let ghost rest = mapping_view(*mapping).skip(i as int);
        proof {
            assert(rest.skip(1) =~= mapping_view(*mapping).skip(i + 1));
        }
        if same_text(mapping[i].0.as_str(), token) {
            return Some(mapping[i].1);
        }
        i += 1;
    }
    None
}

/// Reads number and cycle from what the two capture groups hold for a name
/// that matched the pattern.
pub fn interpret(
    number: &Option<String>,
    token: &Option<String>,
    mapping: &Vec<(String, StudyCycle)>,
) -> (r: Result<(u16, StudyCycle), NamingError>)
    ensures
        r == parse_outcome(true, opt_text(*number), opt_text(*token), mapping_view(*mapping)),
{
    let digits = match number {
        Some(digits) => digits,
        None => {
            return Err(NamingError::EmptyCapture);
        },
    };
    let value = match parse_u16(digits.as_str()) {
        Some(value) => value,
        None => {
            return Err(NamingError::NotNumeric);
        },
    };
    let t = match token {
        Some(t) => t,
        None => {
            return Err(NamingError::EmptyCapture);
        },
    };
    match lookup_cycle(mapping, t.as_str()) {
        Some(cycle) => Ok((value, cycle)),
        None => Err(NamingError::UnmappedCycle),
    }
}

/// Writes the canonical name of a semester.
pub fn format_name(cycle: StudyCycle, semester_number: u16) -> (r: String)
    ensures
        r@ == format_name_spec(cycle, semester_number),
{
    let digits = two_digit(semester_number);
    cycle.abbreviation().to_owned().concat(digits.as_str())
}

impl SemesterNames {
    /// The pattern's text.
    pub closed spec fn pattern(&self) -> Seq<char> {
        self.regex@
    }

    /// The table of tokens.
    pub closed spec fn mapping(&self) -> Seq<(Seq<char>, StudyCycle)> {
        mapping_view(self.study_cycle_mapping)
    }

    /// A policy's pattern compiles and exposes both capture groups, and its
    /// table has a token for each study cycle.
    pub open spec fn wf(&self) -> bool {
        &&& validated(regex_group_names(self.pattern()), seq![cycle_group(), number_group()]).is_ok()
        &&& maps_all_cycles(self.mapping())
    }

    /// Whether the pattern matches `name`.
    pub open spec fn is_name_spec(&self, name: Seq<char>) -> bool {
        regex_matches(self.pattern(), name)
    }

    /// The test that the policy puts names to.
    pub open spec fn accepts(&self) -> spec_fn(Seq<char>) -> bool {
        |name: Seq<char>| self.is_name_spec(name)
    }

    /// What reading `name` gives.
    pub open spec fn parse_spec(&self, name: Seq<char>) -> Result<(u16, StudyCycle), NamingError> {
        parse_outcome(
            regex_matches(self.pattern(), name),
            regex_group(self.pattern(), name, number_group()),
            regex_group(self.pattern(), name, cycle_group()),
            self.mapping(),
        )
    }

    /// What building a policy gives, from the group names that the chosen
    /// pattern compiled to.
    pub open spec fn new_outcome(
        names: Option<Seq<Option<Seq<char>>>>,
        table: Result<Seq<(Seq<char>, StudyCycle)>, NamingError>,
    ) -> Result<Seq<(Seq<char>, StudyCycle)>, NamingError> {
        match validated(names, seq![cycle_group(), number_group()]) {
            Err(e) => Err(e),
            Ok(()) => table,
        }
    }

    /// The pattern of a policy that was given none: a letter of `b`, `m`, `d`
    /// and two digits, and nothing else.
    pub open spec fn default_pattern() -> Seq<char> {
        "^(?P<study_cycle>[bmd])(?P<semester_number>\\d{2})$"@
    }

    /// The pattern that `new` validates: the given one, or else the default.
    pub open spec fn chosen_pattern(regex: Option<String>) -> Seq<char> {
        match regex {
            Some(rx) => rx@,
            None => Self::default_pattern(),
        }
    }

    /// The table that `new` builds: from the given tokens where a pattern is
    /// given too, and from the defaults alone otherwise.
    pub open spec fn chosen_mapping(
        regex: Option<String>,
        study_cycle_mapping: Option<StudyCycleMappingDO>,
    ) -> Result<Seq<(Seq<char>, StudyCycle)>, NamingError> {
        match regex {
            Some(_) => mapping_spec(opt_tokens(study_cycle_mapping), default_tokens()),
            None => mapping_spec(None, default_tokens()),
        }
    }

    /// Builds a policy from an optional pattern and an optional table of
    /// tokens. Without a pattern the default pattern and the default tokens
    /// are taken. The pattern must compile and expose both capture groups.
    pub fn new(regex: Option<String>, study_cycle_mapping: Option<StudyCycleMappingDO>) -> (r:
        Result<SemesterNames, NamingError>)
        ensures
            match r {
                Ok(policy) => {
                    &&& policy.wf()
                    &&& policy.pattern() == Self::chosen_pattern(regex)
                    &&& Self::chosen_mapping(regex, study_cycle_mapping) == Ok::<
                        Seq<(Seq<char>, StudyCycle)>,
                        NamingError,
                    >(policy.mapping())
                },
                Err(e) => Self::new_outcome(
                    regex_group_names(Self::chosen_pattern(regex)),
                    Self::chosen_mapping(regex, study_cycle_mapping),
                ) == Err::<Seq<(Seq<char>, StudyCycle)>, NamingError>(e),
            },
    {
        let mut capture_groups: Vec<&str> = Vec::new();
        capture_groups.push("study_cycle");
        capture_groups.push("semester_number");
        assert(capture_groups.deep_view() =~= seq![cycle_group(), number_group()]);
        proof {
            reveal_strlit("b");
            reveal_strlit("m");
            reveal_strlit("d");
        }
        let default_map = StudyCycleMappingDO {
            bachelor: Some("b".to_owned()),
            master: Some("m".to_owned()),
            doctorate: Some("d".to_owned()),
        };
        assert(default_map@.bachelor.unwrap() =~= seq!['b']);
        assert(default_map@.master.unwrap() =~= seq!['m']);
        assert(default_map@.doctorate.unwrap() =~= seq!['d']);
        let (pattern, given) = match regex {
            Some(rx) => (semester_regex(rx.as_str(), &capture_groups), study_cycle_mapping),
            None => (
                semester_regex(
                    "^(?P<study_cycle>[bmd])(?P<semester_number>\\d{2})$",
                    &capture_groups,
                ),
                None,
            ),
        };
        let pattern = match pattern {
            Ok(pattern) => pattern,
            Err(e) => {
                return Err(e);
            },
        };
        match self::study_cycle_mapping(given, default_map) {
            Ok(table) => Ok(SemesterNames { regex: pattern, study_cycle_mapping: table }),
            Err(e) => Err(e),
        }
    }

    /// Tells whether `name` is a semester's name: whether the pattern matches it.
    pub fn is_name(&self, name: &str) -> (r: bool)
        ensures
            r == self.is_name_spec(name@),
    {
        capture_group(self.regex.as_str(), name, "study_cycle").is_some()
    }

    /// Reads number and study cycle from a semester's name.
    pub fn deserialize(&self, name: &str) -> (r: Result<(u16, StudyCycle), NamingError>)
        ensures
            r == self.parse_spec(name@),
    {
        let number = match capture_group(self.regex.as_str(), name, "semester_number") {
            Some(number) => number,
            None => {
                return Err(NamingError::NoMatch);
            },
        };
        let token = match capture_group(self.regex.as_str(), name, "study_cycle") {
            Some(token) => token,
            None => {
                return Err(NamingError::NoMatch);
            },
        };
        interpret(&number, &token, &self.study_cycle_mapping)
    }
}

/// Under the default tokens the letter of each cycle stands for that cycle.
pub proof fn lemma_default_mapping(cycle: StudyCycle)
    ensures
        cycle_of(default_mapping(), cycle.abbreviation_spec()) == Some(cycle),
{
    reveal_with_fuel(cycle_of, 4);
    assert(seq!['b'][0] == 'b' && seq!['m'][0] == 'm' && seq!['d'][0] == 'd');
}

/// A name that the pattern does not match is no semester's name, and reading
/// it fails.
pub proof fn lemma_parse_rejects_other_names(policy: SemesterNames, name: Seq<char>)
    requires
        !regex_matches(policy.pattern(), name),
    ensures
        !policy.is_name_spec(name),
        policy.parse_spec(name) == Err::<(u16, StudyCycle), NamingError>(NamingError::NoMatch),
{
}

/// Reading back a canonical name gives the number and the cycle that it was
/// written from, under every policy whose pattern matches the name, captures
/// its letter and its digits, and whose table maps the letter to the cycle.
pub proof fn lemma_parse_format(policy: SemesterNames, cycle: StudyCycle, number: u16)
    requires
        regex_matches(policy.pattern(), format_name_spec(cycle, number)),
        regex_group(policy.pattern(), format_name_spec(cycle, number), number_group()) == Some(
            two_digit_spec(number as nat),
        ),
        regex_group(policy.pattern(), format_name_spec(cycle, number), cycle_group()) == Some(
            cycle.abbreviation_spec(),
        ),
        cycle_of(policy.mapping(), cycle.abbreviation_spec()) == Some(cycle),
    ensures
        policy.parse_spec(format_name_spec(cycle, number)) == Ok::<
            (u16, StudyCycle),
            NamingError,
        >((number, cycle)),
{
    lemma_parse_two_digit(number);
}

} // verus!
