//! Study cycles and the letters that stand for them in a semester's name.

use vstd::prelude::*;

verus! {

/// One of the three study cycles.
#[derive(Debug, Clone, Copy, PartialEq, Eq, Hash, Structural)]
pub enum StudyCycle {
    Bachelor,
    Master,
    Doctorate,
}

/// A study cycle as it is given on the command line.
#[derive(Debug, Clone, Copy, PartialEq, Eq, Hash, Structural)]
pub enum StudyCycleDO {
    Bachelor,
    Master,
    Doctorate,
}

impl StudyCycle {
    /// The cycle that a command-line value names.
    pub open spec fn from_do_spec(study_cycle: StudyCycleDO) -> StudyCycle {
        match study_cycle {
            StudyCycleDO::Bachelor => StudyCycle::Bachelor,
            StudyCycleDO::Master => StudyCycle::Master,
            StudyCycleDO::Doctorate => StudyCycle::Doctorate,
        }
    }

    /// The letter that begins the canonical name of a semester of this cycle.
    pub open spec fn abbreviation_spec(self) -> Seq<char> {
        match self {
            StudyCycle::Bachelor => seq!['b'],
            StudyCycle::Master => seq!['m'],
            StudyCycle::Doctorate => seq!['d'],
        }
    }

    /// The cycle that a command-line value names.
    pub fn from_do(study_cycle: StudyCycleDO) -> (r: StudyCycle)
        ensures
            r == Self::from_do_spec(study_cycle),
    {
        match study_cycle {
            StudyCycleDO::Bachelor => StudyCycle::Bachelor,
            StudyCycleDO::Master => StudyCycle::Master,
            StudyCycleDO::Doctorate => StudyCycle::Doctorate,
        }
    }

    /// The letter that begins the canonical name of a semester of this cycle.
    pub fn abbreviation(&self) -> (r: &'static str)
        ensures
            r@ == self.abbreviation_spec(),
    {
        proof {
            reveal_strlit("b");
            reveal_strlit("m");
            reveal_strlit("d");
        }
        let r = match self {
            StudyCycle::Bachelor => "b",
            StudyCycle::Master => "m",
            StudyCycle::Doctorate => "d",
        };
        r
    }

    /// The cycle's name in full.
    pub fn label(&self) -> (r: &'static str)
        ensures
            r@ == (match *self {
                StudyCycle::Bachelor => "Bachelor"@,
                StudyCycle::Master => "Master"@,
                StudyCycle::Doctorate => "Doctorate"@,
            }),
    {
        match self {
            StudyCycle::Bachelor => "Bachelor",
            StudyCycle::Master => "Master",
            StudyCycle::Doctorate => "Doctorate",
        }
    }
}

impl StudyCycleDO {
    /// The cycle's name in full.
    pub fn label(&self) -> (r: &'static str)
        ensures
            r@ == (match *self {
                StudyCycleDO::Bachelor => "Bachelor"@,
                StudyCycleDO::Master => "Master"@,
                StudyCycleDO::Doctorate => "Doctorate"@,
            }),
    {
        match self {
            StudyCycleDO::Bachelor => "Bachelor",
            StudyCycleDO::Master => "Master",
            StudyCycleDO::Doctorate => "Doctorate",
        }
    }
}

} // verus!
