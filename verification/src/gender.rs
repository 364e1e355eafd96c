//! Grammatical gender.
use vstd::prelude::*;
use crate::gender_table::standard_genders;
use crate::text::{
    any_equals, any_suffix, chars_of, lowercase, lowercase_of, patterns_of, some_equals,
    some_suffix,
};

verus! {

/// Grammatical gender of a name.
///
/// On a rule, `Androgynous` means that the rule serves every gender; as the
/// result of detection it means that no gender could be told.
#[derive(PartialEq, Eq, Structural, Clone, Copy, Debug)]
pub enum Gender {
    /// Masculine.
    Male,
    /// Feminine.
    Female,
    /// Neutral or unknown.
    Androgynous,
}

/// A rule written for `rule_gender` serves a request for `gender`.
pub open spec fn gender_serves(rule_gender: Gender, gender: Gender) -> bool {
    rule_gender == gender || rule_gender == Gender::Androgynous
}

/// Names or endings sorted by the gender they stand for. All of them are
/// lowercase.
#[derive(Debug, PartialEq, Eq)]
pub struct GenderMapping {
    pub androgynous: Vec<Vec<char>>,
    pub male: Vec<Vec<char>>,
    pub female: Vec<Vec<char>>,
}

/// Model of a [`GenderMapping`].
pub struct GenderMappingModel {
    pub androgynous: Seq<Seq<char>>,
    pub male: Seq<Seq<char>>,
    pub female: Seq<Seq<char>>,
}

impl View for GenderMapping {
    type V = GenderMappingModel;

    open spec fn view(&self) -> GenderMappingModel {
        GenderMappingModel {
            androgynous: patterns_of(self.androgynous@),
            male: patterns_of(self.male@),
            female: patterns_of(self.female@),
        }
    }
}

impl GenderMappingModel {
    /// The gender under which `name` is listed. Neutral entries are looked
    /// at first, then feminine, then masculine ones.
    pub open spec fn listed(self, name: Seq<char>) -> Option<Gender> {
        if some_equals(self.androgynous, name) {
            Some(Gender::Androgynous)
        } else if some_equals(self.female, name) {
            Some(Gender::Female)
        } else if some_equals(self.male, name) {
            Some(Gender::Male)
        } else {
            None
        }
    }

    /// The gender under which an ending of `name` is listed, in the same
    /// order.
    pub open spec fn ending_listed(self, name: Seq<char>) -> Option<Gender> {
        if some_suffix(self.androgynous, name) {
            Some(Gender::Androgynous)
        } else if some_suffix(self.female, name) {
            Some(Gender::Female)
        } else if some_suffix(self.male, name) {
            Some(Gender::Male)
        } else {
            None
        }
    }
}

impl GenderMapping {
    /// The gender under which `name` is listed.
    pub fn listed(&self, name: &[char]) -> (gender: Option<Gender>)
        ensures
            gender == self@.listed(name@),
    {
        if any_equals(self.androgynous.as_slice(), name) {
            Some(Gender::Androgynous)
        } else if any_equals(self.female.as_slice(), name) {
            Some(Gender::Female)
        } else if any_equals(self.male.as_slice(), name) {
            Some(Gender::Male)
        } else {
            None
        }
    }

    /// The gender under which an ending of `name` is listed.
    pub fn ending_listed(&self, name: &[char]) -> (gender: Option<Gender>)
        ensures
            gender == self@.ending_listed(name@),
    {
        if any_suffix(self.androgynous.as_slice(), name) {
            Some(Gender::Androgynous)
        } else if any_suffix(self.female.as_slice(), name) {
            Some(Gender::Female)
        } else if any_suffix(self.male.as_slice(), name) {
            Some(Gender::Male)
        } else {
            None
        }
    }
}

/// How the gender is told from one part of a name: by whole names, where
/// such a layer exists, and by endings.
#[derive(Debug, PartialEq, Eq)]
pub struct GenderHeuristic {
    pub exceptions: Option<GenderMapping>,
    pub suffixes: GenderMapping,
}

/// Model of a [`GenderHeuristic`].
pub struct GenderHeuristicModel {
    pub exceptions: Option<GenderMappingModel>,
    pub suffixes: GenderMappingModel,
}

impl View for GenderHeuristic {
    type V = GenderHeuristicModel;

    open spec fn view(&self) -> GenderHeuristicModel {
        GenderHeuristicModel {
            exceptions: match self.exceptions {
                Some(mapping) => Some(mapping@),
                None => None,
            },
            suffixes: self.suffixes@,
        }
    }
}

impl GenderHeuristicModel {
    /// The entry that decides for the lowercase `name`: the one among the
    /// whole names if there is any, else the one among the endings.
    pub open spec fn deciding_entry(self, name: Seq<char>) -> Option<Gender> {
        let by_name = match self.exceptions {
            Some(mapping) => mapping.listed(name),
            None => None,
        };
        match by_name {
            Some(gender) => Some(gender),
            None => self.suffixes.ending_listed(name),
        }
    }

    /// The gender that the lowercase `name` tells. A name that is listed
    /// as neutral, or not covered at all, tells none.
    pub open spec fn detect_gender(self, name: Seq<char>) -> Option<Gender> {
        match self.deciding_entry(name) {
            Some(Gender::Male) => Some(Gender::Male),
            Some(Gender::Female) => Some(Gender::Female),
            _ => None,
        }
    }
}

impl GenderHeuristic {
    /// The gender that the lowercase `name` tells, if it tells one.
    pub fn detect_gender(&self, name: &[char]) -> (gender: Option<Gender>)
        ensures
            gender == self@.detect_gender(name@),
            gender != Some(Gender::Androgynous),
    {
        let by_name = match &self.exceptions {
            Some(mapping) => mapping.listed(name),
            None => None,
        };
        let entry = match by_name {
            Some(gender) => Some(gender),
            None => self.suffixes.ending_listed(name),
        };
        match entry {
            Some(Gender::Male) => Some(Gender::Male),
            Some(Gender::Female) => Some(Gender::Female),
            _ => None,
        }
    }
}

/// The heuristics for the three parts of a name.
#[derive(Debug, PartialEq, Eq)]
pub struct GenderHeuristics {
    pub lastname: GenderHeuristic,
    pub firstname: GenderHeuristic,
    pub middlename: GenderHeuristic,
}

/// Model of [`GenderHeuristics`].
pub struct GenderHeuristicsModel {
    pub lastname: GenderHeuristicModel,
    pub firstname: GenderHeuristicModel,
    pub middlename: GenderHeuristicModel,
}

impl View for GenderHeuristics {
    type V = GenderHeuristicsModel;

    open spec fn view(&self) -> GenderHeuristicsModel {
        GenderHeuristicsModel {
            lastname: self.lastname@,
            firstname: self.firstname@,
            middlename: self.middlename@,
        }
    }
}

/// What one part of a name tells, where the part is given.
pub open spec fn part_tells(heuristic: GenderHeuristicModel, name: Option<Seq<char>>) -> Option<
    Gender,
> {
    match name {
        Some(name) => heuristic.detect_gender(name),
        None => None,
    }
}

impl GenderHeuristicsModel {
    /// The gender of a person by the lowercase parts of the name. The
    /// middle name is asked first, then the first name, then the last
    /// name; the first part that tells a gender decides.
    pub open spec fn detect_gender(
        self,
        lastname: Option<Seq<char>>,
        firstname: Option<Seq<char>>,
        middlename: Option<Seq<char>>,
    ) -> Gender {
        match part_tells(self.middlename, middlename) {
            Some(gender) => gender,
            None => match part_tells(self.firstname, firstname) {
                Some(gender) => gender,
                None => match part_tells(self.lastname, lastname) {
                    Some(gender) => gender,
                    None => Gender::Androgynous,
                },
            },
        }
    }
}

/// The characters of an optional slice.
pub open spec fn chars_view(name: Option<&[char]>) -> Option<Seq<char>> {
    match name {
        Some(name) => Some(name@),
        None => None,
    }
}

impl GenderHeuristics {
    /// The gender of a person by the lowercase parts of the name.
    pub fn detect_gender(
        &self,
        lastname: Option<&[char]>,
        firstname: Option<&[char]>,
        middlename: Option<&[char]>,
    ) -> (gender: Gender)
        ensures
            gender == self@.detect_gender(
                chars_view(lastname),
                chars_view(firstname),
                chars_view(middlename),
            ),
    {
        if let Some(name) = middlename {
            if let Some(gender) = self.middlename.detect_gender(name) {
                return gender;
            }
        }
        if let Some(name) = firstname {
            if let Some(gender) = self.firstname.detect_gender(name) {
                return gender;
            }
        }
        if let Some(name) = lastname {
            if let Some(gender) = self.lastname.detect_gender(name) {
                return gender;
            }
        }
        Gender::Androgynous
    }
}

/// The lowercase form of a part of a name, where the part is given.
pub open spec fn lowered(name: Option<&str>) -> Option<Seq<char>> {
    match name {
        Some(name) => Some(lowercase_of(name@)),
        None => None,
    }
}

/// The characters of the lowercase form of a part of a name.
fn lowered_chars(name: Option<&str>) -> (chars: Option<Vec<char>>)
    ensures
        match chars {
            Some(chars) => lowered(name) == Some(chars@),
            None => name is None,
        },
{
    match name {
        Some(name) => {
            let lower = lowercase(name);
            Some(chars_of(lower.as_str()))
        },
        None => None,
    }
}

/// Borrows the characters of an optional vector.
fn borrowed(chars: &Option<Vec<char>>) -> (slice: Option<&[char]>)
    ensures
        match slice {
            Some(slice) => chars is Some && slice@ == chars.unwrap()@,
            None => chars is None,
        },
{
    match chars {
        Some(chars) => Some(chars.as_slice()),
        None => None,
    }
}

/// Detects the gender of a person from the parts of the name that are
/// given, by the heuristics for Russian names. The middle name is asked
/// first, then the first name, then the last name. Where none of them
/// tells a gender the result is `Gender::Androgynous`.
pub fn detect_gender(
    lastname: Option<&str>,
    firstname: Option<&str>,
    middlename: Option<&str>,
) -> (gender: Gender)
    ensures
        gender == standard_genders().detect_gender(
            lowered(lastname),
            lowered(firstname),
            lowered(middlename),
        ),
{
    let heuristics = GenderHeuristics::standard();
    let last = lowered_chars(lastname);
    let first = lowered_chars(firstname);
    let middle = lowered_chars(middlename);
    heuristics.detect_gender(borrowed(&last), borrowed(&first), borrowed(&middle))
}

} // verus!
