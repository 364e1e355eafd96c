//! The gender heuristics for Russian names.
//!
//! Each is given as a model, which the contract of gender detection refers
//! to, and by the function that builds it.
use vstd::prelude::*;
use crate::gender::{
    GenderHeuristic, GenderHeuristicModel, GenderHeuristics, GenderHeuristicsModel, GenderMapping,
    GenderMappingModel,
};
use crate::text::{patterns_of, split, words};

verus! {

/// A list without patterns.
fn no_patterns() -> (patterns: Vec<Vec<char>>)
    ensures
        patterns_of(patterns@) == Seq::<Seq<char>>::empty(),
{
    let patterns: Vec<Vec<char>> = Vec::new();
    assert(patterns_of(patterns@) =~= Seq::<Seq<char>>::empty());
    patterns
}

/// How last names tell the gender.
pub open spec fn lastname_genders() -> GenderHeuristicModel {
    GenderHeuristicModel {
        exceptions: Some(
            GenderMappingModel {
                androgynous: split("бова регин дарвин пэйлин грин цин шенгелая"@, ' '),
                male: Seq::empty(),
                female: Seq::empty(),
            },
        ),
        suffixes: GenderMappingModel {
            androgynous: Seq::empty(),
            male: split("кий ов ын ев ин ёв хий ний ый ой"@, ' '),
            female: split("ова ая ына ина ева ска ёва"@, ' '),
        },
    }
}

/// How first names tell the gender.
pub open spec fn firstname_genders() -> GenderHeuristicModel {
    GenderHeuristicModel {
        exceptions: Some(
            GenderMappingModel {
                androgynous: split("анри никита саша женя валя"@, ' '),
                male: split(
                    "аба савва лука кузьма фома фока зосима илья данила гаврила добрыня ерёма лёша гоша миша паша яша шота"@,
                    ' ',
                ),
                female: split("агидель жизель нинель рашель рахиль любовь николь изабель"@, ' '),
            },
        ),
        suffixes: GenderMappingModel {
            androgynous: Seq::empty(),
            male: split("б в г д ж з й к л м н п р с т ф х ц ч ш рь"@, ' '),
            female: split("а я"@, ' '),
        },
    }
}

/// How middle names tell the gender.
pub open spec fn middlename_genders() -> GenderHeuristicModel {
    GenderHeuristicModel {
        exceptions: None,
        suffixes: GenderMappingModel {
            androgynous: Seq::empty(),
            male: split("ич ыч оглы улы уулу"@, ' '),
            female: split("на кызы гызы"@, ' '),
        },
    }
}

/// The heuristics for all three parts of a name.
pub open spec fn standard_genders() -> GenderHeuristicsModel {
    GenderHeuristicsModel {
        lastname: lastname_genders(),
        firstname: firstname_genders(),
        middlename: middlename_genders(),
    }
}

impl GenderHeuristic {
    /// Builds the heuristic for last names.
    pub fn lastname() -> (heuristic: GenderHeuristic)
        ensures
            heuristic@ == lastname_genders(),
    {
        GenderHeuristic {
            exceptions: Some(
                GenderMapping {
                    androgynous: words("бова регин дарвин пэйлин грин цин шенгелая"),
                    male: no_patterns(),
                    female: no_patterns(),
                },
            ),
            suffixes: GenderMapping {
                androgynous: no_patterns(),
                male: words("кий ов ын ев ин ёв хий ний ый ой"),
                female: words("ова ая ына ина ева ска ёва"),
            },
        }
    }

    /// Builds the heuristic for first names.
    pub fn firstname() -> (heuristic: GenderHeuristic)
        ensures
            heuristic@ == firstname_genders(),
    {
        GenderHeuristic {
            exceptions: Some(
                GenderMapping {
                    androgynous: words("анри никита саша женя валя"),
                    male: words(
                        "аба савва лука кузьма фома фока зосима илья данила гаврила добрыня ерёма лёша гоша миша паша яша шота",
                    ),
                    female: words("агидель жизель нинель рашель рахиль любовь николь изабель"),
                },
            ),
            suffixes: GenderMapping {
                androgynous: no_patterns(),
                male: words("б в г д ж з й к л м н п р с т ф х ц ч ш рь"),
                female: words("а я"),
            },
        }
    }

    /// Builds the heuristic for middle names.
    pub fn middlename() -> (heuristic: GenderHeuristic)
        ensures
            heuristic@ == middlename_genders(),
    {
        GenderHeuristic {
            exceptions: None,
            suffixes: GenderMapping {
                androgynous: no_patterns(),
                male: words("ич ыч оглы улы уулу"),
                female: words("на кызы гызы"),
            },
        }
    }
}

impl GenderHeuristics {
    /// Builds the heuristics for all three parts of a name.
    pub fn standard() -> (heuristics: GenderHeuristics)
        ensures
            heuristics@ == standard_genders(),
    {
        GenderHeuristics {
            lastname: GenderHeuristic::lastname(),
            firstname: GenderHeuristic::firstname(),
            middlename: GenderHeuristic::middlename(),
        }
    }
}

} // verus!
