//! Inflection of Russian personal names into grammatical cases, and
//! detection of a name's grammatical gender from its surface form.
//!
//! A name is split on hyphens; for every part the most specific rule of a
//! rule table is selected (exact-match exceptions first, then the longest
//! matching suffix) and its modifier for the requested case is applied.
//! Parts that no rule covers are kept as they are.
//!
//! ```text
//! firstname(Gender::Male, "Саша", Case::Dative)            == "Саше"
//! lastname(Gender::Male, "Станкевич", Case::Prepositional) == "Станкевиче"
//! middlename(Gender::Female, "Петровна", Case::Accusative) == "Петровну"
//! detect_gender(None, None, Some("Олегович"))              == Gender::Male
//! ```
//!
//! [`firstname`], [`lastname`] and [`middlename`] build the list of rules
//! they need on every call. Who inflects many names builds a
//! [`rules::RuleList`] once and hands it to [`inflect::inflect_name`].
pub mod deprecated;
pub mod gender;
pub mod gender_table;
pub mod inflect;
pub mod laws;
pub mod matcher;
pub mod rule_table;
pub mod rules;
pub mod text;

pub use deprecated::Petrovich;
pub use gender::{detect_gender, Gender};
pub use inflect::{firstname, lastname, middlename};
pub use rules::Case;
