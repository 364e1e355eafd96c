//! Object-style interface. New code calls the free functions, to which
//! these methods forward; they never fail.
use vstd::prelude::*;
use crate::gender::{detect_gender, lowered, Gender};
use crate::gender_table::standard_genders;
use crate::inflect::{firstname, inflected_name, lastname, middlename};
use crate::rule_table::{firstname_rules, lastname_rules, middlename_rules};
use crate::rules::Case;

verus! {

/// Handle of the object-style interface. It holds no state.
#[derive(Clone, Copy, Debug)]
pub struct Petrovich;

impl Petrovich {
    /// Creates the handle.
    pub fn new() -> Petrovich {
        Petrovich
    }

    /// Inflects a first name. The result is always `Ok`.
    pub fn firstname(&self, gender: Gender, name: &str, case: Case) -> (inflected: Result<
        String,
        &'static str,
    >)
        ensures
            inflected is Ok,
            inflected.unwrap()@ == inflected_name(gender, name@, case, firstname_rules()),
    {
        Ok(firstname(gender, name, case))
    }

    /// Inflects a middle name. The result is always `Ok`.
    pub fn middlename(&self, gender: Gender, name: &str, case: Case) -> (inflected: Result<
        String,
        &'static str,
    >)
        ensures
            inflected is Ok,
            inflected.unwrap()@ == inflected_name(gender, name@, case, middlename_rules()),
    {
        Ok(middlename(gender, name, case))
    }

    /// Inflects a last name. The result is always `Ok`.
    pub fn lastname(&self, gender: Gender, name: &str, case: Case) -> (inflected: Result<
        String,
        &'static str,
    >)
        ensures
            inflected is Ok,
            inflected.unwrap()@ == inflected_name(gender, name@, case, lastname_rules()),
    {
        Ok(lastname(gender, name, case))
    }

    /// Detects the gender from a middle name alone.
    pub fn detect_gender(middlename: &str) -> (gender: Gender)
        ensures
            gender == standard_genders().detect_gender(None, None, lowered(Some(middlename))),
    {
        detect_gender(None, None, Some(middlename))
    }
}

} // verus!
