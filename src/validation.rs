//! Named check outcomes and the report of a battery.
use vstd::prelude::*;

use crate::section::Section;

verus! {

/// The outcome of one named check.
#[derive(Debug)]
pub struct Validation {
    pub name: String,
    pub value: bool,
    pub description: String,
}

/// The era a battery belongs to and its checks, in the order they ran.
#[derive(Debug)]
pub struct Validations {
    pub era: String,
    pub validations: Vec<Validation>,
}

/// A rendered transaction together with its validation report.
#[derive(Debug)]
pub struct SectionValidation {
    pub section: Section,
    pub validations: Validations,
}

/// Validation `v` has name `name`, value `value` and description `description`.
pub open spec fn validation_is(v: Validation, name: Seq<char>, value: bool, description: Seq<char>) -> bool {
    v.name@ == name && v.value == value && v.description@ == description
}

/// The names of a list of validations, in order.
pub open spec fn names_of(s: Seq<Validation>) -> Seq<Seq<char>> {
    s.map_values(|v: Validation| v.name@)
}

/// The description of a check's outcome: the rule statement on success, the
/// violation on failure.
pub open spec fn description_of(res: Result<(), String>, success: Seq<char>) -> Seq<char> {
    match res {
        Ok(_) => success,
        Err(e) => "Error: "@ + e@,
    }
}

/// Describes a check's outcome: `success` if it passed, else the violation
/// after an "Error: " prefix.
pub fn set_description(res: &Result<(), String>, success: String) -> (r: String)
    ensures
        r@ == description_of(*res, success@),
{
    match res {
        Ok(_) => success,
        Err(e) => {
            let prefix = String::from_str("Error: ");
            prefix.concat(e.as_str())
        },
    }
}

impl Validation {
    /// A check with an empty name and description and a false value.
    pub fn new() -> (r: Validation)
        ensures
            r.name@.len() == 0,
            !r.value,
            r.description@.len() == 0,
    {
        Validation { name: String::new(), value: false, description: String::new() }
    }

    /// Sets the description.
    pub fn with_description(self, description: String) -> (r: Validation)
        ensures
            r.description@ == description@,
            r.name == self.name,
            r.value == self.value,
    {
        Validation { description, ..self }
    }

    /// Sets the value.
    pub fn with_value(self, value: bool) -> (r: Validation)
        ensures
            r.value == value,
            r.name == self.name,
            r.description == self.description,
    {
        Validation { value, ..self }
    }

    /// Sets the name.
    pub fn with_name(self, name: String) -> (r: Validation)
        ensures
            r.name@ == name@,
            r.value == self.value,
            r.description == self.description,
    {
        Validation { name, ..self }
    }
}

impl Validations {
    /// An empty report with no era.
    pub fn new() -> (r: Validations)
        ensures
            r.era@.len() == 0,
            r.validations@.len() == 0,
    {
        Validations { era: String::new(), validations: Vec::new() }
    }

    /// Sets the era tag.
    pub fn with_era(self, era: String) -> (r: Validations)
        ensures
            r.era@ == era@,
            r.validations@ == self.validations@,
    {
        Validations { era, ..self }
    }

    /// Appends a check's outcome after those already recorded.
    pub fn add_new_validation(self, validation: Validation) -> (r: Validations)
        ensures
            r.era == self.era,
            r.validations@ == self.validations@.push(validation),
    {
        let mut s = self;
        s.validations.push(validation);
        s
    }
}

} // verus!
