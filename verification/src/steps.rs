//! The step registry: the ordered, fixed catalog of wizard steps. Each of the
//! first four steps owns exactly one field and its validation rule; the fifth
//! step is the review screen and owns no field.

use vstd::prelude::*;
use crate::date::{spec_valid_date, valid_date};
use crate::text::{spec_trim, trim};

verus! {

/// The field a step owns.
#[derive(Clone, Copy, PartialEq, Eq, Structural, Debug)]
pub enum StepField {
    Name,
    Number,
    Color,
    Date,
}

/// The static description of one wizard step: its index and the field it
/// owns (`None` for the review step).
#[derive(Clone, Copy, PartialEq, Eq, Debug)]
pub struct StepDefinition {
    pub index: u32,
    pub field: Option<StepField>,
}

/// The field owned by the step with the given index.
pub open spec fn spec_step_field(step: u32) -> Option<StepField> {
    if step == 1 {
        Some(StepField::Name)
    } else if step == 2 {
        Some(StepField::Number)
    } else if step == 3 {
        Some(StepField::Color)
    } else if step == 4 {
        Some(StepField::Date)
    } else {
        None
    }
}

/// Answer a registry query for the step with the given index. The registry
/// only answers queries for `1..=5`; callers clamp out-of-range indices
/// before asking.
pub fn step_definition(step: u32) -> (r: StepDefinition)
    requires
        1 <= step <= 5,
    ensures
        r.index == step,
        r.field == spec_step_field(step),
{
    let field = if step == 1 {
        Some(StepField::Name)
    } else if step == 2 {
        Some(StepField::Number)
    } else if step == 3 {
        Some(StepField::Color)
    } else if step == 4 {
        Some(StepField::Date)
    } else {
        None
    };
    StepDefinition { index: step, field }
}

/// A submitted name is valid when something is left after trimming
/// whitespace; the trimmed text is what gets stored.
pub open spec fn spec_valid_name(s: Seq<char>) -> bool {
    spec_trim(s).len() > 0
}

/// A submitted number is valid when it lies in `1..=10`.
pub open spec fn spec_valid_number(n: u32) -> bool {
    1 <= n <= 10
}

/// A submitted color is valid when it is a member of the fixed palette.
pub open spec fn spec_valid_color(s: Seq<char>) -> bool {
    ||| s == "red"@
    ||| s == "orange"@
    ||| s == "yellow"@
    ||| s == "green"@
    ||| s == "blue"@
    ||| s == "indigo"@
    ||| s == "violet"@
}

/// Check that a submitted name is non-empty once trimmed.
pub fn valid_name(s: &str) -> (r: bool)
    ensures
        r == spec_valid_name(s@),
{
    !trim(s).is_empty()
}

/// Check that a submitted number lies in `1..=10`.
pub fn valid_number(n: u32) -> (r: bool)
    ensures
        r == spec_valid_number(n),
{
    1 <= n && n <= 10
}

/// Check that a submitted color is a member of the palette.
pub fn valid_color(s: &str) -> (r: bool)
    ensures
        r == spec_valid_color(s@),
{
    if crate::text::str_eq(s, "red") {
        true
    } else if crate::text::str_eq(s, "orange") {
        true
    } else if crate::text::str_eq(s, "yellow") {
        true
    } else if crate::text::str_eq(s, "green") {
        true
    } else if crate::text::str_eq(s, "blue") {
        true
    } else if crate::text::str_eq(s, "indigo") {
        true
    } else {
        crate::text::str_eq(s, "violet")
    }
}

/// Check that a submitted date is a well-formed ISO calendar date.
pub fn valid_step_date(s: &str) -> (r: bool)
    ensures
        r == spec_valid_date(s@),
{
    valid_date(s)
}

/// The members of the color palette, in the order the color step offers them.
pub fn color_palette() -> (r: Vec<&'static str>)
    ensures
        r@.len() == 7,
        r@[0]@ == "red"@,
        r@[1]@ == "orange"@,
        r@[2]@ == "yellow"@,
        r@[3]@ == "green"@,
        r@[4]@ == "blue"@,
        r@[5]@ == "indigo"@,
        r@[6]@ == "violet"@,
        forall|i: int| 0 <= i < 7 ==> spec_valid_color(r@[i]@),
{
    let mut v: Vec<&'static str> = Vec::new();
    v.push("red");
    v.push("orange");
    v.push("yellow");
    v.push("green");
    v.push("blue");
    v.push("indigo");
    v.push("violet");
    v
}

} // verus!
