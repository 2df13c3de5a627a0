//! The accumulated wizard answers: one optional field per step. A field is
//! populated only once its owning step has been completed; a session with no
//! stored record is treated as holding the empty record.

use vstd::prelude::*;
use crate::text::spec_decimal;

verus! {

/// The mathematical model of a wizard state: each field as an optional
/// character sequence or number.
pub ghost struct StateModel {
    pub name: Option<Seq<char>>,
    pub number: Option<u32>,
    pub color: Option<Seq<char>>,
    pub date: Option<Seq<char>>,
}

/// The view of an optional owned string.
pub open spec fn view_opt_string(o: Option<String>) -> Option<Seq<char>> {
    match o {
        Some(s) => Some(s@),
        None => None,
    }
}

/// The model of the record with no answer yet.
pub open spec fn empty_state() -> StateModel {
    StateModel { name: None, number: None, color: None, date: None }
}

/// The accumulated, partially-filled answer record for one in-progress
/// wizard session.
#[derive(Clone, Debug)]
pub struct WizardState {
    pub name: Option<String>,
    pub number: Option<u32>,
    pub color: Option<String>,
    pub date: Option<String>,
}

impl View for WizardState {
    type V = StateModel;

    open spec fn view(&self) -> StateModel {
        StateModel {
            name: view_opt_string(self.name),
            number: self.number,
            color: view_opt_string(self.color),
            date: view_opt_string(self.date),
        }
    }
}

/// Copy an optional string, field for field.
fn clone_opt_string(o: &Option<String>) -> (r: Option<String>)
    ensures
        view_opt_string(r) == view_opt_string(*o),
{
    match o {
        Some(s) => Some(s.clone()),
        None => None,
    }
}

impl WizardState {
    /// The record with no answer yet.
    pub fn empty() -> (r: WizardState)
        ensures
            r@ == empty_state(),
    {
        WizardState { name: None, number: None, color: None, date: None }
    }

    /// An exact copy, with the same model.
    pub fn duplicate(&self) -> (r: WizardState)
        ensures
            r@ == self@,
    {
        WizardState {
            name: clone_opt_string(&self.name),
            number: self.number,
            color: clone_opt_string(&self.color),
            date: clone_opt_string(&self.date),
        }
    }

    /// Whether every step's field has been filled in.
    pub fn is_complete(&self) -> (r: bool)
        ensures
            r == spec_complete(self@),
    {
        self.name.is_some() && self.number.is_some() && self.color.is_some()
            && self.date.is_some()
    }

    /// A one-record textual rendering of the state, with `<none>` standing
    /// for a field not yet filled in.
    pub fn describe(&self) -> (r: String)
        ensures
            r@ == spec_describe(self@),
    {
        let mut out = String::from_str("WizardState {\n  name: ");
        match &self.name {
            Some(s) => out.append(s.as_str()),
            None => out.append("<none>"),
        }
        out.append(",\n  number: ");
        match self.number {
            Some(n) => {
                let d = crate::text::u64_to_decimal(n as u64);
                out.append(d.as_str());
            },
            None => out.append("<none>"),
        }
        out.append(",\n  color: ");
        match &self.color {
            Some(s) => out.append(s.as_str()),
            None => out.append("<none>"),
        }
        out.append(",\n  date: ");
        match &self.date {
            Some(s) => out.append(s.as_str()),
            None => out.append("<none>"),
        }
        out.append("\n}");
        proof {
            assert(out@ =~= spec_describe(self@));
        }
        out
    }
}

impl Default for WizardState {
    /// The record with no answer yet.
    fn default() -> (r: Self)
        ensures
            r@ == empty_state(),
    {
        WizardState::empty()
    }
}

/// Whether every step's field has been filled in.
pub open spec fn spec_complete(m: StateModel) -> bool {
    m.name is Some && m.number is Some && m.color is Some && m.date is Some
}

/// The text shown for an optional string field: its content, or `<none>`.
pub open spec fn opt_field_text(o: Option<Seq<char>>) -> Seq<char> {
    match o {
        Some(s) => s,
        None => "<none>"@,
    }
}

/// The text shown for the optional number field: its decimal rendering, or
/// `<none>`.
pub open spec fn opt_number_text(o: Option<u32>) -> Seq<char> {
    match o {
        Some(n) => spec_decimal(n as int),
        None => "<none>"@,
    }
}

/// The textual rendering produced by [`WizardState::describe`].
pub open spec fn spec_describe(m: StateModel) -> Seq<char> {
    "WizardState {\n  name: "@ + opt_field_text(m.name) + ",\n  number: "@ + opt_number_text(
        m.number,
    ) + ",\n  color: "@ + opt_field_text(m.color) + ",\n  date: "@ + opt_field_text(m.date)
        + "\n}"@
}

} // verus!
