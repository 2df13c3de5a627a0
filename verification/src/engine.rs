//! The navigation engine: a pure function from `(current step, action,
//! submitted value, accumulated state)` to `(next step, updated state,
//! storage effect)`.
//!
//! The states of the machine are the step indices `1..=5`; an out-of-range
//! step reference is clamped into that range before the transition table is
//! applied. Validation is enforced strictly on the forward path: `back`
//! never re-validates, so a user can always retreat, and `cancel` and the
//! terminal `submit` on the review step are the only transitions that clear
//! storage. An invalid submitted value is expected user input, not a fault:
//! the engine keeps the user on the current step and touches nothing.

use vstd::prelude::*;
use crate::clamp_step;
use crate::date::spec_valid_date;
use crate::spec_clamp_step;
use crate::state::{empty_state, view_opt_string, StateModel, WizardState};
use crate::steps::{
    spec_valid_color, spec_valid_name, spec_valid_number, valid_color, valid_name, valid_number,
    valid_step_date,
};
use crate::text::{spec_trim, trim};

verus! {

/// The user's declared intent for one request.
#[derive(Clone, Copy, PartialEq, Eq, Structural, Debug)]
pub enum Action {
    Next,
    Back,
    Cancel,
    Submit,
}

/// The engine's instruction to the persistence layer.
#[derive(Clone, Copy, PartialEq, Eq, Structural, Debug)]
pub enum StorageEffect {
    /// Store the updated state under the session's key.
    Persist,
    /// Remove the stored state; the wizard is cancelled or finished.
    Clear,
    /// Leave storage exactly as it is.
    Keep,
}

/// The value submitted with one request: at most one field is filled, the
/// one owned by the current step.
#[derive(Clone, Debug)]
pub struct Submission {
    pub name: Option<String>,
    pub number: Option<u32>,
    pub color: Option<String>,
    pub date: Option<String>,
}

/// The mathematical model of a submission.
pub ghost struct SubmissionModel {
    pub name: Option<Seq<char>>,
    pub number: Option<u32>,
    pub color: Option<Seq<char>>,
    pub date: Option<Seq<char>>,
}

impl View for Submission {
    type V = SubmissionModel;

    open spec fn view(&self) -> SubmissionModel {
        SubmissionModel {
            name: view_opt_string(self.name),
            number: self.number,
            color: view_opt_string(self.color),
            date: view_opt_string(self.date),
        }
    }
}

impl Submission {
    /// A submission carrying no value at all, as the review step and the
    /// backward and cancel paths send it.
    pub fn none() -> (r: Submission)
        ensures
            r@ == empty_submission(),
    {
        Submission { name: None, number: None, color: None, date: None }
    }
}

/// The model of a submission carrying no value.
pub open spec fn empty_submission() -> SubmissionModel {
    SubmissionModel { name: None, number: None, color: None, date: None }
}

/// What the engine decided for one request.
#[derive(Clone, Debug)]
pub struct NavigationResult {
    /// The step to show next, in `1..=5`.
    pub next_step: u32,
    /// The accumulated state, updated or unchanged.
    pub state: WizardState,
    /// What to do with the stored copy of the state.
    pub storage_effect: StorageEffect,
}

/// The mathematical model of a navigation result.
pub ghost struct NavModel {
    pub next_step: u32,
    pub state: StateModel,
    pub storage_effect: StorageEffect,
}

impl View for NavigationResult {
    type V = NavModel;

    open spec fn view(&self) -> NavModel {
        NavModel {
            next_step: self.next_step,
            state: self.state@,
            storage_effect: self.storage_effect,
        }
    }
}

/// Whether the submitted value passes the validator of the given step. The
/// review step has no field, so nothing can fail there.
pub open spec fn spec_step_valid(step: u32, sub: SubmissionModel) -> bool {
    if step == 1 {
        match sub.name {
            Some(n) => spec_valid_name(n),
            None => false,
        }
    } else if step == 2 {
        match sub.number {
            Some(n) => spec_valid_number(n),
            None => false,
        }
    } else if step == 3 {
        match sub.color {
            Some(c) => spec_valid_color(c),
            None => false,
        }
    } else if step == 4 {
        match sub.date {
            Some(d) => spec_valid_date(d),
            None => false,
        }
    } else {
        true
    }
}

/// The state with the current step's field set from the submitted value
/// (the name is stored trimmed); every other field is untouched.
pub open spec fn spec_apply_step(step: u32, sub: SubmissionModel, st: StateModel) -> StateModel {
    if step == 1 {
        match sub.name {
            Some(n) => StateModel { name: Some(spec_trim(n)), ..st },
            None => st,
        }
    } else if step == 2 {
        match sub.number {
            Some(n) => StateModel { number: Some(n), ..st },
            None => st,
        }
    } else if step == 3 {
        match sub.color {
            Some(c) => StateModel { color: Some(c), ..st },
            None => st,
        }
    } else if step == 4 {
        match sub.date {
            Some(d) => StateModel { date: Some(d), ..st },
            None => st,
        }
    } else {
        st
    }
}

/// The transition table of the wizard, over models. The step is clamped
/// into `1..=5` first. `cancel` resets to the first step and clears
/// storage from anywhere. `back` retreats one step (staying at the first)
/// without validating or touching anything. `submit` on the review step
/// finishes: storage is cleared and the machine resets to the first step
/// (the transport sends the user to its post-wizard destination). Any other
/// forward request (`next` anywhere, `submit` before the review step) is
/// gated by the step's validator: a passing value is written into the
/// state, which is persisted, and the machine advances (the review step,
/// owning no field, persists unchanged and stays); a failing or absent
/// value changes nothing and repeats the step.
pub open spec fn spec_navigate(
    current_step: u32,
    action: Action,
    sub: SubmissionModel,
    st: StateModel,
) -> NavModel {
    let step = spec_clamp_step(current_step);
    match action {
        Action::Cancel => NavModel { next_step: 1, state: st, storage_effect: StorageEffect::Clear },
        Action::Back => NavModel {
            next_step: if step > 1 {
                (step - 1) as u32
            } else {
                1
            },
            state: st,
            storage_effect: StorageEffect::Keep,
        },
        _ => {
            if action == Action::Submit && step == 5 {
                NavModel { next_step: 1, state: st, storage_effect: StorageEffect::Clear }
            } else if spec_step_valid(step, sub) {
                NavModel {
                    next_step: if step < 5 {
                        (step + 1) as u32
                    } else {
                        5
                    },
                    state: spec_apply_step(step, sub, st),
                    storage_effect: StorageEffect::Persist,
                }
            } else {
                NavModel { next_step: step, state: st, storage_effect: StorageEffect::Keep }
            }
        },
    }
}

/// The state a session holds: the stored record, or the empty record when
/// nothing is stored (or what was stored could not be read back).
pub open spec fn spec_load(stored: Option<StateModel>) -> StateModel {
    match stored {
        Some(m) => m,
        None => empty_state(),
    }
}

/// What the store holds after the engine's instruction is carried out.
pub open spec fn spec_apply_effect(
    effect: StorageEffect,
    state: StateModel,
    stored: Option<StateModel>,
) -> Option<StateModel> {
    match effect {
        StorageEffect::Persist => Some(state),
        StorageEffect::Clear => None,
        StorageEffect::Keep => stored,
    }
}

/// Check the submitted value against the validator of the given step.
pub fn validate_step(step: u32, sub: &Submission) -> (r: bool)
    requires
        1 <= step <= 5,
    ensures
        r == spec_step_valid(step, sub@),
{
    if step == 1 {
        match &sub.name {
            Some(n) => valid_name(n.as_str()),
            None => false,
        }
    } else if step == 2 {
        match sub.number {
            Some(n) => valid_number(n),
            None => false,
        }
    } else if step == 3 {
        match &sub.color {
            Some(c) => valid_color(c.as_str()),
            None => false,
        }
    } else if step == 4 {
        match &sub.date {
            Some(d) => valid_step_date(d.as_str()),
            None => false,
        }
    } else {
        true
    }
}

/// Write the submitted value into the field owned by the given step,
/// leaving every other field as it was.
fn apply_step(step: u32, sub: &Submission, st: &WizardState) -> (r: WizardState)
    requires
        1 <= step <= 5,
    ensures
        r@ == spec_apply_step(step, sub@, st@),
{
    let mut out = st.duplicate();
    if step == 1 {
        match &sub.name {
            Some(n) => {
                out.name = Some(String::from_str(trim(n.as_str())));
            },
            None => {},
        }
    } else if step == 2 {
        match sub.number {
            Some(n) => {
                out.number = Some(n);
            },
            None => {},
        }
    } else if step == 3 {
        match &sub.color {
            Some(c) => {
                out.color = Some(c.clone());
            },
            None => {},
        }
    } else if step == 4 {
        match &sub.date {
            Some(d) => {
                out.date = Some(d.clone());
            },
            None => {},
        }
    }
    out
}

/// Decide one request: apply the transition table to the (clamped) current
/// step, the action, the submitted value and the accumulated state.
pub fn navigate(current_step: u32, action: Action, sub: &Submission, state: &WizardState) -> (r:
    NavigationResult)
    ensures
        r@ == spec_navigate(current_step, action, sub@, state@),
        1 <= r.next_step <= 5,
{
    let step = clamp_step(current_step);
    match action {
        Action::Cancel => NavigationResult {
            next_step: 1,
            state: state.duplicate(),
            storage_effect: StorageEffect::Clear,
        },
        Action::Back => NavigationResult {
            next_step: if step > 1 {
                step - 1
            } else {
                1
            },
            state: state.duplicate(),
            storage_effect: StorageEffect::Keep,
        },
        _ => {
            if action == Action::Submit && step == 5 {
                NavigationResult {
                    next_step: 1,
                    state: state.duplicate(),
                    storage_effect: StorageEffect::Clear,
                }
            } else if validate_step(step, sub) {
                NavigationResult {
                    next_step: if step < 5 {
                        step + 1
                    } else {
                        5
                    },
                    state: apply_step(step, sub, state),
                    storage_effect: StorageEffect::Persist,
                }
            } else {
                NavigationResult {
                    next_step: step,
                    state: state.duplicate(),
                    storage_effect: StorageEffect::Keep,
                }
            }
        },
    }
}

} // verus!
