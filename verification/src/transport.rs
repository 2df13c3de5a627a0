//! The pure half of the server-rendered transport adapter: decoding the
//! request's step, action and field value, loading a default when nothing is
//! stored, and dispatching to the engine. The adapter performs no validation
//! of its own — that is the engine's responsibility — and no business logic
//! beyond decode and dispatch; the I/O around it (session store, redirects,
//! rendering) stays outside the verified library.

use vstd::prelude::*;
use crate::clamp_step;
use crate::engine::{navigate, spec_load, spec_navigate, Action, NavigationResult, Submission,
    SubmissionModel};
use crate::spec_clamp_step;
use crate::state::{view_opt_string, StateModel, WizardState};
use crate::text::{eq_ignore_ascii_case, str_eq_ci};

verus! {

/// The query string that tells the handlers which step the request is about.
#[derive(Clone, Copy, Debug)]
pub struct WizardQuery {
    /// The requested step, `1..=5`; absent defaults to the first step and
    /// out-of-range values are clamped.
    pub step: Option<u32>,
}

/// The form payload of a wizard request. Only the field owned by the
/// current step is expected to be filled; every field is optional so one
/// shape serves every step.
#[derive(Clone, Debug)]
pub struct WizardForm {
    /// The user's declared intent: `next`, `back`, `cancel` or `submit`,
    /// case-insensitive.
    pub action: String,
    pub name: Option<String>,
    pub number: Option<u32>,
    pub color: Option<String>,
    pub date: Option<String>,
}

/// The mathematical model of a form payload.
pub ghost struct FormModel {
    pub action: Seq<char>,
    pub name: Option<Seq<char>>,
    pub number: Option<u32>,
    pub color: Option<Seq<char>>,
    pub date: Option<Seq<char>>,
}

impl View for WizardForm {
    type V = FormModel;

    open spec fn view(&self) -> FormModel {
        FormModel {
            action: self.action@,
            name: view_opt_string(self.name),
            number: self.number,
            color: view_opt_string(self.color),
            date: view_opt_string(self.date),
        }
    }
}

/// The action a request text names, compared up to ASCII case. Anything
/// that is not `cancel`, `back` or `submit` takes the forward path, exactly
/// as an explicit `next` does.
pub open spec fn spec_action_of(s: Seq<char>) -> Action {
    if str_eq_ci(s, "cancel"@) {
        Action::Cancel
    } else if str_eq_ci(s, "back"@) {
        Action::Back
    } else if str_eq_ci(s, "submit"@) {
        Action::Submit
    } else {
        Action::Next
    }
}

/// The submitted field value a form carries.
pub open spec fn spec_form_fields(f: FormModel) -> SubmissionModel {
    SubmissionModel { name: f.name, number: f.number, color: f.color, date: f.date }
}

/// The step a query names: absent defaults to the first step, out-of-range
/// clamps into `1..=5`.
pub open spec fn spec_query_step(q: WizardQuery) -> u32 {
    spec_clamp_step(
        match q.step {
            Some(s) => s,
            None => 1,
        },
    )
}

/// The model held in an optional stored state.
pub open spec fn view_opt_state(o: Option<WizardState>) -> Option<StateModel> {
    match o {
        Some(st) => Some(st@),
        None => None,
    }
}

/// Decode a request's action text, case-insensitively.
pub fn parse_action(s: &str) -> (r: Action)
    ensures
        r == spec_action_of(s@),
{
    if eq_ignore_ascii_case(s, "cancel") {
        Action::Cancel
    } else if eq_ignore_ascii_case(s, "back") {
        Action::Back
    } else if eq_ignore_ascii_case(s, "submit") {
        Action::Submit
    } else {
        Action::Next
    }
}

impl WizardForm {
    /// The action this form declares.
    pub fn action(&self) -> (r: Action)
        ensures
            r == spec_action_of(self@.action),
    {
        parse_action(self.action.as_str())
    }

    /// The submitted field value this form carries.
    pub fn submission(&self) -> (r: Submission)
        ensures
            r@ == spec_form_fields(self@),
    {
        Submission {
            name: clone_opt(&self.name),
            number: self.number,
            color: clone_opt(&self.color),
            date: clone_opt(&self.date),
        }
    }
}

/// Copy an optional string, field for field.
fn clone_opt(o: &Option<String>) -> (r: Option<String>)
    ensures
        view_opt_string(r) == view_opt_string(*o),
{
    match o {
        Some(s) => Some(s.clone()),
        None => None,
    }
}

/// The step a query names, decoded.
pub fn query_step(query: &WizardQuery) -> (r: u32)
    ensures
        r == spec_query_step(*query),
        1 <= r <= 5,
{
    clamp_step(
        match query.step {
            Some(s) => s,
            None => 1,
        },
    )
}

/// The state a session holds: the stored record, or the empty record when
/// nothing is stored.
pub fn load_state(stored: Option<WizardState>) -> (r: WizardState)
    ensures
        r@ == spec_load(view_opt_state(stored)),
{
    match stored {
        Some(st) => st,
        None => WizardState::empty(),
    }
}

/// The view-model for one render request: which step to show, and the
/// accumulated state to prefill it from.
#[derive(Clone, Debug)]
pub struct StepView {
    pub step: u32,
    pub state: WizardState,
}

/// Decode a render (read) request: the requested step, defaulted and
/// clamped, paired with the stored state, defaulted to empty when absent.
pub fn read_view(query: &WizardQuery, stored: Option<WizardState>) -> (r: StepView)
    ensures
        r.step == spec_query_step(*query),
        1 <= r.step <= 5,
        r.state@ == spec_load(view_opt_state(stored)),
{
    StepView { step: query_step(query), state: load_state(stored) }
}

/// Decode and dispatch a submit (write) request: run the engine on the
/// decoded step, action and field value against the stored state. The
/// caller applies the returned storage effect to its session store and
/// addresses a redirect at the returned step.
pub fn handle_post(query: &WizardQuery, form: &WizardForm, stored: Option<WizardState>) -> (r:
    NavigationResult)
    ensures
        r@ == spec_navigate(
            spec_query_step(*query),
            spec_action_of(form@.action),
            spec_form_fields(form@),
            spec_load(view_opt_state(stored)),
        ),
        1 <= r.next_step <= 5,
{
    let step = query_step(query);
    let action = form.action();
    let sub = form.submission();
    let state = load_state(stored);
    navigate(step, action, &sub, &state)
}

/// Whether a request finishes the wizard: a `submit` on the review step.
/// The transport sends such a request to its fixed post-wizard destination
/// instead of a step.
pub fn is_terminal_submit(current_step: u32, action: Action) -> (r: bool)
    ensures
        r == (spec_clamp_step(current_step) == 5 && action == Action::Submit),
{
    clamp_step(current_step) == 5 && action == Action::Submit
}

} // verus!
