//! The client-held adapter: one in-process wizard instance whose "session
//! store" is a local field and whose "requests" are method calls. Every
//! dispatcher runs the very same engine as the server-rendered adapter, so
//! the two cannot diverge in observable behaviour.

use vstd::prelude::*;
use crate::engine::{
    navigate, spec_apply_effect, spec_load, spec_navigate, Action, NavigationResult, StorageEffect,
    Submission,
};
use crate::state::{StateModel, WizardState};
use crate::transport::{load_state, view_opt_state};

verus! {

/// One active wizard instance: the step being shown and the locally stored
/// answer record (`None` once cancelled or finished, or before any answer
/// was persisted).
#[derive(Clone, Debug)]
pub struct Wizard {
    step: u32,
    stored: Option<WizardState>,
}

impl View for Wizard {
    type V = WizardModel;

    closed spec fn view(&self) -> WizardModel {
        WizardModel { step: self.step, stored: view_opt_state(self.stored) }
    }
}

/// The mathematical model of a wizard instance.
pub ghost struct WizardModel {
    pub step: u32,
    pub stored: Option<StateModel>,
}

/// The instance is showing a real step.
pub open spec fn wizard_wf(m: WizardModel) -> bool {
    1 <= m.step <= 5
}

/// The model after one action is dispatched: the engine decides, the next
/// step is adopted, and the storage effect is applied to the local store.
pub open spec fn spec_dispatch(m: WizardModel, action: Action, sub: crate::engine::SubmissionModel)
    -> WizardModel {
    let r = spec_navigate(m.step, action, sub, spec_load(m.stored));
    WizardModel { step: r.next_step, stored: spec_apply_effect(r.storage_effect, r.state, m.stored) }
}

impl Wizard {
    /// A fresh instance: at the first step, with nothing stored.
    pub fn new() -> (r: Wizard)
        ensures
            r@.step == 1,
            r@.stored is None,
            wizard_wf(r@),
    {
        Wizard { step: 1, stored: None }
    }

    /// The step currently shown.
    pub fn current_step(&self) -> (r: u32)
        ensures
            r == self@.step,
    {
        self.step
    }

    /// The accumulated answers: the stored record, or the empty record when
    /// nothing is stored.
    pub fn state(&self) -> (r: WizardState)
        ensures
            r@ == spec_load(self@.stored),
    {
        match &self.stored {
            Some(st) => st.duplicate(),
            None => WizardState::empty(),
        }
    }

    /// Dispatch one action with its submitted value: run the engine, adopt
    /// the step it chose, and carry out its storage effect on the local
    /// store.
    pub fn dispatch(&mut self, action: Action, sub: &Submission) -> (r: NavigationResult)
        requires
            wizard_wf(old(self)@),
        ensures
            r@ == spec_navigate(old(self)@.step, action, sub@, spec_load(old(self)@.stored)),
            final(self)@ == spec_dispatch(old(self)@, action, sub@),
            wizard_wf(final(self)@),
    {
        let state = load_state(clone_stored(&self.stored));
        let r = navigate(self.step, action, sub, &state);
        self.step = r.next_step;
        match r.storage_effect {
            StorageEffect::Persist => {
                self.stored = Some(r.state.duplicate());
            },
            StorageEffect::Clear => {
                self.stored = None;
            },
            StorageEffect::Keep => {},
        }
        r
    }

    /// Try to move forward with the given submitted value.
    pub fn go_next(&mut self, sub: &Submission) -> (r: NavigationResult)
        requires
            wizard_wf(old(self)@),
        ensures
            r@ == spec_navigate(old(self)@.step, Action::Next, sub@, spec_load(old(self)@.stored)),
            final(self)@ == spec_dispatch(old(self)@, Action::Next, sub@),
            wizard_wf(final(self)@),
    {
        self.dispatch(Action::Next, sub)
    }

    /// Move back one step (staying at the first), touching nothing.
    pub fn go_back(&mut self) -> (r: NavigationResult)
        requires
            wizard_wf(old(self)@),
        ensures
            r@ == spec_navigate(
                old(self)@.step,
                Action::Back,
                crate::engine::empty_submission(),
                spec_load(old(self)@.stored),
            ),
            final(self)@ == spec_dispatch(
                old(self)@,
                Action::Back,
                crate::engine::empty_submission(),
            ),
            wizard_wf(final(self)@),
    {
        let sub = Submission::none();
        self.dispatch(Action::Back, &sub)
    }

    /// Abandon the wizard: clear the store and return to the first step.
    pub fn cancel(&mut self) -> (r: NavigationResult)
        requires
            wizard_wf(old(self)@),
        ensures
            r@ == spec_navigate(
                old(self)@.step,
                Action::Cancel,
                crate::engine::empty_submission(),
                spec_load(old(self)@.stored),
            ),
            final(self)@ == spec_dispatch(
                old(self)@,
                Action::Cancel,
                crate::engine::empty_submission(),
            ),
            final(self)@.stored is None,
            wizard_wf(final(self)@),
    {
        let sub = Submission::none();
        self.dispatch(Action::Cancel, &sub)
    }

    /// Submit the current step with no value: on the review step this
    /// finishes the wizard and clears the store; on a field-owning step the
    /// absent value fails validation and nothing changes.
    pub fn submit(&mut self) -> (r: NavigationResult)
        requires
            wizard_wf(old(self)@),
        ensures
            r@ == spec_navigate(
                old(self)@.step,
                Action::Submit,
                crate::engine::empty_submission(),
                spec_load(old(self)@.stored),
            ),
            final(self)@ == spec_dispatch(
                old(self)@,
                Action::Submit,
                crate::engine::empty_submission(),
            ),
            wizard_wf(final(self)@),
    {
        let sub = Submission::none();
        self.dispatch(Action::Submit, &sub)
    }
}

/// Copy an optional stored record, keeping its model.
fn clone_stored(o: &Option<WizardState>) -> (r: Option<WizardState>)
    ensures
        view_opt_state(r) == view_opt_state(*o),
{
    match o {
        Some(st) => Some(st.duplicate()),
        None => None,
    }
}

} // verus!
