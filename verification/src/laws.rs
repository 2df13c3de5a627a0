//! The laws of the navigation engine, stated and proved once over the
//! transition table, so that both transport adapters inherit them.

use vstd::prelude::*;
use crate::date::spec_valid_date;
use crate::engine::{
    empty_submission, spec_apply_effect, spec_load, spec_navigate, spec_step_valid, Action,
    StorageEffect, SubmissionModel,
};
use crate::state::StateModel;
use crate::steps::{spec_valid_color, spec_valid_name, spec_valid_number};
use crate::text::spec_trim;

verus! {

/// A failing forward submission is rejected locally: on any of the four
/// field-owning steps, a value that fails the step's validator leaves the
/// next step equal to the current step, the state untouched, and storage
/// untouched.
pub proof fn lemma_invalid_submission_rejected(
    step: u32,
    action: Action,
    sub: SubmissionModel,
    st: StateModel,
)
    requires
        1 <= step <= 4,
        action == Action::Next || action == Action::Submit,
        !spec_step_valid(step, sub),
    ensures
        spec_navigate(step, action, sub, st).next_step == step,
        spec_navigate(step, action, sub, st).state == st,
        spec_navigate(step, action, sub, st).storage_effect == StorageEffect::Keep,
{
}

/// Going back never validates and never mutates: from any of the steps
/// `2..=5` it retreats exactly one step, and from the first step it stays
/// there; either way the state and storage are untouched.
pub proof fn lemma_back_preserves_state(step: u32, sub: SubmissionModel, st: StateModel)
    requires
        1 <= step <= 5,
    ensures
        spec_navigate(step, Action::Back, sub, st).next_step == if step > 1 {
            (step - 1) as u32
        } else {
            1
        },
        spec_navigate(step, Action::Back, sub, st).state == st,
        spec_navigate(step, Action::Back, sub, st).storage_effect == StorageEffect::Keep,
{
}

/// Cancelling is always safe: from any step, with any prior state and any
/// submitted value, it clears storage and resets to the first step without
/// touching the state value itself.
pub proof fn lemma_cancel_clears(step: u32, sub: SubmissionModel, st: StateModel)
    requires
        1 <= step <= 5,
    ensures
        spec_navigate(step, Action::Cancel, sub, st).next_step == 1,
        spec_navigate(step, Action::Cancel, sub, st).state == st,
        spec_navigate(step, Action::Cancel, sub, st).storage_effect == StorageEffect::Clear,
{
}

/// Cancelling is idempotent: cancelling a second time, on the store the
/// first cancel left behind, lands on the same step, issues the same
/// effect, and leaves the store in the same (empty) condition.
pub proof fn lemma_cancel_idempotent(
    step: u32,
    sub1: SubmissionModel,
    sub2: SubmissionModel,
    stored: Option<StateModel>,
)
    ensures
        ({
            let r1 = spec_navigate(step, Action::Cancel, sub1, spec_load(stored));
            let stored1 = spec_apply_effect(r1.storage_effect, r1.state, stored);
            let r2 = spec_navigate(r1.next_step, Action::Cancel, sub2, spec_load(stored1));
            let stored2 = spec_apply_effect(r2.storage_effect, r2.state, stored1);
            &&& stored1 is None
            &&& stored2 is None
            &&& r2.next_step == r1.next_step
            &&& r2.storage_effect == r1.storage_effect
        }),
{
}

/// The round trip: submitting valid values for the four field-owning steps
/// in order, then submitting on the review step, visits the steps
/// `2, 3, 4, 5`, persists after each field, and finishes with a `Clear`
/// whose state holds exactly the four submitted values (the name trimmed).
pub proof fn lemma_complete_run(
    name: Seq<char>,
    number: u32,
    color: Seq<char>,
    date: Seq<char>,
    st0: StateModel,
)
    requires
        spec_valid_name(name),
        spec_valid_number(number),
        spec_valid_color(color),
        spec_valid_date(date),
    ensures
        ({
            let sub1 = SubmissionModel { name: Some(name), ..empty_submission() };
            let sub2 = SubmissionModel { number: Some(number), ..empty_submission() };
            let sub3 = SubmissionModel { color: Some(color), ..empty_submission() };
            let sub4 = SubmissionModel { date: Some(date), ..empty_submission() };
            let r1 = spec_navigate(1, Action::Next, sub1, st0);
            let r2 = spec_navigate(r1.next_step, Action::Next, sub2, r1.state);
            let r3 = spec_navigate(r2.next_step, Action::Next, sub3, r2.state);
            let r4 = spec_navigate(r3.next_step, Action::Next, sub4, r3.state);
            let r5 = spec_navigate(r4.next_step, Action::Submit, empty_submission(), r4.state);
            &&& r1.next_step == 2 && r1.storage_effect == StorageEffect::Persist
            &&& r2.next_step == 3 && r2.storage_effect == StorageEffect::Persist
            &&& r3.next_step == 4 && r3.storage_effect == StorageEffect::Persist
            &&& r4.next_step == 5 && r4.storage_effect == StorageEffect::Persist
            &&& r5.storage_effect == StorageEffect::Clear
            &&& r5.state == (StateModel {
                name: Some(spec_trim(name)),
                number: Some(number),
                color: Some(color),
                date: Some(date),
            })
        }),
{
}

} // verus!
