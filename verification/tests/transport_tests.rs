use wizard_engine::clamp_step;
use wizard_engine::engine::{Action, StorageEffect};
use wizard_engine::state::WizardState;
use wizard_engine::transport::{
    handle_post, is_terminal_submit, parse_action, read_view, WizardForm, WizardQuery,
};

fn form(action: &str) -> WizardForm {
    WizardForm { action: action.to_string(), name: None, number: None, color: None, date: None }
}

#[test]
fn actions_parse_case_insensitively() {
    assert_eq!(parse_action("cancel"), Action::Cancel);
    assert_eq!(parse_action("CANCEL"), Action::Cancel);
    assert_eq!(parse_action("Back"), Action::Back);
    assert_eq!(parse_action("SUBMIT"), Action::Submit);
    assert_eq!(parse_action("next"), Action::Next);
    assert_eq!(parse_action("NeXt"), Action::Next);
    // anything unrecognised takes the forward path
    assert_eq!(parse_action("confirm"), Action::Next);
    assert_eq!(parse_action(""), Action::Next);
}

#[test]
fn step_clamping() {
    assert_eq!(clamp_step(0), 1);
    assert_eq!(clamp_step(1), 1);
    assert_eq!(clamp_step(3), 3);
    assert_eq!(clamp_step(5), 5);
    assert_eq!(clamp_step(6), 5);
    assert_eq!(clamp_step(u32::MAX), 5);
}

#[test]
fn read_request_defaults_and_clamps() {
    let v = read_view(&WizardQuery { step: None }, None);
    assert_eq!(v.step, 1);
    assert_eq!(v.state.name, None);

    let mut st = WizardState::empty();
    st.name = Some("Ada".to_string());
    let v = read_view(&WizardQuery { step: Some(9) }, Some(st));
    assert_eq!(v.step, 5);
    assert_eq!(v.state.name, Some("Ada".to_string()));
}

#[test]
fn post_request_runs_the_engine() {
    let mut f = form("next");
    f.name = Some(" Ada ".to_string());
    let r = handle_post(&WizardQuery { step: Some(1) }, &f, None);
    assert_eq!(r.next_step, 2);
    assert_eq!(r.storage_effect, StorageEffect::Persist);
    assert_eq!(r.state.name, Some("Ada".to_string()));
}

#[test]
fn post_request_with_missing_state_starts_empty() {
    let r = handle_post(&WizardQuery { step: None }, &form("back"), None);
    assert_eq!(r.next_step, 1);
    assert_eq!(r.storage_effect, StorageEffect::Keep);
    assert_eq!(r.state.name, None);
}

#[test]
fn post_request_cancel_clears() {
    let mut st = WizardState::empty();
    st.number = Some(3);
    let r = handle_post(&WizardQuery { step: Some(4) }, &form("CANCEL"), Some(st));
    assert_eq!(r.next_step, 1);
    assert_eq!(r.storage_effect, StorageEffect::Clear);
}

#[test]
fn terminal_submit_detection() {
    assert!(is_terminal_submit(5, Action::Submit));
    assert!(is_terminal_submit(99, Action::Submit)); // clamps to the review step
    assert!(!is_terminal_submit(4, Action::Submit));
    assert!(!is_terminal_submit(5, Action::Next));
    assert!(!is_terminal_submit(5, Action::Cancel));
}

#[test]
fn form_decodes_action_and_fields() {
    let mut f = form("SUBMIT");
    f.number = Some(7);
    assert_eq!(f.action(), Action::Submit);
    let sub = f.submission();
    assert_eq!(sub.number, Some(7));
    assert_eq!(sub.name, None);
}
