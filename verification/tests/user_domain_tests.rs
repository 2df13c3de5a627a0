use wizard_engine::domain::{domain_info, domain_state_name, sort_listing, DomainInfo, SortColumn};
use wizard_engine::state::WizardState;
use wizard_engine::user::{
    login_decision, login_with_hash, prepare_registration, register_decision, LoginCheck,
    RegisterCheck, RegisterOutcome, User, GUEST_USER_ID,
};

#[test]
fn guest_account_is_anonymous() {
    let g = User::guest();
    assert_eq!(g.id, GUEST_USER_ID);
    assert!(g.is_anonymous());
    assert!(!g.is_active());
    assert!(!g.is_authenticated());
    assert_eq!(g.username, "guest");
}

#[test]
fn stored_account_is_authenticated() {
    let u = User::from_record(42, "ada".to_string());
    assert_eq!(u.id, 42);
    assert!(!u.is_anonymous());
    assert!(u.is_active());
    assert!(u.is_authenticated());
}

#[test]
fn greeting_text() {
    let u = User::from_record(42, "ada".to_string());
    assert_eq!(u.greeting(), "Hello ada, your id is 42 !");
    let n = User::from_record(-3, "odd".to_string());
    assert_eq!(n.greeting(), "Hello odd, your id is -3 !");
}

#[test]
fn registration_decisions() {
    assert_eq!(register_decision("", "pw", false), RegisterCheck::EmptyCredentials);
    assert_eq!(register_decision("  ", "pw", false), RegisterCheck::EmptyCredentials);
    assert_eq!(register_decision("ada", "", false), RegisterCheck::EmptyCredentials);
    assert_eq!(register_decision("ada", "pw", true), RegisterCheck::UsernameTaken);
    assert_eq!(register_decision("ada", "pw", false), RegisterCheck::Accepted);
}

#[test]
fn login_decisions() {
    assert_eq!(login_decision("", "pw", true, true), LoginCheck::EmptyCredentials);
    assert_eq!(login_decision("ada", "", true, true), LoginCheck::EmptyCredentials);
    assert_eq!(login_decision("guest", "pw", true, true), LoginCheck::GuestForbidden);
    assert_eq!(login_decision("ada", "pw", false, false), LoginCheck::UnknownUsername);
    assert_eq!(login_decision("ada", "pw", true, false), LoginCheck::WrongPassword);
    assert_eq!(login_decision("ada", "pw", true, true), LoginCheck::Accepted);
}

#[test]
fn registration_produces_a_verifiable_hash() {
    match prepare_registration("ada", "s3cret", false) {
        RegisterOutcome::Ready(hash) => {
            assert!(hash.starts_with("$2"));
            assert_ne!(hash, "s3cret");
            assert_eq!(login_with_hash("ada", "s3cret", Some(&hash)), LoginCheck::Accepted);
            assert_eq!(login_with_hash("ada", "wrong", Some(&hash)), LoginCheck::WrongPassword);
        }
        other => panic!("registration should be accepted, got {other:?}"),
    }
}

#[test]
fn two_hashes_of_one_password_differ_but_both_verify() {
    let first = prepare_registration("ada", "pw", false);
    let second = prepare_registration("ada", "pw", false);
    match (first, second) {
        (RegisterOutcome::Ready(h1), RegisterOutcome::Ready(h2)) => {
            assert_ne!(h1, h2); // fresh random salt each time
            assert_eq!(login_with_hash("ada", "pw", Some(&h1)), LoginCheck::Accepted);
            assert_eq!(login_with_hash("ada", "pw", Some(&h2)), LoginCheck::Accepted);
        }
        other => panic!("both registrations should be accepted, got {other:?}"),
    }
}

#[test]
fn rejected_registrations_produce_no_hash() {
    assert_eq!(
        prepare_registration("", "pw", false),
        RegisterOutcome::Rejected(RegisterCheck::EmptyCredentials)
    );
    assert_eq!(
        prepare_registration("ada", "pw", true),
        RegisterOutcome::Rejected(RegisterCheck::UsernameTaken)
    );
}

#[test]
fn login_with_stored_record() {
    assert_eq!(login_with_hash("ada", "pw", None), LoginCheck::UnknownUsername);
    assert_eq!(login_with_hash("", "pw", None), LoginCheck::EmptyCredentials);
    assert_eq!(login_with_hash("guest", "pw", None), LoginCheck::GuestForbidden);
    // a malformed stored hash counts as no match, never as a fault
    assert_eq!(login_with_hash("ada", "pw", Some("nonsense")), LoginCheck::WrongPassword);
}

#[test]
fn run_state_names() {
    assert_eq!(domain_state_name(0), "No State");
    assert_eq!(domain_state_name(1), "Running");
    assert_eq!(domain_state_name(2), "Blocked");
    assert_eq!(domain_state_name(3), "Paused");
    assert_eq!(domain_state_name(4), "Shutdown");
    assert_eq!(domain_state_name(5), "Shutoff");
    assert_eq!(domain_state_name(6), "Crashed");
    assert_eq!(domain_state_name(7), "Suspended");
    assert_eq!(domain_state_name(8), "Unknown");
    assert_eq!(domain_state_name(255), "Unknown");
}

#[test]
fn inventory_record_assembly() {
    let d = domain_info(
        "vm1".to_string(),
        "vm1.example".to_string(),
        "123e4567".to_string(),
        1,
        99,
        1024,
        2048,
    );
    assert_eq!(d.name, "vm1");
    assert_eq!(d.full_name, "vm1.example");
    assert_eq!(d.uuid, "123e4567");
    assert_eq!(d.state, "Running");
    assert_eq!(d.time, 99);
    assert_eq!(d.memory, 1024);
    assert_eq!(d.max_mem, 2048);
}

fn sample(name: &str, state_code: u32, memory: u64, max_mem: u64) -> DomainInfo {
    domain_info(
        name.to_string(),
        format!("{name}.example"),
        format!("uuid-{name}"),
        state_code,
        0,
        memory,
        max_mem,
    )
}

fn names(list: &[DomainInfo]) -> Vec<&str> {
    list.iter().map(|d| d.name.as_str()).collect()
}

#[test]
fn listing_sorts_by_name_case_insensitively() {
    let list = vec![sample("beta", 1, 4, 8), sample("Alpha", 5, 2, 16), sample("gamma", 1, 1, 4)];
    let asc = sort_listing(list.clone(), SortColumn::Name, false);
    assert_eq!(names(&asc), vec!["Alpha", "beta", "gamma"]);
    let desc = sort_listing(list, SortColumn::Name, true);
    assert_eq!(names(&desc), vec!["gamma", "beta", "Alpha"]);
}

#[test]
fn listing_sorts_by_state_name() {
    // codes 1, 5, 6 carry the names Running, Shutoff, Crashed
    let list = vec![sample("a", 5, 0, 0), sample("b", 1, 0, 0), sample("c", 6, 0, 0)];
    let asc = sort_listing(list, SortColumn::State, false);
    assert_eq!(names(&asc), vec!["c", "b", "a"]);
}

#[test]
fn listing_sorts_numeric_columns() {
    let list = vec![sample("a", 1, 30, 1), sample("b", 1, 10, 3), sample("c", 1, 20, 2)];
    let by_mem = sort_listing(list.clone(), SortColumn::Memory, false);
    assert_eq!(names(&by_mem), vec!["b", "c", "a"]);
    let by_mem_desc = sort_listing(list.clone(), SortColumn::Memory, true);
    assert_eq!(names(&by_mem_desc), vec!["a", "c", "b"]);
    let by_max = sort_listing(list, SortColumn::MaxMem, false);
    assert_eq!(names(&by_max), vec!["a", "c", "b"]);
}

#[test]
fn listing_sort_keeps_every_record() {
    let list = vec![sample("a", 1, 5, 5), sample("a", 1, 5, 5), sample("b", 1, 1, 1)];
    let sorted = sort_listing(list, SortColumn::Memory, false);
    assert_eq!(sorted.len(), 3);
    assert_eq!(names(&sorted), vec!["b", "a", "a"]);
}

#[test]
fn state_description_text() {
    let mut st = WizardState::empty();
    assert_eq!(
        st.describe(),
        "WizardState {\n  name: <none>,\n  number: <none>,\n  color: <none>,\n  date: <none>\n}"
    );
    st.name = Some("Ada".to_string());
    st.number = Some(7);
    assert_eq!(
        st.describe(),
        "WizardState {\n  name: Ada,\n  number: 7,\n  color: <none>,\n  date: <none>\n}"
    );
}

#[test]
fn state_completeness_and_default() {
    let mut st = WizardState::default();
    assert!(!st.is_complete());
    st.name = Some("Ada".to_string());
    st.number = Some(7);
    st.color = Some("blue".to_string());
    assert!(!st.is_complete());
    st.date = Some("2024-06-01".to_string());
    assert!(st.is_complete());
    let copy = st.duplicate();
    assert_eq!(copy.name, st.name);
    assert_eq!(copy.number, st.number);
    assert_eq!(copy.color, st.color);
    assert_eq!(copy.date, st.date);
}
