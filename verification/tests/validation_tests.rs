use wizard_engine::date::{days_in_month, is_leap_year, valid_date};
use wizard_engine::steps::{
    color_palette, step_definition, valid_color, valid_name, valid_number, StepField,
};

#[test]
fn leap_years() {
    assert!(is_leap_year(2024));
    assert!(is_leap_year(2000));
    assert!(!is_leap_year(1900));
    assert!(!is_leap_year(2023));
    assert!(is_leap_year(0));
}

#[test]
fn month_lengths() {
    assert_eq!(days_in_month(2023, 1), 31);
    assert_eq!(days_in_month(2023, 2), 28);
    assert_eq!(days_in_month(2024, 2), 29);
    assert_eq!(days_in_month(2023, 4), 30);
    assert_eq!(days_in_month(2023, 6), 30);
    assert_eq!(days_in_month(2023, 9), 30);
    assert_eq!(days_in_month(2023, 11), 30);
    assert_eq!(days_in_month(2023, 12), 31);
}

#[test]
fn well_formed_dates() {
    assert!(valid_date("2024-02-29"));
    assert!(valid_date("0001-01-01"));
    assert!(valid_date("9999-12-31"));
    assert!(valid_date("2023-02-28"));
}

#[test]
fn malformed_dates() {
    assert!(!valid_date("2023-02-29"));
    assert!(!valid_date("2024-13-01"));
    assert!(!valid_date("2024-00-01"));
    assert!(!valid_date("2024-01-32"));
    assert!(!valid_date("2024-04-31"));
    assert!(!valid_date("2024-01-00"));
    assert!(!valid_date("2024/01/01"));
    assert!(!valid_date("2024-1-1"));
    assert!(!valid_date("24-01-01"));
    assert!(!valid_date("2024-01-0a"));
    assert!(!valid_date(""));
    assert!(!valid_date("2024-01-015"));
}

#[test]
fn name_validator_needs_something_after_trimming() {
    assert!(valid_name("Ada"));
    assert!(valid_name("  Ada "));
    assert!(!valid_name(""));
    assert!(!valid_name("    "));
    assert!(!valid_name("\t\r\n"));
}

#[test]
fn number_validator_is_one_to_ten() {
    assert!(!valid_number(0));
    assert!(valid_number(1));
    assert!(valid_number(10));
    assert!(!valid_number(11));
}

#[test]
fn color_validator_is_exact_palette_membership() {
    for c in ["red", "orange", "yellow", "green", "blue", "indigo", "violet"] {
        assert!(valid_color(c));
    }
    assert!(!valid_color("Red"));
    assert!(!valid_color("magenta"));
    assert!(!valid_color(""));
}

#[test]
fn palette_lists_the_seven_colors_in_order() {
    let p = color_palette();
    assert_eq!(p, vec!["red", "orange", "yellow", "green", "blue", "indigo", "violet"]);
}

#[test]
fn registry_answers_each_step() {
    assert_eq!(step_definition(1).index, 1);
    assert_eq!(step_definition(1).field, Some(StepField::Name));
    assert_eq!(step_definition(2).field, Some(StepField::Number));
    assert_eq!(step_definition(3).field, Some(StepField::Color));
    assert_eq!(step_definition(4).field, Some(StepField::Date));
    assert_eq!(step_definition(5).index, 5);
    assert_eq!(step_definition(5).field, None);
}
