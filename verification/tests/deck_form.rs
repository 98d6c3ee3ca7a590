use learn_ui::deck_form::{
    deck_title, easy_day_options, is_easy_day, save_status_label, validate_form, DeckSettingsForm, DeckSettingsValues, SaveState,
    ERR_DURATION, ERR_FRACTION, ERR_NAME_REQUIRED, ERR_NO_DAYS, ERR_POSITIVE, ERR_TIMER,
};
use learn_ui::settings::DeckSettingsErrors;

fn valid_form() -> DeckSettingsForm {
    DeckSettingsForm {
        name: "  Rust  ".to_string(),
        description: "  systems  ".to_string(),
        new_cards_per_day: "20".to_string(),
        review_limit_per_day: " 200".to_string(),
        micro_session_size: "5".to_string(),
        protect_overload: true,
        preserve_stability_on_lapse: false,
        lapse_min_interval: "10m".to_string(),
        show_timer: true,
        soft_time_reminder: false,
        auto_advance_cards: true,
        soft_time_reminder_secs: "30".to_string(),
        auto_reveal_secs: "60".to_string(),
        easy_days_enabled: true,
        easy_day_load_factor: "0.50".to_string(),
        easy_days_mask: 0b0100_0001,
        fsrs_target_retention: "0.90".to_string(),
        fsrs_optimize_enabled: false,
        fsrs_optimize_after: "100".to_string(),
        max_interval_days: "365".to_string(),
        min_interval_days: "1".to_string(),
        fsrs_parameters: String::new(),
    }
}

fn expected_values() -> DeckSettingsValues {
    DeckSettingsValues {
        name: "Rust".to_string(),
        description: Some("systems".to_string()),
        new_cards_per_day: 20,
        review_limit_per_day: 200,
        micro_session_size: 5,
        protect_overload: true,
        preserve_stability_on_lapse: false,
        lapse_min_interval_secs: 600,
        show_timer: true,
        soft_time_reminder: false,
        auto_advance_cards: true,
        soft_time_reminder_secs: 30,
        auto_reveal_secs: 60,
        easy_days_enabled: true,
        easy_days_mask: 0b0100_0001,
        fsrs_optimize_enabled: false,
        fsrs_optimize_after: 100,
    }
}

#[test]
fn valid_form_reads_into_values() {
    assert_eq!(validate_form(&valid_form(), true, true), Ok(expected_values()));
    assert_eq!(valid_form().to_values(true, true), Some(expected_values()));
}

#[test]
fn blank_description_becomes_none() {
    let mut form = valid_form();
    form.description = "   ".to_string();
    let values = validate_form(&form, true, true).unwrap();
    assert_eq!(values.description, None);
}

#[test]
fn every_bad_field_gets_its_message() {
    let mut form = valid_form();
    form.name = "  ".to_string();
    form.new_cards_per_day = "0".to_string();
    form.review_limit_per_day = "x".to_string();
    form.micro_session_size = "-2".to_string();
    form.lapse_min_interval = "3w".to_string();
    form.soft_time_reminder_secs = "4".to_string();
    form.auto_reveal_secs = "601".to_string();
    form.easy_days_mask = 0;
    form.fsrs_optimize_after = "".to_string();
    let errors = validate_form(&form, false, false).unwrap_err();
    assert_eq!(
        errors,
        DeckSettingsErrors {
            name: Some(ERR_NAME_REQUIRED),
            new_cards_per_day: Some(ERR_POSITIVE),
            review_limit_per_day: Some(ERR_POSITIVE),
            micro_session_size: Some(ERR_POSITIVE),
            lapse_min_interval: Some(ERR_DURATION),
            soft_time_reminder_secs: Some(ERR_TIMER),
            auto_reveal_secs: Some(ERR_TIMER),
            easy_day_load_factor: Some(ERR_FRACTION),
            easy_days_mask: Some(ERR_NO_DAYS),
            fsrs_target_retention: Some(ERR_FRACTION),
            fsrs_optimize_after: Some(ERR_POSITIVE),
        }
    );
    assert_eq!(form.to_values(false, false), None);
}

#[test]
fn one_bad_field_gets_only_its_message() {
    let mut form = valid_form();
    form.auto_reveal_secs = "2".to_string();
    let errors = validate_form(&form, true, true).unwrap_err();
    assert_eq!(
        errors,
        DeckSettingsErrors { auto_reveal_secs: Some(ERR_TIMER), ..DeckSettingsErrors::default() }
    );
    let errors = validate_form(&valid_form(), true, false).unwrap_err();
    assert_eq!(
        errors,
        DeckSettingsErrors { fsrs_target_retention: Some(ERR_FRACTION), ..DeckSettingsErrors::default() }
    );
}

#[test]
fn easy_days_mask_only_matters_when_enabled() {
    let mut form = valid_form();
    form.easy_days_enabled = false;
    form.easy_days_mask = 0;
    assert!(validate_form(&form, true, true).is_ok());
}

#[test]
fn form_filled_from_values() {
    let form = DeckSettingsForm::from_values(&expected_values(), "0.50".to_string(), "0.90".to_string());
    assert_eq!(form.name, "Rust");
    assert_eq!(form.description, "systems");
    assert_eq!(form.new_cards_per_day, "20");
    assert_eq!(form.lapse_min_interval, "10m");
    assert_eq!(form.soft_time_reminder_secs, "30");
    assert_eq!(form.easy_day_load_factor, "0.50");
    assert_eq!(form.max_interval_days, "365");
    assert_eq!(form.min_interval_days, "1");
    assert!(form.fsrs_parameters.starts_with("0.2120, 1.2931"));
    let mut no_description = expected_values();
    no_description.description = None;
    let form = DeckSettingsForm::from_values(&no_description, String::new(), String::new());
    assert_eq!(form.description, "");
}

#[test]
fn form_round_trip_gives_same_values() {
    let values = validate_form(&valid_form(), true, true).unwrap();
    let refilled = DeckSettingsForm::from_values(&values, "0.5".to_string(), "0.9".to_string());
    assert_eq!(validate_form(&refilled, true, true), Ok(values));
}

#[test]
fn restoring_defaults_keeps_name_and_advanced_fields() {
    let mut form = valid_form();
    form.fsrs_parameters = "custom".to_string();
    let defaults = DeckSettingsValues {
        name: "ignored".to_string(),
        description: Some("ignored".to_string()),
        new_cards_per_day: 10,
        lapse_min_interval_secs: 86_400,
        ..expected_values()
    };
    form.restore_defaults(&defaults, "0.60".to_string(), "0.85".to_string());
    assert_eq!(form.name, "  Rust  ");
    assert_eq!(form.description, "  systems  ");
    assert_eq!(form.fsrs_parameters, "custom");
    assert_eq!(form.new_cards_per_day, "10");
    assert_eq!(form.lapse_min_interval, "1d");
    assert_eq!(form.fsrs_target_retention, "0.85");
}

#[test]
fn save_status_labels() {
    assert_eq!(save_status_label(SaveState::Saving, false), Some("Saving..."));
    assert_eq!(save_status_label(SaveState::Saved, true), Some("Saved"));
    assert_eq!(save_status_label(SaveState::Error, false), Some("Couldn't save"));
    assert_eq!(save_status_label(SaveState::Idle, true), Some("Unsaved changes"));
    assert_eq!(save_status_label(SaveState::Idle, false), None);
}

#[test]
fn easy_day_picker() {
    let days = easy_day_options();
    assert_eq!(days.len(), 7);
    assert_eq!(days[0].label, "Mon");
    assert_eq!(days[0].bit, 1);
    assert_eq!(days[6].title, "Sunday");
    assert_eq!(days[6].bit, 64);
    assert!(is_easy_day(0b0100_0001, 64));
    assert!(!is_easy_day(0b0100_0001, 2));
    let mut form = valid_form();
    form.easy_days_mask = 0b0000_0101;
    form.toggle_easy_day(4);
    assert_eq!(form.easy_days_mask, 0b0000_0001);
    form.toggle_easy_day(2);
    assert_eq!(form.easy_days_mask, 0b0000_0011);
    form.toggle_easy_day(2);
    assert_eq!(form.easy_days_mask, 0b0000_0001);
}

#[test]
fn settings_page_title() {
    assert_eq!(deck_title("  Rust ", Some("Old")), "Rust");
    assert_eq!(deck_title("   ", Some("Old")), "Old");
    assert_eq!(deck_title("", None), "Deck");
}
