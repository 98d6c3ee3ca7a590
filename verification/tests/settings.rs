use learn_ui::general_settings::{
    parse_optional_u32, to_optional, AccentColor, LanguageOption, ThemeChoice,
};
use learn_ui::settings::{
    format_lapse_interval, is_valid_deck_name, normalize_description, parse_lapse_interval_secs,
    parse_positive_u32, parse_timer_secs, scroll_to_section_script, DeckSettingsErrors,
    SettingsSection,
};

#[test]
fn valid_deck_name_rejects_empty() {
    assert!(!is_valid_deck_name(""));
    assert!(!is_valid_deck_name("   "));
}

#[test]
fn valid_deck_name_accepts_non_empty() {
    assert!(is_valid_deck_name("Default"));
    assert!(is_valid_deck_name("  Deck  "));
}

#[test]
fn deck_name_of_other_whitespace_is_blank() {
    assert!(!is_valid_deck_name("\t\n \u{a0}"));
    assert!(is_valid_deck_name("\u{a0}x"));
}

#[test]
fn positive_u32_parses_trimmed_numbers() {
    assert_eq!(parse_positive_u32(" 42 "), Some(42));
    assert_eq!(parse_positive_u32("+7"), Some(7));
    assert_eq!(parse_positive_u32("4294967295"), Some(u32::MAX));
}

#[test]
fn positive_u32_rejects_zero_signs_and_overflow() {
    assert_eq!(parse_positive_u32("0"), None);
    assert_eq!(parse_positive_u32("-1"), None);
    assert_eq!(parse_positive_u32(""), None);
    assert_eq!(parse_positive_u32("+"), None);
    assert_eq!(parse_positive_u32("4294967296"), None);
    assert_eq!(parse_positive_u32("1 2"), None);
    assert_eq!(parse_positive_u32("12a"), None);
}

#[test]
fn timer_secs_must_be_between_five_and_six_hundred() {
    assert_eq!(parse_timer_secs("5"), Some(5));
    assert_eq!(parse_timer_secs(" 600 "), Some(600));
    assert_eq!(parse_timer_secs("4"), None);
    assert_eq!(parse_timer_secs("601"), None);
    assert_eq!(parse_timer_secs("abc"), None);
}

#[test]
fn lapse_interval_reads_units() {
    assert_eq!(parse_lapse_interval_secs("30s"), Some(30));
    assert_eq!(parse_lapse_interval_secs("10m"), Some(600));
    assert_eq!(parse_lapse_interval_secs("2h"), Some(7200));
    assert_eq!(parse_lapse_interval_secs("1D"), Some(86_400));
    assert_eq!(parse_lapse_interval_secs(" 2 h "), Some(7200));
}

#[test]
fn lapse_interval_without_unit_is_days() {
    assert_eq!(parse_lapse_interval_secs("5"), Some(5 * 86_400));
}

#[test]
fn lapse_interval_rejects_bad_input() {
    assert_eq!(parse_lapse_interval_secs(""), None);
    assert_eq!(parse_lapse_interval_secs("   "), None);
    assert_eq!(parse_lapse_interval_secs("0m"), None);
    assert_eq!(parse_lapse_interval_secs("3x"), None);
    assert_eq!(parse_lapse_interval_secs("m"), None);
    assert_eq!(parse_lapse_interval_secs("-1h"), None);
    assert_eq!(parse_lapse_interval_secs("50000d"), None);
    assert_eq!(parse_lapse_interval_secs("4294967295s"), Some(u32::MAX));
}

#[test]
fn lapse_interval_formats_with_largest_unit() {
    assert_eq!(format_lapse_interval(86_400), "1d");
    assert_eq!(format_lapse_interval(7200), "2h");
    assert_eq!(format_lapse_interval(600), "10m");
    assert_eq!(format_lapse_interval(61), "61s");
    assert_eq!(format_lapse_interval(0), "0d");
}

#[test]
fn lapse_interval_round_trips() {
    for secs in [1u32, 59, 60, 3600, 5400, 86_400, 90_000, 172_800, u32::MAX] {
        assert_eq!(parse_lapse_interval_secs(&format_lapse_interval(secs)), Some(secs));
    }
}

#[test]
fn description_and_optional_text_are_trimmed() {
    assert_eq!(normalize_description("  hello "), Some("hello".to_string()));
    assert_eq!(normalize_description(" \n "), None);
    assert_eq!(to_optional(" model-x "), Some("model-x".to_string()));
    assert_eq!(to_optional(""), None);
}

#[test]
fn optional_u32_distinguishes_blank_and_invalid() {
    assert_eq!(parse_optional_u32("  "), Ok(None));
    assert_eq!(parse_optional_u32(" 12 "), Ok(Some(12)));
    assert_eq!(parse_optional_u32("0"), Ok(Some(0)));
    assert_eq!(parse_optional_u32("x"), Err(()));
    assert_eq!(parse_optional_u32("-3"), Err(()));
}

#[test]
fn labels_and_form_values_round_trip() {
    for language in [
        LanguageOption::English,
        LanguageOption::German,
        LanguageOption::Spanish,
        LanguageOption::French,
    ] {
        assert_eq!(LanguageOption::from_value(language.label()), language);
    }
    for color in [
        AccentColor::Blue,
        AccentColor::Green,
        AccentColor::Orange,
        AccentColor::Purple,
    ] {
        assert_eq!(AccentColor::from_value(color.label()), color);
    }
    assert_eq!(LanguageOption::from_value("Klingon"), LanguageOption::English);
    assert_eq!(AccentColor::from_value("Red"), AccentColor::Blue);
}

#[test]
fn theme_and_section_names() {
    assert_eq!(ThemeChoice::System.label(), "System");
    assert_eq!(ThemeChoice::Dark.label(), "Dark");
    assert_eq!(SettingsSection::DailyLimits.anchor_id(), "settings-daily-limits");
    assert_eq!(SettingsSection::EasyDays.anchor_id(), "settings-easy-days");
}

#[test]
fn deck_settings_errors_has_any() {
    let mut errors = DeckSettingsErrors::default();
    assert!(!errors.has_any());
    errors.fsrs_optimize_after = Some("Enter a whole number.");
    assert!(errors.has_any());
}

#[test]
fn scroll_to_section() {
    assert_eq!(
        scroll_to_section_script(SettingsSection::Timers),
        "document.getElementById('settings-timers')?.scrollIntoView({behavior: 'smooth', block: 'start'});"
    );
}
