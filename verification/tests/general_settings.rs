use learn_ui::deck_form::SaveState;
use learn_ui::general_settings::{
    apply_app_settings, build_settings_draft, general_status_label, model_presets, AccentColor,
    AiSettings, GeneralSettingsForm, LanguageOption, ThemeChoice,
};

#[test]
fn general_form_defaults() {
    let form = GeneralSettingsForm::default();
    assert_eq!(form.language, LanguageOption::English);
    assert_eq!(form.theme, ThemeChoice::System);
    assert_eq!(form.accent_color, AccentColor::Blue);
    assert!(form.appearance_enabled && form.protect_overload && !form.analytics_enabled);
    assert_eq!(form.target_retention, "0.85");
    assert_eq!(form.ai_daily_request_cap, "100");
    assert_eq!(form.ai_cooldown_secs, "5");
    assert_eq!(form.ai_api_key, "");
}

#[test]
fn stored_settings_fill_the_form() {
    let mut form = GeneralSettingsForm::default();
    form.theme = ThemeChoice::Dark;
    let settings = AiSettings {
        api_key: Some("key-1".to_string()),
        api_model: None,
        api_fallback_model: Some("gpt-4o-mini".to_string()),
        ai_system_prompt: None,
        ai_daily_request_cap: 42,
        ai_cooldown_secs: 0,
    };
    apply_app_settings(&mut form, &settings);
    assert_eq!(form.ai_api_key, "key-1");
    assert_eq!(form.ai_model, "");
    assert_eq!(form.ai_fallback_model, "gpt-4o-mini");
    assert_eq!(form.ai_daily_request_cap, "42");
    assert_eq!(form.ai_cooldown_secs, "0");
    assert_eq!(form.theme, ThemeChoice::Dark);
    let draft = build_settings_draft(&form).unwrap();
    assert_eq!(draft.api_key, Some("key-1".to_string()));
    assert_eq!(draft.api_model, None);
    assert_eq!(draft.api_fallback_model, Some("gpt-4o-mini".to_string()));
    assert_eq!(draft.ai_daily_request_cap, Some(42));
    assert_eq!(draft.ai_cooldown_secs, Some(0));
}

#[test]
fn draft_trims_texts_and_reads_numbers() {
    let mut form = GeneralSettingsForm::default();
    form.ai_model = "  gpt-4.1  ".to_string();
    form.ai_system_prompt = "   ".to_string();
    form.ai_daily_request_cap = " ".to_string();
    form.ai_cooldown_secs = " 7 ".to_string();
    let draft = build_settings_draft(&form).unwrap();
    assert_eq!(draft.api_model, Some("gpt-4.1".to_string()));
    assert_eq!(draft.ai_system_prompt, None);
    assert_eq!(draft.ai_daily_request_cap, None);
    assert_eq!(draft.ai_cooldown_secs, Some(7));
}

#[test]
fn draft_refuses_bad_numbers() {
    let mut form = GeneralSettingsForm::default();
    form.ai_daily_request_cap = "lots".to_string();
    assert_eq!(build_settings_draft(&form), None);
    let mut form = GeneralSettingsForm::default();
    form.ai_cooldown_secs = "-1".to_string();
    assert_eq!(build_settings_draft(&form), None);
}

#[test]
fn general_status_labels() {
    assert_eq!(general_status_label(SaveState::Saving, true), Some("Saving..."));
    assert_eq!(general_status_label(SaveState::Error, false), Some("Save failed"));
    assert_eq!(general_status_label(SaveState::Saved, false), Some("Saved"));
    assert_eq!(general_status_label(SaveState::Saved, true), Some("Unsaved changes"));
    assert_eq!(general_status_label(SaveState::Idle, true), Some("Unsaved changes"));
    assert_eq!(general_status_label(SaveState::Idle, false), None);
}

#[test]
fn model_menu_presets() {
    let presets = model_presets();
    let values: Vec<&str> = presets.iter().map(|p| p.value).collect();
    assert_eq!(values, vec!["gpt-4.1-mini", "gpt-4.1", "gpt-4o-mini"]);
    assert_eq!(presets[0].note, "Default: balanced quality and cost.");
}
