//! The general settings page: theme, language and accent choices, and the
//! AI assistant settings form.
use vstd::prelude::*;

use crate::deck_form::{SaveState, STATUS_SAVED, STATUS_SAVING, STATUS_UNSAVED};
use crate::numbers::{decimal, lemma_decimal_digits, lemma_parse_decimal, parse_u32, parse_u32_spec};
use crate::settings::{
    lemma_digits_trim_lower, normalize_description, opt_string_view, optional_text,
};
use crate::text::{is_blank, str_equals, trim, trimmed_chars};

verus! {

/// The colour theme of the app.
#[derive(Clone, Copy, Debug, PartialEq, Eq)]
pub enum ThemeChoice {
    System,
    Light,
    Dark,
}

/// The label shown for a theme.
pub open spec fn theme_label(theme: ThemeChoice) -> Seq<char> {
    match theme {
        ThemeChoice::System => "System"@,
        ThemeChoice::Light => "Light"@,
        ThemeChoice::Dark => "Dark"@,
    }
}

impl ThemeChoice {
    /// The label shown for this theme.
    pub fn label(self) -> (r: &'static str)
        ensures
            r@ == theme_label(self),
    {
        match self {
            ThemeChoice::System => "System",
            ThemeChoice::Light => "Light",
            ThemeChoice::Dark => "Dark",
        }
    }
}

/// The language of the interface.
#[derive(Clone, Copy, Debug, PartialEq, Eq)]
pub enum LanguageOption {
    English,
    German,
    Spanish,
    French,
}

pub const LANG_ENGLISH: &'static str = "English";

pub const LANG_GERMAN: &'static str = "German";

pub const LANG_SPANISH: &'static str = "Spanish";

pub const LANG_FRENCH: &'static str = "French";

/// The label (and form value) of a language.
pub open spec fn language_label(language: LanguageOption) -> Seq<char> {
    match language {
        LanguageOption::English => LANG_ENGLISH@,
        LanguageOption::German => LANG_GERMAN@,
        LanguageOption::Spanish => LANG_SPANISH@,
        LanguageOption::French => LANG_FRENCH@,
    }
}

/// The language a form value stands for; English for any unknown value.
pub open spec fn language_from(value: Seq<char>) -> LanguageOption {
    if value == LANG_GERMAN@ {
        LanguageOption::German
    } else if value == LANG_SPANISH@ {
        LanguageOption::Spanish
    } else if value == LANG_FRENCH@ {
        LanguageOption::French
    } else {
        LanguageOption::English
    }
}

impl LanguageOption {
    /// The label (and form value) of this language.
    pub fn label(self) -> (r: &'static str)
        ensures
            r@ == language_label(self),
    {
        match self {
            LanguageOption::English => LANG_ENGLISH,
            LanguageOption::German => LANG_GERMAN,
            LanguageOption::Spanish => LANG_SPANISH,
            LanguageOption::French => LANG_FRENCH,
        }
    }

    /// The language a form value stands for; English for any unknown value.
    pub fn from_value(value: &str) -> (r: Self)
        ensures
            r == language_from(value@),
    {
        if str_equals(value, LANG_GERMAN) {
            LanguageOption::German
        } else if str_equals(value, LANG_SPANISH) {
            LanguageOption::Spanish
        } else if str_equals(value, LANG_FRENCH) {
            LanguageOption::French
        } else {
            LanguageOption::English
        }
    }
}

/// A language chosen in the form is read back as the same language.
pub proof fn lemma_language_round_trip(language: LanguageOption)
    ensures
        language_from(language_label(language)) == language,
{
    reveal_strlit("English");
    reveal_strlit("German");
    reveal_strlit("Spanish");
    reveal_strlit("French");
    assert(LANG_GERMAN@ != LANG_SPANISH@ && LANG_GERMAN@ != LANG_FRENCH@ && LANG_SPANISH@
        != LANG_FRENCH@) by {
        assert(LANG_GERMAN@[0] != LANG_SPANISH@[0]);
        assert(LANG_GERMAN@[0] != LANG_FRENCH@[0]);
        assert(LANG_SPANISH@[0] != LANG_FRENCH@[0]);
    }
    assert(LANG_ENGLISH@[0] != LANG_GERMAN@[0]);
    assert(LANG_ENGLISH@[0] != LANG_SPANISH@[0]);
    assert(LANG_ENGLISH@[0] != LANG_FRENCH@[0]);
}

/// The accent colour of the interface.
#[derive(Clone, Copy, Debug, PartialEq, Eq)]
pub enum AccentColor {
    Blue,
    Green,
    Orange,
    Purple,
}

pub const ACCENT_BLUE: &'static str = "Blue";

pub const ACCENT_GREEN: &'static str = "Green";

pub const ACCENT_ORANGE: &'static str = "Orange";

pub const ACCENT_PURPLE: &'static str = "Purple";

/// The label (and form value) of an accent colour.
pub open spec fn accent_label(color: AccentColor) -> Seq<char> {
    match color {
        AccentColor::Blue => ACCENT_BLUE@,
        AccentColor::Green => ACCENT_GREEN@,
        AccentColor::Orange => ACCENT_ORANGE@,
        AccentColor::Purple => ACCENT_PURPLE@,
    }
}

/// The accent colour a form value stands for; blue for any unknown value.
pub open spec fn accent_from(value: Seq<char>) -> AccentColor {
    if value == ACCENT_GREEN@ {
        AccentColor::Green
    } else if value == ACCENT_ORANGE@ {
        AccentColor::Orange
    } else if value == ACCENT_PURPLE@ {
        AccentColor::Purple
    } else {
        AccentColor::Blue
    }
}

impl AccentColor {
    /// The label (and form value) of this colour.
    pub fn label(self) -> (r: &'static str)
        ensures
            r@ == accent_label(self),
    {
        match self {
            AccentColor::Blue => ACCENT_BLUE,
            AccentColor::Green => ACCENT_GREEN,
            AccentColor::Orange => ACCENT_ORANGE,
            AccentColor::Purple => ACCENT_PURPLE,
        }
    }

    /// The colour a form value stands for; blue for any unknown value.
    pub fn from_value(value: &str) -> (r: Self)
        ensures
            r == accent_from(value@),
    {
        if str_equals(value, ACCENT_GREEN) {
            AccentColor::Green
        } else if str_equals(value, ACCENT_ORANGE) {
            AccentColor::Orange
        } else if str_equals(value, ACCENT_PURPLE) {
            AccentColor::Purple
        } else {
            AccentColor::Blue
        }
    }
}

/// A colour chosen in the form is read back as the same colour.
pub proof fn lemma_accent_round_trip(color: AccentColor)
    ensures
        accent_from(accent_label(color)) == color,
{
    reveal_strlit("Blue");
    reveal_strlit("Green");
    reveal_strlit("Orange");
    reveal_strlit("Purple");
    assert(ACCENT_BLUE@[0] != ACCENT_GREEN@[0]);
    assert(ACCENT_BLUE@[0] != ACCENT_ORANGE@[0]);
    assert(ACCENT_BLUE@[0] != ACCENT_PURPLE@[0]);
    assert(ACCENT_GREEN@[0] != ACCENT_ORANGE@[0]);
    assert(ACCENT_GREEN@[0] != ACCENT_PURPLE@[0]);
    assert(ACCENT_ORANGE@[0] != ACCENT_PURPLE@[0]);
}


/// Trims an optional setting; a blank one becomes none.
pub fn to_optional(value: &str) -> (r: Option<String>)
    ensures
        opt_string_view(r) == optional_text(value@),
{
    normalize_description(value)
}

/// What an optional number field holds: nothing when blank, else a whole
/// number, or an error when it is not one.
pub open spec fn optional_u32(value: Seq<char>) -> Result<Option<u32>, ()> {
    if is_blank(value) {
        Ok(None)
    } else {
        match parse_u32_spec(trim(value)) {
            Some(n) => Ok(Some(n)),
            None => Err(()),
        }
    }
}

/// Reads an optional number field.
pub fn parse_optional_u32(value: &str) -> (r: Result<Option<u32>, ()>)
    ensures
        r == optional_u32(value@),
{
    let t = trimmed_chars(value);
    if t.len() == 0 {
        return Ok(None);
    }
    match parse_u32(t.as_slice()) {
        Some(n) => Ok(Some(n)),
        None => Err(()),
    }
}



/// The fields of the general settings form.
#[derive(Clone, Debug, PartialEq)]
pub struct GeneralSettingsForm {
    pub language: LanguageOption,
    pub theme: ThemeChoice,
    pub appearance_enabled: bool,
    pub accent_color: AccentColor,
    pub protect_overload: bool,
    pub target_retention: String,
    pub analytics_enabled: bool,
    pub email: String,
    pub ai_api_key: String,
    pub ai_model: String,
    pub ai_fallback_model: String,
    pub ai_system_prompt: String,
    pub ai_daily_request_cap: String,
    pub ai_cooldown_secs: String,
}

pub const DEFAULT_TARGET_RETENTION: &'static str = "0.85";

pub const DEFAULT_EMAIL: &'static str = "john.smil@gmail.com";

pub const DEFAULT_DAILY_REQUEST_CAP: &'static str = "100";

pub const DEFAULT_COOLDOWN_SECS: &'static str = "5";

fn owned(s: &str) -> (r: String)
    ensures
        r@ == s@,
{
    let mut r = String::new();
    r.append(s);
    r
}

impl Default for GeneralSettingsForm {
    fn default() -> (r: Self)
        ensures
            r.language == LanguageOption::English,
            r.theme == ThemeChoice::System,
            r.appearance_enabled,
            r.accent_color == AccentColor::Blue,
            r.protect_overload,
            r.target_retention@ == DEFAULT_TARGET_RETENTION@,
            !r.analytics_enabled,
            r.email@ == DEFAULT_EMAIL@,
            r.ai_api_key@ == Seq::<char>::empty(),
            r.ai_model@ == Seq::<char>::empty(),
            r.ai_fallback_model@ == Seq::<char>::empty(),
            r.ai_system_prompt@ == Seq::<char>::empty(),
            r.ai_daily_request_cap@ == DEFAULT_DAILY_REQUEST_CAP@,
            r.ai_cooldown_secs@ == DEFAULT_COOLDOWN_SECS@,
    {
        GeneralSettingsForm {
            language: LanguageOption::English,
            theme: ThemeChoice::System,
            appearance_enabled: true,
            accent_color: AccentColor::Blue,
            protect_overload: true,
            target_retention: owned(DEFAULT_TARGET_RETENTION),
            analytics_enabled: false,
            email: owned(DEFAULT_EMAIL),
            ai_api_key: String::new(),
            ai_model: String::new(),
            ai_fallback_model: String::new(),
            ai_system_prompt: String::new(),
            ai_daily_request_cap: owned(DEFAULT_DAILY_REQUEST_CAP),
            ai_cooldown_secs: owned(DEFAULT_COOLDOWN_SECS),
        }
    }
}

/// The stored AI assistant settings that the form shows.
#[derive(Clone, Debug, PartialEq)]
pub struct AiSettings {
    pub api_key: Option<String>,
    pub api_model: Option<String>,
    pub api_fallback_model: Option<String>,
    pub ai_system_prompt: Option<String>,
    pub ai_daily_request_cap: u32,
    pub ai_cooldown_secs: u32,
}

/// The AI assistant settings to save, as read from the form.
#[derive(Clone, Debug, PartialEq)]
pub struct AiSettingsDraft {
    pub api_key: Option<String>,
    pub api_model: Option<String>,
    pub api_fallback_model: Option<String>,
    pub ai_system_prompt: Option<String>,
    pub ai_daily_request_cap: Option<u32>,
    pub ai_cooldown_secs: Option<u32>,
}

/// An optional text, or the empty text when there is none.
pub open spec fn text_or_empty(o: Option<String>) -> Seq<char> {
    match o {
        Some(s) => s@,
        None => Seq::empty(),
    }
}

fn owned_or_empty(o: &Option<String>) -> (r: String)
    ensures
        r@ == text_or_empty(*o),
{
    match o {
        Some(s) => s.clone(),
        None => String::new(),
    }
}

/// Shows stored AI assistant settings in the form: each text (empty when
/// there is none) and each number in decimal; the other fields stay.
pub fn apply_app_settings(form: &mut GeneralSettingsForm, settings: &AiSettings)
    ensures
        final(form).ai_api_key@ == text_or_empty(settings.api_key),
        final(form).ai_model@ == text_or_empty(settings.api_model),
        final(form).ai_fallback_model@ == text_or_empty(settings.api_fallback_model),
        final(form).ai_system_prompt@ == text_or_empty(settings.ai_system_prompt),
        final(form).ai_daily_request_cap@ == decimal(settings.ai_daily_request_cap as nat),
        final(form).ai_cooldown_secs@ == decimal(settings.ai_cooldown_secs as nat),
        final(form).language == old(form).language,
        final(form).theme == old(form).theme,
        final(form).appearance_enabled == old(form).appearance_enabled,
        final(form).accent_color == old(form).accent_color,
        final(form).protect_overload == old(form).protect_overload,
        final(form).target_retention == old(form).target_retention,
        final(form).analytics_enabled == old(form).analytics_enabled,
        final(form).email == old(form).email,
{
    form.ai_api_key = owned_or_empty(&settings.api_key);
    form.ai_model = owned_or_empty(&settings.api_model);
    form.ai_fallback_model = owned_or_empty(&settings.api_fallback_model);
    form.ai_system_prompt = owned_or_empty(&settings.ai_system_prompt);
    form.ai_daily_request_cap = crate::numbers::u32_to_decimal(settings.ai_daily_request_cap);
    form.ai_cooldown_secs = crate::numbers::u32_to_decimal(settings.ai_cooldown_secs);
}

/// The draft a form gives when both number fields read: each text trimmed
/// (none when blank) and each number (none when blank).
pub open spec fn draft_holds(d: AiSettingsDraft, form: GeneralSettingsForm) -> bool {
    &&& opt_string_view(d.api_key) == optional_text(form.ai_api_key@)
    &&& opt_string_view(d.api_model) == optional_text(form.ai_model@)
    &&& opt_string_view(d.api_fallback_model) == optional_text(form.ai_fallback_model@)
    &&& opt_string_view(d.ai_system_prompt) == optional_text(form.ai_system_prompt@)
    &&& optional_u32(form.ai_daily_request_cap@) == Ok::<Option<u32>, ()>(d.ai_daily_request_cap)
    &&& optional_u32(form.ai_cooldown_secs@) == Ok::<Option<u32>, ()>(d.ai_cooldown_secs)
}

/// Reads the AI assistant settings to save from the form; nothing when the
/// request cap or the cooldown is neither blank nor a whole number.
pub fn build_settings_draft(form: &GeneralSettingsForm) -> (r: Option<AiSettingsDraft>)
    ensures
        match r {
            Some(d) => draft_holds(d, *form),
            None => optional_u32(form.ai_daily_request_cap@) is Err || optional_u32(
                form.ai_cooldown_secs@,
            ) is Err,
        },
{
    let cap = match parse_optional_u32(form.ai_daily_request_cap.as_str()) {
        Ok(v) => v,
        Err(_) => {
            return None;
        },
    };
    let cooldown = match parse_optional_u32(form.ai_cooldown_secs.as_str()) {
        Ok(v) => v,
        Err(_) => {
            return None;
        },
    };
    Some(
        AiSettingsDraft {
            api_key: to_optional(form.ai_api_key.as_str()),
            api_model: to_optional(form.ai_model.as_str()),
            api_fallback_model: to_optional(form.ai_fallback_model.as_str()),
            ai_system_prompt: to_optional(form.ai_system_prompt.as_str()),
            ai_daily_request_cap: cap,
            ai_cooldown_secs: cooldown,
        },
    )
}

/// Whether a stored text is as a draft leaves it: none, or trimmed and not
/// blank.
pub open spec fn stored_text(o: Option<String>) -> bool {
    match o {
        Some(s) => !is_blank(s@) && trim(s@) == s@,
        None => true,
    }
}

proof fn lemma_stored_text_reads_back(o: Option<String>)
    requires
        stored_text(o),
    ensures
        optional_text(text_or_empty(o)) == opt_string_view(o),
{
    match o {
        Some(s) => {},
        None => {
            assert(trim(Seq::<char>::empty()) =~= Seq::<char>::empty()) by {
                reveal_with_fuel(crate::text::trim_start, 1);
            }
        },
    }
}

proof fn lemma_number_reads_back(n: u32)
    ensures
        optional_u32(decimal(n as nat)) == Ok::<Option<u32>, ()>(Some(n)),
{
    lemma_decimal_digits(n as nat);
    lemma_parse_decimal(n);
    lemma_digits_trim_lower(decimal(n as nat));
}

/// Stored AI assistant settings shown in the form are read back as the same
/// settings: a form whose AI fields show `settings` reads, and any draft it
/// reads to holds `settings` (texts stored as a draft leaves them: none, or
/// trimmed and not blank).
pub proof fn lemma_settings_round_trip(
    after: GeneralSettingsForm,
    settings: AiSettings,
    draft: AiSettingsDraft,
)
    requires
        stored_text(settings.api_key),
        stored_text(settings.api_model),
        stored_text(settings.api_fallback_model),
        stored_text(settings.ai_system_prompt),
        after.ai_api_key@ == text_or_empty(settings.api_key),
        after.ai_model@ == text_or_empty(settings.api_model),
        after.ai_fallback_model@ == text_or_empty(settings.api_fallback_model),
        after.ai_system_prompt@ == text_or_empty(settings.ai_system_prompt),
        after.ai_daily_request_cap@ == decimal(settings.ai_daily_request_cap as nat),
        after.ai_cooldown_secs@ == decimal(settings.ai_cooldown_secs as nat),
    ensures
        optional_u32(after.ai_daily_request_cap@) is Ok,
        optional_u32(after.ai_cooldown_secs@) is Ok,
        draft_holds(draft, after) ==> {
            &&& opt_string_view(draft.api_key) == opt_string_view(settings.api_key)
            &&& opt_string_view(draft.api_model) == opt_string_view(settings.api_model)
            &&& opt_string_view(draft.api_fallback_model) == opt_string_view(settings.api_fallback_model)
            &&& opt_string_view(draft.ai_system_prompt) == opt_string_view(settings.ai_system_prompt)
            &&& draft.ai_daily_request_cap == Some(settings.ai_daily_request_cap)
            &&& draft.ai_cooldown_secs == Some(settings.ai_cooldown_secs)
        },
{
    lemma_stored_text_reads_back(settings.api_key);
    lemma_stored_text_reads_back(settings.api_model);
    lemma_stored_text_reads_back(settings.api_fallback_model);
    lemma_stored_text_reads_back(settings.ai_system_prompt);
    lemma_number_reads_back(settings.ai_daily_request_cap);
    lemma_number_reads_back(settings.ai_cooldown_secs);
}


/// The status shown beside the general settings' save button: a save under
/// way or failed, "Saved" while nothing changed since, else whether there
/// are unsaved changes.
pub open spec fn general_status_text(state: SaveState, is_dirty: bool) -> Option<Seq<char>> {
    match state {
        SaveState::Saving => Some(STATUS_SAVING@),
        SaveState::Error => Some(GENERAL_SAVE_FAILED@),
        SaveState::Saved if !is_dirty => Some(STATUS_SAVED@),
        _ => if is_dirty {
            Some(STATUS_UNSAVED@)
        } else {
            None
        },
    }
}

pub const GENERAL_SAVE_FAILED: &'static str = "Save failed";

/// The status shown beside the general settings' save button.
pub fn general_status_label(state: SaveState, is_dirty: bool) -> (r: Option<&'static str>)
    ensures
        match r {
            Some(label) => general_status_text(state, is_dirty) == Some(label@),
            None => general_status_text(state, is_dirty) is None,
        },
{
    match state {
        SaveState::Saving => Some(STATUS_SAVING),
        SaveState::Error => Some(GENERAL_SAVE_FAILED),
        SaveState::Saved if !is_dirty => Some(STATUS_SAVED),
        _ => if is_dirty {
            Some(STATUS_UNSAVED)
        } else {
            None
        },
    }
}

/// A model offered in the AI model menu, with a note on it.
#[derive(Clone, Copy, Debug, PartialEq, Eq)]
pub struct ModelPreset {
    pub value: &'static str,
    pub note: &'static str,
}

/// The models offered in the AI model menu, in order.
pub fn model_presets() -> (r: Vec<ModelPreset>)
    ensures
        r.len() == 3,
        r[0].value@ == "gpt-4.1-mini"@ && r[0].note@ == "Default: balanced quality and cost."@,
        r[1].value@ == "gpt-4.1"@ && r[1].note@ == "Higher quality, higher cost."@,
        r[2].value@ == "gpt-4o-mini"@ && r[2].note@ == "Fast and low cost for quick edits."@,
{
    vec![
        ModelPreset { value: "gpt-4.1-mini", note: "Default: balanced quality and cost." },
        ModelPreset { value: "gpt-4.1", note: "Higher quality, higher cost." },
        ModelPreset { value: "gpt-4o-mini", note: "Fast and low cost for quick edits." },
    ]
}

} // verus!
