//! The deck settings form: reading its fields into the deck's settings,
//! with a message under each field that does not hold an acceptable value,
//! and filling it from stored settings.
//!
//! The two fraction fields (easy-day load factor and target retention) are
//! read as floating-point numbers by the application; here only whether each
//! was acceptable takes part.
use vstd::prelude::*;

use crate::numbers::{decimal, u32_to_decimal};
use crate::settings::{
    errors_present, format_lapse_interval, lapse_interval_secs, lapse_interval_text,
    lemma_lapse_interval_positive, lemma_lapse_interval_round_trip, lemma_positive_u32_round_trip, lemma_timer_secs_round_trip,
    normalize_description, opt_string_view, optional_text, parse_lapse_interval_secs,
    parse_positive_u32, parse_timer_secs, positive_u32, timer_secs, DeckSettingsErrors,
};
use crate::text::{is_blank, is_blank_str, lemma_trim_idempotent, trim, trim_string};

verus! {

pub const ERR_NAME_REQUIRED: &'static str = "Deck name is required.";

pub const ERR_POSITIVE: &'static str = "Enter a positive number.";

pub const ERR_DURATION: &'static str = "Use a duration like 10m or 1d.";

pub const ERR_TIMER: &'static str = "Enter 5-600 seconds.";

pub const ERR_FRACTION: &'static str = "Enter a value between 0 and 1.";

pub const ERR_NO_DAYS: &'static str = "Pick at least one day.";

/// What the advanced fields show when the form is filled.
pub const DEFAULT_MAX_INTERVAL_DAYS: &'static str = "365";

pub const DEFAULT_MIN_INTERVAL_DAYS: &'static str = "1";

pub const DEFAULT_FSRS_PARAMETERS: &'static str = "0.2120, 1.2931, 2.3065, 8.2956, 6.4133, 0.8334, 3.0194, 0.0010, 1.8722, 0.1666, 0.7960, 1.4835, 0.0614, 0.2629, 1.6483, 0.6014, 1.8729, 0.5425, 0.0912, 0.0658, 0.1542";

/// The fields of the deck settings form, as typed.
#[derive(Clone, Debug, Default, PartialEq)]
pub struct DeckSettingsForm {
    pub name: String,
    pub description: String,
    pub new_cards_per_day: String,
    pub review_limit_per_day: String,
    pub micro_session_size: String,
    pub protect_overload: bool,
    pub preserve_stability_on_lapse: bool,
    pub lapse_min_interval: String,
    pub show_timer: bool,
    pub soft_time_reminder: bool,
    pub auto_advance_cards: bool,
    pub soft_time_reminder_secs: String,
    pub auto_reveal_secs: String,
    pub easy_days_enabled: bool,
    pub easy_day_load_factor: String,
    pub easy_days_mask: u8,
    pub fsrs_target_retention: String,
    pub fsrs_optimize_enabled: bool,
    pub fsrs_optimize_after: String,
    pub max_interval_days: String,
    pub min_interval_days: String,
    pub fsrs_parameters: String,
}

/// The text of each field of the form.
pub struct DeckFormView {
    pub name: Seq<char>,
    pub description: Seq<char>,
    pub new_cards_per_day: Seq<char>,
    pub review_limit_per_day: Seq<char>,
    pub micro_session_size: Seq<char>,
    pub protect_overload: bool,
    pub preserve_stability_on_lapse: bool,
    pub lapse_min_interval: Seq<char>,
    pub show_timer: bool,
    pub soft_time_reminder: bool,
    pub auto_advance_cards: bool,
    pub soft_time_reminder_secs: Seq<char>,
    pub auto_reveal_secs: Seq<char>,
    pub easy_days_enabled: bool,
    pub easy_day_load_factor: Seq<char>,
    pub easy_days_mask: u8,
    pub fsrs_target_retention: Seq<char>,
    pub fsrs_optimize_enabled: bool,
    pub fsrs_optimize_after: Seq<char>,
    pub max_interval_days: Seq<char>,
    pub min_interval_days: Seq<char>,
    pub fsrs_parameters: Seq<char>,
}

impl View for DeckSettingsForm {
    type V = DeckFormView;

    open spec fn view(&self) -> DeckFormView {
        DeckFormView {
            name: self.name@,
            description: self.description@,
            new_cards_per_day: self.new_cards_per_day@,
            review_limit_per_day: self.review_limit_per_day@,
            micro_session_size: self.micro_session_size@,
            protect_overload: self.protect_overload,
            preserve_stability_on_lapse: self.preserve_stability_on_lapse,
            lapse_min_interval: self.lapse_min_interval@,
            show_timer: self.show_timer,
            soft_time_reminder: self.soft_time_reminder,
            auto_advance_cards: self.auto_advance_cards,
            soft_time_reminder_secs: self.soft_time_reminder_secs@,
            auto_reveal_secs: self.auto_reveal_secs@,
            easy_days_enabled: self.easy_days_enabled,
            easy_day_load_factor: self.easy_day_load_factor@,
            easy_days_mask: self.easy_days_mask,
            fsrs_target_retention: self.fsrs_target_retention@,
            fsrs_optimize_enabled: self.fsrs_optimize_enabled,
            fsrs_optimize_after: self.fsrs_optimize_after@,
            max_interval_days: self.max_interval_days@,
            min_interval_days: self.min_interval_days@,
            fsrs_parameters: self.fsrs_parameters@,
        }
    }
}

/// The settings of a deck that the form edits, apart from its two
/// fractions.
#[derive(Clone, Debug, PartialEq)]
pub struct DeckSettingsValues {
    pub name: String,
    pub description: Option<String>,
    pub new_cards_per_day: u32,
    pub review_limit_per_day: u32,
    pub micro_session_size: u32,
    pub protect_overload: bool,
    pub preserve_stability_on_lapse: bool,
    pub lapse_min_interval_secs: u32,
    pub show_timer: bool,
    pub soft_time_reminder: bool,
    pub auto_advance_cards: bool,
    pub soft_time_reminder_secs: u32,
    pub auto_reveal_secs: u32,
    pub easy_days_enabled: bool,
    pub easy_days_mask: u8,
    pub fsrs_optimize_enabled: bool,
    pub fsrs_optimize_after: u32,
}

/// The settings with their texts as character sequences.
pub struct DeckValuesView {
    pub name: Seq<char>,
    pub description: Option<Seq<char>>,
    pub new_cards_per_day: u32,
    pub review_limit_per_day: u32,
    pub micro_session_size: u32,
    pub protect_overload: bool,
    pub preserve_stability_on_lapse: bool,
    pub lapse_min_interval_secs: u32,
    pub show_timer: bool,
    pub soft_time_reminder: bool,
    pub auto_advance_cards: bool,
    pub soft_time_reminder_secs: u32,
    pub auto_reveal_secs: u32,
    pub easy_days_enabled: bool,
    pub easy_days_mask: u8,
    pub fsrs_optimize_enabled: bool,
    pub fsrs_optimize_after: u32,
}

impl View for DeckSettingsValues {
    type V = DeckValuesView;

    open spec fn view(&self) -> DeckValuesView {
        DeckValuesView {
            name: self.name@,
            description: opt_string_view(self.description),
            new_cards_per_day: self.new_cards_per_day,
            review_limit_per_day: self.review_limit_per_day,
            micro_session_size: self.micro_session_size,
            protect_overload: self.protect_overload,
            preserve_stability_on_lapse: self.preserve_stability_on_lapse,
            lapse_min_interval_secs: self.lapse_min_interval_secs,
            show_timer: self.show_timer,
            soft_time_reminder: self.soft_time_reminder,
            auto_advance_cards: self.auto_advance_cards,
            soft_time_reminder_secs: self.soft_time_reminder_secs,
            auto_reveal_secs: self.auto_reveal_secs,
            easy_days_enabled: self.easy_days_enabled,
            easy_days_mask: self.easy_days_mask,
            fsrs_optimize_enabled: self.fsrs_optimize_enabled,
            fsrs_optimize_after: self.fsrs_optimize_after,
        }
    }
}

/// `message` when `bad`, else nothing.
pub open spec fn flag(bad: bool, message: &'static str) -> Option<&'static str> {
    if bad {
        Some(message)
    } else {
        None
    }
}

/// The message under each field: a blank name, a count that is not a whole
/// number above zero, a duration that does not read, a timer outside 5 to
/// 600 seconds, a fraction the application refused, and no easy day picked
/// while easy days are on.
pub open spec fn form_errors(
    f: DeckFormView,
    load_factor_ok: bool,
    retention_ok: bool,
) -> DeckSettingsErrors {
    DeckSettingsErrors {
        name: flag(is_blank(f.name), ERR_NAME_REQUIRED),
        new_cards_per_day: flag(positive_u32(f.new_cards_per_day) is None, ERR_POSITIVE),
        review_limit_per_day: flag(positive_u32(f.review_limit_per_day) is None, ERR_POSITIVE),
        micro_session_size: flag(positive_u32(f.micro_session_size) is None, ERR_POSITIVE),
        lapse_min_interval: flag(lapse_interval_secs(f.lapse_min_interval) is None, ERR_DURATION),
        soft_time_reminder_secs: flag(timer_secs(f.soft_time_reminder_secs) is None, ERR_TIMER),
        auto_reveal_secs: flag(timer_secs(f.auto_reveal_secs) is None, ERR_TIMER),
        easy_day_load_factor: flag(!load_factor_ok, ERR_FRACTION),
        easy_days_mask: flag(f.easy_days_enabled && f.easy_days_mask == 0, ERR_NO_DAYS),
        fsrs_target_retention: flag(!retention_ok, ERR_FRACTION),
        fsrs_optimize_after: flag(positive_u32(f.fsrs_optimize_after) is None, ERR_POSITIVE),
    }
}

/// The settings a form without errors holds: the trimmed name, the trimmed
/// description (none when blank), and the value read from each field.
pub open spec fn form_values(f: DeckFormView) -> DeckValuesView {
    DeckValuesView {
        name: trim(f.name),
        description: optional_text(f.description),
        new_cards_per_day: positive_u32(f.new_cards_per_day).unwrap(),
        review_limit_per_day: positive_u32(f.review_limit_per_day).unwrap(),
        micro_session_size: positive_u32(f.micro_session_size).unwrap(),
        protect_overload: f.protect_overload,
        preserve_stability_on_lapse: f.preserve_stability_on_lapse,
        lapse_min_interval_secs: lapse_interval_secs(f.lapse_min_interval).unwrap(),
        show_timer: f.show_timer,
        soft_time_reminder: f.soft_time_reminder,
        auto_advance_cards: f.auto_advance_cards,
        soft_time_reminder_secs: timer_secs(f.soft_time_reminder_secs).unwrap(),
        auto_reveal_secs: timer_secs(f.auto_reveal_secs).unwrap(),
        easy_days_enabled: f.easy_days_enabled,
        easy_days_mask: f.easy_days_mask,
        fsrs_optimize_enabled: f.fsrs_optimize_enabled,
        fsrs_optimize_after: positive_u32(f.fsrs_optimize_after).unwrap(),
    }
}

fn message_if(bad: bool, message: &'static str) -> (r: Option<&'static str>)
    ensures
        r == flag(bad, message),
{
    if bad {
        Some(message)
    } else {
        None
    }
}

/// Reads the form: its settings when every field is acceptable, else the
/// message under each field that is not. `load_factor_ok` and
/// `retention_ok` tell whether the two fraction fields were acceptable.
pub fn validate_form(form: &DeckSettingsForm, load_factor_ok: bool, retention_ok: bool) -> (r:
    Result<DeckSettingsValues, DeckSettingsErrors>)
    ensures
        match r {
            Ok(values) => !errors_present(form_errors(form@, load_factor_ok, retention_ok))
                && values@ == form_values(form@),
            Err(errors) => errors_present(form_errors(form@, load_factor_ok, retention_ok))
                && errors == form_errors(form@, load_factor_ok, retention_ok),
        },
{
    let new_cards_per_day = parse_positive_u32(form.new_cards_per_day.as_str());
    let review_limit_per_day = parse_positive_u32(form.review_limit_per_day.as_str());
    let micro_session_size = parse_positive_u32(form.micro_session_size.as_str());
    let lapse_min_interval_secs = parse_lapse_interval_secs(form.lapse_min_interval.as_str());
    let soft_time_reminder_secs = parse_timer_secs(form.soft_time_reminder_secs.as_str());
    let auto_reveal_secs = parse_timer_secs(form.auto_reveal_secs.as_str());
    let fsrs_optimize_after = parse_positive_u32(form.fsrs_optimize_after.as_str());
    let errors = DeckSettingsErrors {
        name: message_if(is_blank_str(form.name.as_str()), ERR_NAME_REQUIRED),
        new_cards_per_day: message_if(new_cards_per_day.is_none(), ERR_POSITIVE),
        review_limit_per_day: message_if(review_limit_per_day.is_none(), ERR_POSITIVE),
        micro_session_size: message_if(micro_session_size.is_none(), ERR_POSITIVE),
        lapse_min_interval: message_if(lapse_min_interval_secs.is_none(), ERR_DURATION),
        soft_time_reminder_secs: message_if(soft_time_reminder_secs.is_none(), ERR_TIMER),
        auto_reveal_secs: message_if(auto_reveal_secs.is_none(), ERR_TIMER),
        easy_day_load_factor: message_if(!load_factor_ok, ERR_FRACTION),
        easy_days_mask: message_if(
            form.easy_days_enabled && form.easy_days_mask == 0,
            ERR_NO_DAYS,
        ),
        fsrs_target_retention: message_if(!retention_ok, ERR_FRACTION),
        fsrs_optimize_after: message_if(fsrs_optimize_after.is_none(), ERR_POSITIVE),
    };
    if errors.has_any() {
        return Err(errors);
    }
    Ok(
        DeckSettingsValues {
            name: trim_string(form.name.as_str()),
            description: normalize_description(form.description.as_str()),
            new_cards_per_day: new_cards_per_day.unwrap(),
            review_limit_per_day: review_limit_per_day.unwrap(),
            micro_session_size: micro_session_size.unwrap(),
            protect_overload: form.protect_overload,
            preserve_stability_on_lapse: form.preserve_stability_on_lapse,
            lapse_min_interval_secs: lapse_min_interval_secs.unwrap(),
            show_timer: form.show_timer,
            soft_time_reminder: form.soft_time_reminder,
            auto_advance_cards: form.auto_advance_cards,
            soft_time_reminder_secs: soft_time_reminder_secs.unwrap(),
            auto_reveal_secs: auto_reveal_secs.unwrap(),
            easy_days_enabled: form.easy_days_enabled,
            easy_days_mask: form.easy_days_mask,
            fsrs_optimize_enabled: form.fsrs_optimize_enabled,
            fsrs_optimize_after: fsrs_optimize_after.unwrap(),
        },
    )
}


/// The form filled from stored settings: counts and timers in decimal, the
/// duration in its largest whole unit, the description (empty when there is
/// none), the two fractions as the application shows them, and the usual
/// advanced fields.
pub open spec fn form_from_values(
    v: DeckValuesView,
    load_factor_text: Seq<char>,
    retention_text: Seq<char>,
) -> DeckFormView {
    DeckFormView {
        name: v.name,
        description: match v.description {
            Some(d) => d,
            None => Seq::empty(),
        },
        new_cards_per_day: decimal(v.new_cards_per_day as nat),
        review_limit_per_day: decimal(v.review_limit_per_day as nat),
        micro_session_size: decimal(v.micro_session_size as nat),
        protect_overload: v.protect_overload,
        preserve_stability_on_lapse: v.preserve_stability_on_lapse,
        lapse_min_interval: lapse_interval_text(v.lapse_min_interval_secs),
        show_timer: v.show_timer,
        soft_time_reminder: v.soft_time_reminder,
        auto_advance_cards: v.auto_advance_cards,
        soft_time_reminder_secs: decimal(v.soft_time_reminder_secs as nat),
        auto_reveal_secs: decimal(v.auto_reveal_secs as nat),
        easy_days_enabled: v.easy_days_enabled,
        easy_day_load_factor: load_factor_text,
        easy_days_mask: v.easy_days_mask,
        fsrs_target_retention: retention_text,
        fsrs_optimize_enabled: v.fsrs_optimize_enabled,
        fsrs_optimize_after: decimal(v.fsrs_optimize_after as nat),
        max_interval_days: DEFAULT_MAX_INTERVAL_DAYS@,
        min_interval_days: DEFAULT_MIN_INTERVAL_DAYS@,
        fsrs_parameters: DEFAULT_FSRS_PARAMETERS@,
    }
}

/// The form with the default settings `d` put into every settings field;
/// the name, description and advanced fields stay as they were.
pub open spec fn form_with_defaults(
    f: DeckFormView,
    d: DeckValuesView,
    load_factor_text: Seq<char>,
    retention_text: Seq<char>,
) -> DeckFormView {
    let filled = form_from_values(d, load_factor_text, retention_text);
    DeckFormView {
        name: f.name,
        description: f.description,
        max_interval_days: f.max_interval_days,
        min_interval_days: f.min_interval_days,
        fsrs_parameters: f.fsrs_parameters,
        ..filled
    }
}

fn owned(s: &str) -> (r: String)
    ensures
        r@ == s@,
{
    let mut r = String::new();
    r.append(s);
    r
}

impl DeckSettingsForm {
    /// The settings the form holds, or nothing when a field is not
    /// acceptable.
    pub fn to_values(&self, load_factor_ok: bool, retention_ok: bool) -> (r: Option<
        DeckSettingsValues,
    >)
        ensures
            match r {
                Some(values) => !errors_present(form_errors(self@, load_factor_ok, retention_ok))
                    && values@ == form_values(self@),
                None => errors_present(form_errors(self@, load_factor_ok, retention_ok)),
            },
    {
        match validate_form(self, load_factor_ok, retention_ok) {
            Ok(values) => Some(values),
            Err(_) => None,
        }
    }

    /// The form filled from stored settings; the fractions are given as the
    /// application shows them.
    pub fn from_values(
        values: &DeckSettingsValues,
        easy_day_load_factor: String,
        fsrs_target_retention: String,
    ) -> (r: Self)
        ensures
            r@ == form_from_values(values@, easy_day_load_factor@, fsrs_target_retention@),
    {
        let description = match &values.description {
            Some(d) => d.clone(),
            None => String::new(),
        };
        DeckSettingsForm {
            name: values.name.clone(),
            description,
            new_cards_per_day: u32_to_decimal(values.new_cards_per_day),
            review_limit_per_day: u32_to_decimal(values.review_limit_per_day),
            micro_session_size: u32_to_decimal(values.micro_session_size),
            protect_overload: values.protect_overload,
            preserve_stability_on_lapse: values.preserve_stability_on_lapse,
            lapse_min_interval: format_lapse_interval(values.lapse_min_interval_secs),
            show_timer: values.show_timer,
            soft_time_reminder: values.soft_time_reminder,
            auto_advance_cards: values.auto_advance_cards,
            soft_time_reminder_secs: u32_to_decimal(values.soft_time_reminder_secs),
            auto_reveal_secs: u32_to_decimal(values.auto_reveal_secs),
            easy_days_enabled: values.easy_days_enabled,
            easy_day_load_factor,
            easy_days_mask: values.easy_days_mask,
            fsrs_target_retention,
            fsrs_optimize_enabled: values.fsrs_optimize_enabled,
            fsrs_optimize_after: u32_to_decimal(values.fsrs_optimize_after),
            max_interval_days: owned(DEFAULT_MAX_INTERVAL_DAYS),
            min_interval_days: owned(DEFAULT_MIN_INTERVAL_DAYS),
            fsrs_parameters: owned(DEFAULT_FSRS_PARAMETERS),
        }
    }

    /// Puts the default settings `defaults` into every settings field,
    /// keeping the name, the description and the advanced fields.
    pub fn restore_defaults(
        &mut self,
        defaults: &DeckSettingsValues,
        easy_day_load_factor: String,
        fsrs_target_retention: String,
    )
        ensures
            final(self)@ == form_with_defaults(
                old(self)@,
                defaults@,
                easy_day_load_factor@,
                fsrs_target_retention@,
            ),
    {
        let filled = DeckSettingsForm::from_values(
            defaults,
            easy_day_load_factor,
            fsrs_target_retention,
        );
        self.new_cards_per_day = filled.new_cards_per_day;
        self.review_limit_per_day = filled.review_limit_per_day;
        self.micro_session_size = filled.micro_session_size;
        self.protect_overload = filled.protect_overload;
        self.preserve_stability_on_lapse = filled.preserve_stability_on_lapse;
        self.lapse_min_interval = filled.lapse_min_interval;
        self.show_timer = filled.show_timer;
        self.soft_time_reminder = filled.soft_time_reminder;
        self.auto_advance_cards = filled.auto_advance_cards;
        self.soft_time_reminder_secs = filled.soft_time_reminder_secs;
        self.auto_reveal_secs = filled.auto_reveal_secs;
        self.easy_days_enabled = filled.easy_days_enabled;
        self.easy_day_load_factor = filled.easy_day_load_factor;
        self.easy_days_mask = filled.easy_days_mask;
        self.fsrs_target_retention = filled.fsrs_target_retention;
        self.fsrs_optimize_enabled = filled.fsrs_optimize_enabled;
        self.fsrs_optimize_after = filled.fsrs_optimize_after;
    }
}

/// Settings read from the form, shown in it again and read once more, come
/// back unchanged, and the refilled form has the same messages as the one
/// it came from (only the fraction fields can have any).
pub proof fn lemma_form_round_trip(
    f: DeckFormView,
    load_factor_ok: bool,
    retention_ok: bool,
    load_factor_text: Seq<char>,
    retention_text: Seq<char>,
)
    requires
        !errors_present(form_errors(f, true, true)),
    ensures
        ({
            let g = form_from_values(form_values(f), load_factor_text, retention_text);
            &&& form_values(g) == form_values(f)
            &&& form_errors(g, load_factor_ok, retention_ok) == form_errors(
                f,
                load_factor_ok,
                retention_ok,
            )
        }),
{
    let v = form_values(f);
    let g = form_from_values(v, load_factor_text, retention_text);
    lemma_trim_idempotent(f.name);
    lemma_trim_idempotent(f.description);
    lemma_positive_u32_round_trip(v.new_cards_per_day);
    lemma_positive_u32_round_trip(v.review_limit_per_day);
    lemma_positive_u32_round_trip(v.micro_session_size);
    lemma_positive_u32_round_trip(v.fsrs_optimize_after);
    lemma_lapse_interval_positive(f.lapse_min_interval);
    lemma_lapse_interval_round_trip(v.lapse_min_interval_secs);
    lemma_timer_secs_round_trip(v.soft_time_reminder_secs);
    lemma_timer_secs_round_trip(v.auto_reveal_secs);
    assert(trim(Seq::<char>::empty()) =~= Seq::<char>::empty()) by {
        reveal_with_fuel(crate::text::trim_start, 1);
    }
    assert(form_values(g) =~= form_values(f));
}


/// Where saving the deck settings stands (an error's details are not kept
/// here).
#[derive(Clone, Copy, Debug, PartialEq, Eq)]
pub enum SaveState {
    Idle,
    Saving,
    Saved,
    Error,
}

pub const STATUS_SAVING: &'static str = "Saving...";

pub const STATUS_SAVED: &'static str = "Saved";

pub const STATUS_FAILED: &'static str = "Couldn't save";

pub const STATUS_UNSAVED: &'static str = "Unsaved changes";

/// The status shown beside the save button: the state of a save under way
/// or just finished, else whether the form has unsaved changes.
pub open spec fn status_text(state: SaveState, is_dirty: bool) -> Option<Seq<char>> {
    match state {
        SaveState::Saving => Some(STATUS_SAVING@),
        SaveState::Saved => Some(STATUS_SAVED@),
        SaveState::Error => Some(STATUS_FAILED@),
        SaveState::Idle => if is_dirty {
            Some(STATUS_UNSAVED@)
        } else {
            None
        },
    }
}

/// The status shown beside the save button.
pub fn save_status_label(state: SaveState, is_dirty: bool) -> (r: Option<&'static str>)
    ensures
        match r {
            Some(label) => status_text(state, is_dirty) == Some(label@),
            None => status_text(state, is_dirty) is None,
        },
{
    match state {
        SaveState::Saving => Some(STATUS_SAVING),
        SaveState::Saved => Some(STATUS_SAVED),
        SaveState::Error => Some(STATUS_FAILED),
        SaveState::Idle => if is_dirty {
            Some(STATUS_UNSAVED)
        } else {
            None
        },
    }
}


/// A day offered in the easy-day picker: its short label, its bit in the
/// mask and its full name.
#[derive(Clone, Copy, Debug, PartialEq, Eq)]
pub struct EasyDayOption {
    pub label: &'static str,
    pub bit: u8,
    pub title: &'static str,
}

/// The days of the easy-day picker, Monday first; day `i` is bit `i` of the
/// mask.
pub fn easy_day_options() -> (r: Vec<EasyDayOption>)
    ensures
        r.len() == 7,
        forall|i: int| 0 <= i < 7 ==> #[trigger] r[i].bit == (1u8 << (i as u8)),
        r[0].label@ == "Mon"@ && r[0].title@ == "Monday"@,
        r[1].label@ == "Tue"@ && r[1].title@ == "Tuesday"@,
        r[2].label@ == "Wed"@ && r[2].title@ == "Wednesday"@,
        r[3].label@ == "Thu"@ && r[3].title@ == "Thursday"@,
        r[4].label@ == "Fri"@ && r[4].title@ == "Friday"@,
        r[5].label@ == "Sat"@ && r[5].title@ == "Saturday"@,
        r[6].label@ == "Sun"@ && r[6].title@ == "Sunday"@,
{
    let r = vec![
        EasyDayOption { label: "Mon", bit: 1u8 << 0u8, title: "Monday" },
        EasyDayOption { label: "Tue", bit: 1u8 << 1u8, title: "Tuesday" },
        EasyDayOption { label: "Wed", bit: 1u8 << 2u8, title: "Wednesday" },
        EasyDayOption { label: "Thu", bit: 1u8 << 3u8, title: "Thursday" },
        EasyDayOption { label: "Fri", bit: 1u8 << 4u8, title: "Friday" },
        EasyDayOption { label: "Sat", bit: 1u8 << 5u8, title: "Saturday" },
        EasyDayOption { label: "Sun", bit: 1u8 << 6u8, title: "Sunday" },
    ];
    r
}

/// Whether the day with bit `bit` is picked in `mask`.
pub fn is_easy_day(mask: u8, bit: u8) -> (r: bool)
    ensures
        r == (mask & bit != 0),
{
    mask & bit != 0
}

/// The mask after the day with bit `bit` is clicked: unpicked when it was
/// picked, else picked.
pub open spec fn toggled_mask(mask: u8, bit: u8) -> u8 {
    if mask & bit != 0 {
        mask & !bit
    } else {
        mask | bit
    }
}

impl DeckSettingsForm {
    /// Clicks the day with bit `bit` in the easy-day picker.
    pub fn toggle_easy_day(&mut self, bit: u8)
        ensures
            final(self)@ == (DeckFormView {
                easy_days_mask: toggled_mask(old(self).easy_days_mask, bit),
                ..old(self)@
            }),
    {
        if self.easy_days_mask & bit != 0 {
            self.easy_days_mask = self.easy_days_mask & !bit;
        } else {
            self.easy_days_mask = self.easy_days_mask | bit;
        }
    }
}

/// Clicking a day twice leaves the picked days as they were.
pub proof fn lemma_toggle_day_twice(mask: u8, day: u8)
    requires
        day < 7,
    ensures
        toggled_mask(toggled_mask(mask, (1u8 << day)), (1u8 << day)) == mask,
{
    let bit = 1u8 << day;
    assert(bit != 0 && bit & bit == bit) by (bit_vector)
        requires
            day < 7,
            bit == 1u8 << day,
    ;
    if mask & bit != 0 {
        assert((mask & !bit) & bit == 0 && ((mask & !bit) | bit) == mask) by (bit_vector)
            requires
                mask & bit != 0,
                day < 7,
                bit == 1u8 << day,
        ;
    } else {
        assert((mask | bit) & bit != 0 && ((mask | bit) & !bit) == mask) by (bit_vector)
            requires
                mask & bit == 0,
                day < 7,
                bit == 1u8 << day,
        ;
    }
}

pub const DECK_TITLE_FALLBACK: &'static str = "Deck";

/// The title of the settings page: the name typed (trimmed), or the stored
/// name while the field is blank, or "Deck" before the deck has loaded.
pub open spec fn deck_title_text(form_name: Seq<char>, stored_name: Option<Seq<char>>) -> Seq<char> {
    if !is_blank(form_name) {
        trim(form_name)
    } else {
        match stored_name {
            Some(n) => n,
            None => DECK_TITLE_FALLBACK@,
        }
    }
}

/// The title of the settings page.
pub fn deck_title(form_name: &str, stored_name: Option<&str>) -> (r: String)
    ensures
        r@ == deck_title_text(
            form_name@,
            match stored_name {
                Some(n) => Some(n@),
                None => None,
            },
        ),
{
    if !is_blank_str(form_name) {
        return trim_string(form_name);
    }
    match stored_name {
        Some(n) => owned(n),
        None => owned(DECK_TITLE_FALLBACK),
    }
}

} // verus!
