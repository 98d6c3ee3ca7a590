//! Reading and writing the values of the deck and app settings forms.
use vstd::prelude::*;

use crate::numbers::{
    all_digits, decimal, is_digit, lemma_decimal_digits, lemma_parse_decimal, parse_u32,
    parse_u32_spec, push_decimal,
};
use crate::text::{
    is_blank, is_blank_str, is_ws, push_char, string_from_chars, trim, trim_bounds, trim_end,
    trim_start, trimmed_chars,
};

verus! {

/// Whether `c` is an ASCII letter.
pub open spec fn is_ascii_alpha(c: char) -> bool {
    ('a' <= c && c <= 'z') || ('A' <= c && c <= 'Z')
}

/// `c` with ASCII capitals made small; every other character unchanged.
pub open spec fn ascii_lower(c: char) -> char {
    if 'A' <= c && c <= 'Z' {
        ((c as u32) + 32) as char
    } else {
        c
    }
}

/// `s` with ASCII capitals made small, as `str::to_ascii_lowercase` gives.
pub open spec fn ascii_lower_seq(s: Seq<char>) -> Seq<char> {
    s.map_values(|c: char| ascii_lower(c))
}

fn to_ascii_lower(c: char) -> (r: char)
    ensures
        r == ascii_lower(c),
{
    if 'A' <= c && c <= 'Z' {
        (((c as u8) + 32) as char)
    } else {
        c
    }
}


/// What a count field holds: a whole number above zero (surrounding
/// whitespace allowed).
pub open spec fn positive_u32(value: Seq<char>) -> Option<u32> {
    match parse_u32_spec(trim(value)) {
        Some(n) => if n == 0 {
            None
        } else {
            Some(n)
        },
        None => None,
    }
}

/// Reads a count field: a whole number above zero.
pub fn parse_positive_u32(value: &str) -> (r: Option<u32>)
    ensures
        r == positive_u32(value@),
{
    let t = trimmed_chars(value);
    match parse_u32(t.as_slice()) {
        Some(n) => if n == 0 {
            None
        } else {
            Some(n)
        },
        None => None,
    }
}

/// The shortest and longest timer settings, in seconds.
pub const TIMER_MIN_SECS: u32 = 5;

pub const TIMER_MAX_SECS: u32 = 600;

/// What a timer field holds: a whole number of seconds from 5 to 600.
pub open spec fn timer_secs(value: Seq<char>) -> Option<u32> {
    match parse_u32_spec(trim(value)) {
        Some(n) => if TIMER_MIN_SECS <= n && n <= TIMER_MAX_SECS {
            Some(n)
        } else {
            None
        },
        None => None,
    }
}

/// Reads a timer field: 5 to 600 seconds.
pub fn parse_timer_secs(value: &str) -> (r: Option<u32>)
    ensures
        r == timer_secs(value@),
{
    let t = trimmed_chars(value);
    match parse_u32(t.as_slice()) {
        Some(n) => if TIMER_MIN_SECS <= n && n <= TIMER_MAX_SECS {
            Some(n)
        } else {
            None
        },
        None => None,
    }
}

/// Seconds in one unit of a duration: `s`, `m`, `h` or `d`.
pub open spec fn unit_secs(unit: char) -> Option<u32> {
    if unit == 's' {
        Some(1)
    } else if unit == 'm' {
        Some(60)
    } else if unit == 'h' {
        Some(3600)
    } else if unit == 'd' {
        Some(86400)
    } else {
        None
    }
}

/// What a duration field such as `10m` or `1d` holds, in seconds: a whole
/// number above zero followed by an optional unit letter (`s`, `m`, `h`, `d`,
/// in either case; days when there is none), when the total fits in a `u32`.
pub open spec fn lapse_interval_secs(value: Seq<char>) -> Option<u32> {
    let t = trim(value);
    if t.len() == 0 {
        None
    } else {
        let normalized = ascii_lower_seq(t);
        let last = normalized.last();
        let (number, unit) = if is_ascii_alpha(last) {
            (normalized.drop_last(), last)
        } else {
            (normalized, 'd')
        };
        match parse_u32_spec(trim(number)) {
            Some(amount) => if amount == 0 {
                None
            } else {
                match unit_secs(unit) {
                    Some(k) => if amount * k <= u32::MAX {
                        Some((amount * k) as u32)
                    } else {
                        None
                    },
                    None => None,
                }
            },
            None => None,
        }
    }
}

/// Reads a duration field such as `10m` or `1d` as seconds.
pub fn parse_lapse_interval_secs(value: &str) -> (r: Option<u32>)
    ensures
        r == lapse_interval_secs(value@),
{
    let t = trimmed_chars(value);
    if t.len() == 0 {
        return None;
    }
    let mut normalized: Vec<char> = Vec::new();
    let mut i: usize = 0;
    while i < t.len()
        invariant
            i <= t.len(),
            normalized@ == ascii_lower_seq(t@.take(i as int)),
        decreases t.len() - i,
    {
        normalized.push(to_ascii_lower(t[i]));
        assert(ascii_lower_seq(t@.take(i + 1)) =~= ascii_lower_seq(t@.take(i as int)).push(
            ascii_lower(t@[i as int]),
        ));
        i = i + 1;
    }
    assert(t@.take(t.len() as int) =~= t@);
    let last = normalized[normalized.len() - 1];
    let is_alpha = ('a' <= last && last <= 'z') || ('A' <= last && last <= 'Z');
    let number_len: usize = if is_alpha {
        normalized.len() - 1
    } else {
        normalized.len()
    };
    let unit = if is_alpha {
        last
    } else {
        'd'
    };
    let mut number: Vec<char> = Vec::new();
    let mut k: usize = 0;
    while k < number_len
        invariant
            number_len <= normalized.len(),
            normalized@ == ascii_lower_seq(t@),
            t@ == trim(value@),
            k <= number_len,
            number@ == normalized@.take(k as int),
        decreases number_len - k,
    {
        number.push(normalized[k]);
        assert(normalized@.take(k + 1) =~= normalized@.take(k as int).push(normalized@[k as int]));
        k = k + 1;
    }
    proof {
        if is_alpha {
            assert(number@ =~= normalized@.drop_last());
        } else {
            assert(number@ =~= normalized@);
        }
    }
    let (from, to) = trim_bounds(number.as_slice());
    let mut digits: Vec<char> = Vec::new();
    let mut j: usize = from;
    while j < to
        invariant
            from <= j <= to <= number.len(),
            number@.subrange(from as int, to as int) == trim(number@),
            normalized@ == ascii_lower_seq(t@),
            t@ == trim(value@),
            number@ == (if is_alpha {
                normalized@.drop_last()
            } else {
                normalized@
            }),
            digits@ == number@.subrange(from as int, j as int),
        decreases to - j,
    {
        digits.push(number[j]);
        assert(number@.subrange(from as int, j + 1) =~= number@.subrange(from as int, j as int).push(
            number@[j as int],
        ));
        j = j + 1;
    }
    assert(digits@ == trim(number@));
    assert(normalized@.last() == last);
    let amount = match parse_u32(digits.as_slice()) {
        Some(a) => a,
        None => {
            return None;
        },
    };
    if amount == 0 {
        return None;
    }
    if unit == 's' {
        Some(amount)
    } else if unit == 'm' {
        amount.checked_mul(60)
    } else if unit == 'h' {
        amount.checked_mul(3600)
    } else if unit == 'd' {
        amount.checked_mul(86400)
    } else {
        None
    }
}

/// How a duration in seconds is shown in its field: in the largest of days,
/// hours, minutes or seconds that divides it evenly.
pub open spec fn lapse_interval_text(secs: u32) -> Seq<char> {
    if secs % 86400 == 0 {
        decimal((secs / 86400) as nat).push('d')
    } else if secs % 3600 == 0 {
        decimal((secs / 3600) as nat).push('h')
    } else if secs % 60 == 0 {
        decimal((secs / 60) as nat).push('m')
    } else {
        decimal(secs as nat).push('s')
    }
}

/// Shows a duration in seconds as in `1d`, `3h`, `10m` or `45s`.
pub fn format_lapse_interval(secs: u32) -> (r: String)
    ensures
        r@ == lapse_interval_text(secs),
{
    let mut out = String::new();
    if secs % 86400 == 0 {
        push_decimal(&mut out, secs / 86400);
        push_char(&mut out, 'd');
    } else if secs % 3600 == 0 {
        push_decimal(&mut out, secs / 3600);
        push_char(&mut out, 'h');
    } else if secs % 60 == 0 {
        push_decimal(&mut out, secs / 60);
        push_char(&mut out, 'm');
    } else {
        push_decimal(&mut out, secs);
        push_char(&mut out, 's');
    }
    assert(out@ =~= lapse_interval_text(secs));
    out
}

/// A run of decimal digits is unchanged by trimming and by ASCII
/// lowercasing.
pub proof fn lemma_digits_trim_lower(d: Seq<char>)
    requires
        d.len() > 0,
        all_digits(d),
    ensures
        trim(d) == d,
        ascii_lower_seq(d) == d,
{
    assert(!is_ws(d[0]));
    assert(trim_start(d) == d);
    assert(!is_ws(d.last())) by {
        assert(is_digit(d[d.len() - 1]));
    }
    assert(trim_end(d) == d);
    assert(ascii_lower_seq(d) =~= d) by {
        assert forall|i: int| 0 <= i < d.len() implies ascii_lower_seq(d)[i] == d[i] by {
            assert(is_digit(d[i]));
        }
    }
}

/// A duration shown in its field reads back as the same number of seconds
/// (for any duration above zero; zero is shown as `0d`, which the field
/// refuses).
pub proof fn lemma_lapse_interval_round_trip(secs: u32)
    requires
        secs > 0,
    ensures
        lapse_interval_secs(lapse_interval_text(secs)) == Some(secs),
{
    let (q, unit, k): (u32, char, u32) = if secs % 86400 == 0 {
        ((secs / 86400) as u32, 'd', 86400)
    } else if secs % 3600 == 0 {
        ((secs / 3600) as u32, 'h', 3600)
    } else if secs % 60 == 0 {
        ((secs / 60) as u32, 'm', 60)
    } else {
        (secs, 's', 1)
    };
    assert(q * k == secs);
    assert(q > 0);
    let d = decimal(q as nat);
    lemma_decimal_digits(q as nat);
    lemma_parse_decimal(q);
    let text = d.push(unit);
    assert(text == lapse_interval_text(secs));
    assert(!is_ws(text[0])) by {
        assert(text[0] == d[0]);
        assert(is_digit(d[0]));
    }
    assert(trim_start(text) == text);
    assert(text.last() == unit);
    assert(trim_end(text) == text);
    assert(trim(text) == text);
    lemma_digits_trim_lower(d);
    let normalized = ascii_lower_seq(text);
    assert(normalized =~= ascii_lower_seq(d).push(unit));
    assert(normalized.drop_last() =~= d);
    assert(normalized.last() == unit);
}

/// A duration that reads is above zero.
pub proof fn lemma_lapse_interval_positive(value: Seq<char>)
    ensures
        lapse_interval_secs(value) matches Some(n) ==> n > 0,
{
    let t = trim(value);
    if t.len() > 0 {
        let normalized = ascii_lower_seq(t);
        let last = normalized.last();
        let (number, unit) = if is_ascii_alpha(last) {
            (normalized.drop_last(), last)
        } else {
            (normalized, 'd')
        };
        if let Some(amount) = parse_u32_spec(trim(number)) {
            if let Some(k) = unit_secs(unit) {
                if amount > 0 {
                    assert(amount * k > 0) by (nonlinear_arith)
                        requires
                            amount > 0,
                            k > 0,
                    ;
                }
            }
        }
    }
}

/// What an optional description becomes: trimmed, and none when blank.
pub open spec fn optional_text(value: Seq<char>) -> Option<Seq<char>> {
    if is_blank(value) {
        None
    } else {
        Some(trim(value))
    }
}

/// The view of an optional string.
pub open spec fn opt_string_view(o: Option<String>) -> Option<Seq<char>> {
    match o {
        Some(s) => Some(s@),
        None => None,
    }
}

/// Trims a deck description; a blank one becomes none.
pub fn normalize_description(value: &str) -> (r: Option<String>)
    ensures
        opt_string_view(r) == optional_text(value@),
{
    let t = trimmed_chars(value);
    if t.len() == 0 {
        None
    } else {
        Some(string_from_chars(t.as_slice()))
    }
}

/// Whether a deck name is acceptable: anything but blank.
pub fn is_valid_deck_name(name: &str) -> (r: bool)
    ensures
        r == !is_blank(name@),
{
    !is_blank_str(name)
}

/// The name a new or renamed deck is saved under: the trimmed name, unless
/// it is blank or a save is already under way.
pub open spec fn deck_name_to_save(name: Seq<char>, saving: bool) -> Option<Seq<char>> {
    if is_blank(name) || saving {
        None
    } else {
        Some(trim(name))
    }
}

/// What renaming shows when the name cannot be saved.
pub const RENAME_EMPTY_ERROR: &'static str = "Name cannot be empty.";

/// What renaming shows when the rename fails.
pub const RENAME_FAILED_ERROR: &'static str = "Rename failed. Please try again.";

/// The name to save a new or renamed deck under, if it can be saved now.
pub fn deck_name_for_save(name: &str, saving: bool) -> (r: Option<String>)
    ensures
        match r {
            Some(n) => deck_name_to_save(name@, saving) == Some(n@),
            None => deck_name_to_save(name@, saving) is None,
        },
{
    if !is_valid_deck_name(name) || saving {
        return None;
    }
    Some(string_from_chars(trimmed_chars(name).as_slice()))
}

/// A count shown in its field reads back as the same count.
pub proof fn lemma_positive_u32_round_trip(n: u32)
    requires
        n > 0,
    ensures
        positive_u32(decimal(n as nat)) == Some(n),
{
    lemma_decimal_digits(n as nat);
    lemma_parse_decimal(n);
    lemma_digits_trim_lower(decimal(n as nat));
}

/// A timer setting shown in its field reads back as the same setting.
pub proof fn lemma_timer_secs_round_trip(n: u32)
    requires
        TIMER_MIN_SECS <= n <= TIMER_MAX_SECS,
    ensures
        timer_secs(decimal(n as nat)) == Some(n),
{
    lemma_decimal_digits(n as nat);
    lemma_parse_decimal(n);
    lemma_digits_trim_lower(decimal(n as nat));
}


/// The sections of the deck settings page.
#[derive(Clone, Copy, Debug, PartialEq, Eq)]
pub enum SettingsSection {
    DailyLimits,
    Lapses,
    Fsrs,
    Audio,
    Timers,
    EasyDays,
    Advanced,
}

/// The anchor id of a settings section.
pub open spec fn section_anchor(section: SettingsSection) -> Seq<char> {
    match section {
        SettingsSection::DailyLimits => "settings-daily-limits"@,
        SettingsSection::Lapses => "settings-lapses"@,
        SettingsSection::Fsrs => "settings-fsrs"@,
        SettingsSection::Audio => "settings-audio"@,
        SettingsSection::Timers => "settings-timers"@,
        SettingsSection::EasyDays => "settings-easy-days"@,
        SettingsSection::Advanced => "settings-advanced"@,
    }
}

impl SettingsSection {
    /// The anchor id of this section.
    pub fn anchor_id(self) -> (r: &'static str)
        ensures
            r@ == section_anchor(self),
    {
        match self {
            SettingsSection::DailyLimits => "settings-daily-limits",
            SettingsSection::Lapses => "settings-lapses",
            SettingsSection::Fsrs => "settings-fsrs",
            SettingsSection::Audio => "settings-audio",
            SettingsSection::Timers => "settings-timers",
            SettingsSection::EasyDays => "settings-easy-days",
            SettingsSection::Advanced => "settings-advanced",
        }
    }
}

/// The message shown under each invalid field of the deck settings form.
#[derive(Clone, Debug, Default, PartialEq)]
pub struct DeckSettingsErrors {
    pub name: Option<&'static str>,
    pub new_cards_per_day: Option<&'static str>,
    pub review_limit_per_day: Option<&'static str>,
    pub micro_session_size: Option<&'static str>,
    pub lapse_min_interval: Option<&'static str>,
    pub soft_time_reminder_secs: Option<&'static str>,
    pub auto_reveal_secs: Option<&'static str>,
    pub easy_day_load_factor: Option<&'static str>,
    pub easy_days_mask: Option<&'static str>,
    pub fsrs_target_retention: Option<&'static str>,
    pub fsrs_optimize_after: Option<&'static str>,
}

/// Whether any field of the form has an error.
pub open spec fn errors_present(e: DeckSettingsErrors) -> bool {
    e.name is Some || e.new_cards_per_day is Some || e.review_limit_per_day is Some
        || e.micro_session_size is Some || e.lapse_min_interval is Some
        || e.soft_time_reminder_secs is Some || e.auto_reveal_secs is Some
        || e.easy_day_load_factor is Some || e.easy_days_mask is Some
        || e.fsrs_target_retention is Some || e.fsrs_optimize_after is Some
}

impl DeckSettingsErrors {
    /// Whether any field has an error.
    pub fn has_any(&self) -> (r: bool)
        ensures
            r == errors_present(*self),
    {
        self.name.is_some() || self.new_cards_per_day.is_some()
            || self.review_limit_per_day.is_some() || self.micro_session_size.is_some()
            || self.lapse_min_interval.is_some() || self.soft_time_reminder_secs.is_some()
            || self.auto_reveal_secs.is_some() || self.easy_day_load_factor.is_some()
            || self.easy_days_mask.is_some() || self.fsrs_target_retention.is_some()
            || self.fsrs_optimize_after.is_some()
    }
}


pub const SCROLL_START: &'static str = "document.getElementById('";

pub const SCROLL_END: &'static str = "')?.scrollIntoView({behavior: 'smooth', block: 'start'});";

/// The script that scrolls the settings page to a section.
pub open spec fn scroll_script_text(section: SettingsSection) -> Seq<char> {
    SCROLL_START@ + section_anchor(section) + SCROLL_END@
}

/// The script that scrolls the settings page smoothly to `section`.
pub fn scroll_to_section_script(section: SettingsSection) -> (r: String)
    ensures
        r@ == scroll_script_text(section),
{
    let mut out = String::new();
    out.append(SCROLL_START);
    out.append(section.anchor_id());
    out.append(SCROLL_END);
    out
}

} // verus!
