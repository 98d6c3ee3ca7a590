//! Pure decisions of the practice session screen: the timer script, the
//! timer label, where focus goes, and the practice counters.
use vstd::prelude::*;

use crate::numbers::{decimal, push_decimal, push_decimal_usize, u32_to_decimal};
use crate::tags::join;
use crate::text::{chars_of, push_char, str_equals};

verus! {

/// The text that `Debug` writes for a string slice: the text in double
/// quotes, with std's escapes.
pub uninterp spec fn debug_str_text(s: Seq<char>) -> Seq<char>;

/// The lowercase hexadecimal digits.
pub open spec fn hex_digits() -> Seq<char> {
    seq!['0', '1', '2', '3', '4', '5', '6', '7', '8', '9', 'a', 'b', 'c', 'd', 'e', 'f']
}

/// How `Debug` writes one ASCII character inside a string: `"` and `\`
/// behind a backslash; newline, carriage return and tab as `\n`, `\r` and
/// `\t`; the other printable characters as they are; the other control
/// characters as `\u{..}` with their code in lowercase hexadecimal, without
/// leading zeros.
pub open spec fn debug_ascii_char(c: char) -> Seq<char> {
    if c == '"' {
        seq!['\\', '"']
    } else if c == '\\' {
        seq!['\\', '\\']
    } else if c == '\n' {
        seq!['\\', 'n']
    } else if c == '\r' {
        seq!['\\', 'r']
    } else if c == '\t' {
        seq!['\\', 't']
    } else if ' ' <= c && c <= '~' {
        seq![c]
    } else if (c as u32) < 16 {
        seq!['\\', 'u', '{', hex_digits()[c as int], '}']
    } else {
        seq!['\\', 'u', '{', hex_digits()[(c as int) / 16], hex_digits()[(c as int) % 16], '}']
    }
}

/// The characters of `s`, each as `debug_ascii_char` writes it.
pub open spec fn debug_ascii_body(s: Seq<char>) -> Seq<char>
    decreases s.len(),
{
    if s.len() == 0 {
        Seq::empty()
    } else {
        debug_ascii_body(s.drop_last()) + debug_ascii_char(s.last())
    }
}

/// How `Debug` writes an ASCII string: its characters, escaped, in double
/// quotes.
pub open spec fn debug_ascii_text(s: Seq<char>) -> Seq<char> {
    seq!['"'] + debug_ascii_body(s) + seq!['"']
}

/// Whether every character of `s` is ASCII other than NUL.
pub open spec fn is_ascii_without_nul(s: Seq<char>) -> bool {
    forall|k: int| 0 <= k < s.len() ==> 0 < (#[trigger] s[k] as u32) < 128
}

/// Trusted: `format!("{:?}", s)` on a `&str`. The contract names the result
/// `debug_str_text` of the text, and states std's escaping for a text of
/// ASCII characters other than NUL (see `debug_ascii_text`). How other
/// characters are written (NUL, and the printable and escaped characters
/// beyond ASCII) is not restated.
#[verifier::external_body]
fn debug_quoted(s: &str) -> (r: String)
    ensures
        r@ == debug_str_text(s@),
        is_ascii_without_nul(s@) ==> r@ == debug_ascii_text(s@),
{
    format!("{:?}", s)
}

/// How a `bool` is displayed.
pub open spec fn bool_text(b: bool) -> Seq<char> {
    if b {
        BOOL_TRUE@
    } else {
        BOOL_FALSE@
    }
}

pub const BOOL_TRUE: &'static str = "true";

pub const BOOL_FALSE: &'static str = "false";

fn bool_str(b: bool) -> (r: &'static str)
    ensures
        r@ == bool_text(b),
{
    if b {
        BOOL_TRUE
    } else {
        BOOL_FALSE
    }
}

pub const SESSION_TIMER_0: &'static str = "(function() {\n                    const root = document.getElementById(\"session-root\");\n                    const state = window.__learnSessionTimer || (window.__learnSessionTimer = {\n                        key: null,\n                        seconds: 0,\n                        autoFired: false,\n                        id: null,\n                    });\n                    if (!root) {\n                        if (state.id) {\n                            clearInterval(state.id);\n                            state.id = null;\n                        }\n                        state.key = null;\n                        state.seconds = 0;\n                        state.autoFired = false;\n                        return;\n                    }\n                    const key = ";
pub const SESSION_TIMER_1: &'static str = ";\n                    const active = ";
pub const SESSION_TIMER_2: &'static str = ";\n                    const showTimer = ";
pub const SESSION_TIMER_3: &'static str = ";\n                    const softReminder = ";
pub const SESSION_TIMER_4: &'static str = ";\n                    const autoAdvance = ";
pub const SESSION_TIMER_5: &'static str = ";\n                    const softSecs = ";
pub const SESSION_TIMER_6: &'static str = ";\n                    const autoSecs = ";
pub const SESSION_TIMER_7: &'static str = ";\n                    const label = document.getElementById(\"session-timer-label\");\n                    const reminder = document.getElementById(\"session-soft-reminder\");\n                    if (state.key !== key) {\n                        state.key = key;\n                        state.seconds = 0;\n                        state.autoFired = false;\n                    }\n                    const updateUi = () => {\n                        if (label) {\n                            if (showTimer && active) {\n                                const minutes = Math.floor(state.seconds / 60);\n                                const seconds = String(state.seconds % 60).padStart(2, \"0\");\n                                label.textContent = \"Time: \" + minutes + \":\" + seconds;\n                                label.hidden = false;\n                            } else {\n                                label.hidden = true;\n                            }\n                        }\n                        if (reminder) {\n                            const show = softReminder && active && state.seconds >= softSecs;\n                            reminder.hidden = !show;\n                        }\n                    };\n                    updateUi();\n                    if (!active) {\n                        if (state.id) {\n                            clearInterval(state.id);\n                            state.id = null;\n                        }\n                        return;\n                    }\n                    if (!state.id) {\n                        state.id = setInterval(() => {\n                            if (!document.getElementById(\"session-root\")) {\n                                clearInterval(state.id);\n                                state.id = null;\n                                return;\n                            }\n                            state.seconds += 1;\n                            updateUi();\n                            if (autoAdvance && !state.autoFired && state.seconds >= autoSecs) {\n                                state.autoFired = true;\n                                const btn = document.getElementById(\"session-reveal\");\n                                if (btn) btn.click();\n                            }\n                        }, 1000);\n                    }\n                })();";

/// The text of the script that drives the session timer: it resets when the
/// card key changes, ticks once a second while the card is active, shows the
/// `Time: m:ss` label, shows the soft reminder after `soft_secs` seconds and
/// presses the reveal button after `auto_secs` seconds when auto-advance is
/// on. `quoted_key` is the card key as `Debug` writes it.
pub open spec fn session_timer_script_text(
    quoted_key: Seq<char>,
    timer_active: bool,
    show_timer: bool,
    soft_reminder: bool,
    auto_advance: bool,
    soft_secs: u32,
    auto_secs: u32,
) -> Seq<char> {
    SESSION_TIMER_0@
        + quoted_key
        + SESSION_TIMER_1@
        + bool_text(timer_active)
        + SESSION_TIMER_2@
        + bool_text(show_timer)
        + SESSION_TIMER_3@
        + bool_text(soft_reminder)
        + SESSION_TIMER_4@
        + bool_text(auto_advance)
        + SESSION_TIMER_5@
        + decimal(soft_secs as nat)
        + SESSION_TIMER_6@
        + decimal(auto_secs as nat)
        + SESSION_TIMER_7@
}

/// The session timer script for a card key already written in `Debug` form.
pub fn session_timer_script_quoted(
    quoted_key: &str,
    timer_active: bool,
    show_timer: bool,
    soft_reminder: bool,
    auto_advance: bool,
    soft_secs: u32,
    auto_secs: u32,
) -> (r: String)
    ensures
        r@ == session_timer_script_text(
            quoted_key@,
            timer_active,
            show_timer,
            soft_reminder,
            auto_advance,
            soft_secs,
            auto_secs,
        ),
{
    let soft_secs_text = u32_to_decimal(soft_secs);
    let auto_secs_text = u32_to_decimal(auto_secs);
    let mut out = String::new();
    out.append(SESSION_TIMER_0);
    out.append(quoted_key);
    out.append(SESSION_TIMER_1);
    out.append(bool_str(timer_active));
    out.append(SESSION_TIMER_2);
    out.append(bool_str(show_timer));
    out.append(SESSION_TIMER_3);
    out.append(bool_str(soft_reminder));
    out.append(SESSION_TIMER_4);
    out.append(bool_str(auto_advance));
    out.append(SESSION_TIMER_5);
    out.append(soft_secs_text.as_str());
    out.append(SESSION_TIMER_6);
    out.append(auto_secs_text.as_str());
    out.append(SESSION_TIMER_7);
    out
}

/// The session timer script for the card key `timer_key`.
pub fn session_timer_script(
    timer_key: &str,
    timer_active: bool,
    show_timer: bool,
    soft_reminder: bool,
    auto_advance: bool,
    soft_secs: u32,
    auto_secs: u32,
) -> (r: String)
    ensures
        r@ == session_timer_script_text(
            debug_str_text(timer_key@),
            timer_active,
            show_timer,
            soft_reminder,
            auto_advance,
            soft_secs,
            auto_secs,
        ),
        is_ascii_without_nul(timer_key@) ==> debug_str_text(timer_key@) == debug_ascii_text(timer_key@),
{
    let quoted = debug_quoted(timer_key);
    session_timer_script_quoted(
        quoted.as_str(),
        timer_active,
        show_timer,
        soft_reminder,
        auto_advance,
        soft_secs,
        auto_secs,
    )
}

pub const TIME_PREFIX: &'static str = "Time: ";

/// Seconds below a minute written with two digits, as `{:02}` does.
pub open spec fn two_digits(n: nat) -> Seq<char> {
    if n < 10 {
        seq!['0'] + decimal(n)
    } else {
        decimal(n)
    }
}

/// The timer label for an elapsed time: `Time: m:ss`.
pub open spec fn timer_label(seconds: u32) -> Seq<char> {
    TIME_PREFIX@ + decimal((seconds / 60) as nat) + seq![':'] + two_digits((seconds % 60) as nat)
}

/// The timer label `Time: m:ss` for `seconds` elapsed.
pub fn format_timer(seconds: u32) -> (r: String)
    ensures
        r@ == timer_label(seconds),
{
    let minutes = seconds / 60;
    let remainder = seconds % 60;
    let mut out = String::new();
    out.append(TIME_PREFIX);
    push_decimal(&mut out, minutes);
    push_char(&mut out, ':');
    if remainder < 10 {
        push_char(&mut out, '0');
    }
    push_decimal(&mut out, remainder);
    assert(out@ =~= timer_label(seconds));
    out
}

/// The phase of the card being practised.
#[derive(Clone, Copy, Debug, PartialEq, Eq)]
pub enum SessionPhase {
    Prompt,
    Answer,
}

/// Which ways to go on are offered once a session is complete.
#[derive(Clone, Copy, Debug, PartialEq, Eq)]
pub struct CompletionFlags {
    pub can_practice_again: bool,
    pub can_practice_all: bool,
    pub can_practice_mistakes: bool,
}

pub const FOCUS_QUIT: &'static str = "session-quit";

pub const FOCUS_REVEAL: &'static str = "session-reveal";

pub const FOCUS_GRADE_AGAIN: &'static str = "session-grade-again";

pub const FOCUS_GRADE_HARD: &'static str = "session-grade-hard";

pub const FOCUS_GRADE_GOOD: &'static str = "session-grade-good";

pub const FOCUS_GRADE_EASY: &'static str = "session-grade-easy";

pub const FOCUS_COMPLETE_PRIMARY: &'static str = "session-complete-primary";

pub const FOCUS_COMPLETE_ALL: &'static str = "session-complete-all";

pub const FOCUS_COMPLETE_MISTAKES: &'static str = "session-complete-mistakes";

pub const FOCUS_COMPLETE_SECONDARY: &'static str = "session-complete-secondary";

/// The element that gets focus: on completion the first offered way to go
/// on (again, all, mistakes, else the secondary action); otherwise the
/// reveal button on a prompt, the first grade button on an answer, and the
/// quit button when there is no card.
pub open spec fn focus_target(
    completed: bool,
    completion: CompletionFlags,
    phase: Option<SessionPhase>,
) -> Seq<char> {
    if completed {
        if completion.can_practice_again {
            FOCUS_COMPLETE_PRIMARY@
        } else if completion.can_practice_all {
            FOCUS_COMPLETE_ALL@
        } else if completion.can_practice_mistakes {
            FOCUS_COMPLETE_MISTAKES@
        } else {
            FOCUS_COMPLETE_SECONDARY@
        }
    } else {
        match phase {
            Some(SessionPhase::Prompt) => FOCUS_REVEAL@,
            Some(SessionPhase::Answer) => FOCUS_GRADE_AGAIN@,
            None => FOCUS_QUIT@,
        }
    }
}

/// The id of the element that should have focus.
pub fn focus_target_for_phase(
    completed: bool,
    completion: CompletionFlags,
    phase: Option<SessionPhase>,
) -> (r: &'static str)
    ensures
        r@ == focus_target(completed, completion, phase),
{
    if completed {
        return if completion.can_practice_again {
            FOCUS_COMPLETE_PRIMARY
        } else if completion.can_practice_all {
            FOCUS_COMPLETE_ALL
        } else if completion.can_practice_mistakes {
            FOCUS_COMPLETE_MISTAKES
        } else {
            FOCUS_COMPLETE_SECONDARY
        };
    }
    match phase {
        Some(SessionPhase::Prompt) => FOCUS_REVEAL,
        Some(SessionPhase::Answer) => FOCUS_GRADE_AGAIN,
        None => FOCUS_QUIT,
    }
}

/// The elements that Tab cycles through, in order: quit first, then the
/// offered completion actions, or the reveal button, or the grade buttons.
pub open spec fn focus_cycle(
    completed: bool,
    completion: CompletionFlags,
    phase: Option<SessionPhase>,
) -> Seq<Seq<char>> {
    if completed {
        if completion.can_practice_again {
            seq![
                FOCUS_QUIT@,
                FOCUS_COMPLETE_PRIMARY@,
                FOCUS_COMPLETE_ALL@,
                FOCUS_COMPLETE_MISTAKES@,
                FOCUS_COMPLETE_SECONDARY@,
            ]
        } else if completion.can_practice_all {
            seq![
                FOCUS_QUIT@,
                FOCUS_COMPLETE_ALL@,
                FOCUS_COMPLETE_MISTAKES@,
                FOCUS_COMPLETE_SECONDARY@,
            ]
        } else if completion.can_practice_mistakes {
            seq![FOCUS_QUIT@, FOCUS_COMPLETE_MISTAKES@, FOCUS_COMPLETE_SECONDARY@]
        } else {
            seq![FOCUS_QUIT@, FOCUS_COMPLETE_SECONDARY@]
        }
    } else {
        match phase {
            Some(SessionPhase::Prompt) => seq![FOCUS_QUIT@, FOCUS_REVEAL@],
            Some(SessionPhase::Answer) => seq![
                FOCUS_QUIT@,
                FOCUS_GRADE_AGAIN@,
                FOCUS_GRADE_HARD@,
                FOCUS_GRADE_GOOD@,
                FOCUS_GRADE_EASY@,
            ],
            None => seq![FOCUS_QUIT@],
        }
    }
}

/// The element that gets focus is always one that Tab cycles through.
pub proof fn lemma_focus_target_in_cycle(
    completed: bool,
    completion: CompletionFlags,
    phase: Option<SessionPhase>,
)
    ensures
        focus_cycle(completed, completion, phase).contains(
            focus_target(completed, completion, phase),
        ),
{
    let cycle = focus_cycle(completed, completion, phase);
    let target = focus_target(completed, completion, phase);
    if completed || phase is Some {
        assert(cycle[1] == target);
    } else {
        assert(cycle[0] == target);
    }
}

/// The views of a list of string slices.
pub open spec fn strs_view(v: Seq<&'static str>) -> Seq<Seq<char>> {
    v.map_values(|s: &'static str| s@)
}

/// The ids of the elements that Tab cycles through, in order.
pub fn focus_cycle_ids_for_phase(
    completed: bool,
    completion: CompletionFlags,
    phase: Option<SessionPhase>,
) -> (r: Vec<&'static str>)
    ensures
        strs_view(r@) == focus_cycle(completed, completion, phase),
{
    let r: Vec<&'static str> = if completed {
        if completion.can_practice_again {
            vec![
                FOCUS_QUIT,
                FOCUS_COMPLETE_PRIMARY,
                FOCUS_COMPLETE_ALL,
                FOCUS_COMPLETE_MISTAKES,
                FOCUS_COMPLETE_SECONDARY,
            ]
        } else if completion.can_practice_all {
            vec![FOCUS_QUIT, FOCUS_COMPLETE_ALL, FOCUS_COMPLETE_MISTAKES, FOCUS_COMPLETE_SECONDARY]
        } else if completion.can_practice_mistakes {
            vec![FOCUS_QUIT, FOCUS_COMPLETE_MISTAKES, FOCUS_COMPLETE_SECONDARY]
        } else {
            vec![FOCUS_QUIT, FOCUS_COMPLETE_SECONDARY]
        }
    } else {
        match phase {
            Some(SessionPhase::Prompt) => vec![FOCUS_QUIT, FOCUS_REVEAL],
            Some(SessionPhase::Answer) => vec![
                FOCUS_QUIT,
                FOCUS_GRADE_AGAIN,
                FOCUS_GRADE_HARD,
                FOCUS_GRADE_GOOD,
                FOCUS_GRADE_EASY,
            ],
            None => vec![FOCUS_QUIT],
        }
    };
    assert(strs_view(r@) =~= focus_cycle(completed, completion, phase));
    r
}

/// How many cards a deck offers to practise.
#[derive(Clone, Copy, Debug, Default, PartialEq, Eq)]
pub struct PracticeCounts {
    pub total: u32,
    pub due: u32,
    pub new_count: u32,
    pub mistakes: u32,
}

impl PracticeCounts {
    /// Whether any card is due or new.
    pub fn has_pending(self) -> (r: bool)
        ensures
            r == (self.due > 0 || self.new_count > 0),
    {
        self.due > 0 || self.new_count > 0
    }

    /// Whether the deck has any card.
    pub fn has_any(self) -> (r: bool)
        ensures
            r == (self.total > 0),
    {
        self.total > 0
    }

    /// Whether any card is being relearnt after a mistake.
    pub fn has_mistakes(self) -> (r: bool)
        ensures
            r == (self.mistakes > 0),
    {
        self.mistakes > 0
    }
}

/// The badge letter for a deck: its first character, or `?` for an empty
/// name.
pub open spec fn deck_initial_text(name: Seq<char>) -> Seq<char> {
    if name.len() == 0 {
        seq!['?']
    } else {
        seq![name[0]]
    }
}

/// The badge letter for the deck called `name`.
pub fn deck_initial(name: &str) -> (r: String)
    ensures
        r@ == deck_initial_text(name@),
{
    let chars = chars_of(name);
    let mut out = String::new();
    if chars.len() == 0 {
        push_char(&mut out, '?');
    } else {
        push_char(&mut out, chars[0]);
    }
    assert(out@ =~= deck_initial_text(name@));
    out
}

/// Which ways to go on a finished session offers, given the deck's counts
/// (all but "practise all" are offered while the counts are unknown).
pub open spec fn completion_flags_for(counts: Option<PracticeCounts>) -> CompletionFlags {
    match counts {
        Some(c) => CompletionFlags {
            can_practice_again: c.due > 0 || c.new_count > 0,
            can_practice_all: c.total > 0,
            can_practice_mistakes: c.mistakes > 0,
        },
        None => CompletionFlags {
            can_practice_again: true,
            can_practice_all: false,
            can_practice_mistakes: true,
        },
    }
}

/// Which ways to go on a finished session offers.
pub fn completion_flags(counts: Option<PracticeCounts>) -> (r: CompletionFlags)
    ensures
        r == completion_flags_for(counts),
{
    match counts {
        Some(c) => CompletionFlags {
            can_practice_again: c.has_pending(),
            can_practice_all: c.has_any(),
            can_practice_mistakes: c.has_mistakes(),
        },
        None => CompletionFlags {
            can_practice_again: true,
            can_practice_all: false,
            can_practice_mistakes: true,
        },
    }
}

/// The timer options of a deck.
#[derive(Clone, Copy, Debug, Default, PartialEq, Eq)]
pub struct TimerSettings {
    pub show_timer: bool,
    pub soft_time_reminder: bool,
    pub auto_advance_cards: bool,
    pub soft_time_reminder_secs: u32,
    pub auto_reveal_secs: u32,
}

impl TimerSettings {
    /// Whether any timer feature is on.
    pub fn timer_enabled(&self) -> (r: bool)
        ensures
            r == (self.show_timer || self.soft_time_reminder || self.auto_advance_cards),
    {
        self.show_timer || self.soft_time_reminder || self.auto_advance_cards
    }

    /// Whether the timer runs: a timer feature is on, the session has loaded,
    /// it is not finished, and a prompt is showing.
    pub fn timer_active(&self, ready: bool, completed: bool, phase: Option<SessionPhase>) -> (r:
        bool)
        ensures
            r == ((self.show_timer || self.soft_time_reminder || self.auto_advance_cards) && ready
                && !completed && phase == Some(SessionPhase::Prompt)),
    {
        let on_prompt = match phase {
            Some(SessionPhase::Prompt) => true,
            _ => false,
        };
        self.timer_enabled() && ready && !completed && on_prompt
    }
}

/// The key that resets the timer: whether the session is finished (`1` or
/// `0`) and the card position, as `completed:index`.
pub open spec fn timer_key_text(completed: bool, current_index: usize) -> Seq<char> {
    seq![if completed {
        '1'
    } else {
        '0'
    }] + seq![':'] + decimal(current_index as nat)
}

/// The key that resets the session timer.
pub fn timer_key(completed: bool, current_index: usize) -> (r: String)
    ensures
        r@ == timer_key_text(completed, current_index),
{
    let mut out = String::new();
    push_char(&mut out, if completed {
        '1'
    } else {
        '0'
    });
    push_char(&mut out, ':');
    push_decimal_usize(&mut out, current_index);
    assert(out@ =~= timer_key_text(completed, current_index));
    out
}

pub const PROGRESS_SEPARATOR: &'static str = " / ";

pub const PROGRESS_SUFFIX: &'static str = " Cards";

/// The progress label `current / total Cards`.
pub open spec fn progress_label_text(current: usize, total: usize) -> Seq<char> {
    decimal(current as nat) + PROGRESS_SEPARATOR@ + decimal(total as nat) + PROGRESS_SUFFIX@
}

/// The progress label of the session footer.
pub fn progress_label(current: usize, total: usize) -> (r: String)
    ensures
        r@ == progress_label_text(current, total),
{
    let mut out = String::new();
    push_decimal_usize(&mut out, current);
    out.append(PROGRESS_SEPARATOR);
    push_decimal_usize(&mut out, total);
    out.append(PROGRESS_SUFFIX);
    out
}

pub const DUE_PREFIX: &'static str = "Due: ";

pub const DUE_UNKNOWN: &'static str = "Due: --";

/// The label of the number of due cards, `--` while unknown.
pub open spec fn due_label_text(due: Option<u32>) -> Seq<char> {
    match due {
        Some(n) => DUE_PREFIX@ + decimal(n as nat),
        None => DUE_UNKNOWN@,
    }
}

/// The due-cards label of the session footer.
pub fn due_label(due: Option<u32>) -> (r: String)
    ensures
        r@ == due_label_text(due),
{
    let mut out = String::new();
    match due {
        Some(n) => {
            out.append(DUE_PREFIX);
            push_decimal(&mut out, n);
        },
        None => {
            out.append(DUE_UNKNOWN);
        },
    }
    out
}

pub const TAG_PREFIX: &'static str = "Tag: ";

pub const DECK_TAG_SEPARATOR: &'static str = " \u{b7} Tag: ";

/// The session's context line: the deck name and the practised tag, each
/// when known.
pub open spec fn context_label_text(deck: Option<Seq<char>>, tag: Option<Seq<char>>) -> Seq<char> {
    match (deck, tag) {
        (Some(d), Some(t)) => d + DECK_TAG_SEPARATOR@ + t,
        (Some(d), None) => d,
        (None, Some(t)) => TAG_PREFIX@ + t,
        (None, None) => Seq::empty(),
    }
}

/// The view of an optional string slice.
pub open spec fn opt_str_view(o: Option<&str>) -> Option<Seq<char>> {
    match o {
        Some(s) => Some(s@),
        None => None,
    }
}

/// The session's context line.
pub fn context_label(deck: Option<&str>, tag: Option<&str>) -> (r: String)
    ensures
        r@ == context_label_text(opt_str_view(deck), opt_str_view(tag)),
{
    let mut out = String::new();
    match (deck, tag) {
        (Some(d), Some(t)) => {
            out.append(d);
            out.append(DECK_TAG_SEPARATOR);
            out.append(t);
        },
        (Some(d), None) => {
            out.append(d);
        },
        (None, Some(t)) => {
            out.append(TAG_PREFIX);
            out.append(t);
        },
        (None, None) => {
            assert(out@ =~= Seq::<char>::empty());
        },
    }
    out
}

pub const EMPTY_SESSION_CAUGHT_UP: &'static str = "All caught up. No cards due right now.";

pub const EMPTY_SESSION_NO_CARDS: &'static str = "No cards available yet. Add some cards first.";

/// What an empty session says: caught up when the deck has cards, else
/// that there are none yet.
pub fn empty_session_message(has_any_cards: bool) -> (r: &'static str)
    ensures
        r@ == (if has_any_cards {
            EMPTY_SESSION_CAUGHT_UP@
        } else {
            EMPTY_SESSION_NO_CARDS@
        }),
{
    if has_any_cards {
        EMPTY_SESSION_CAUGHT_UP
    } else {
        EMPTY_SESSION_NO_CARDS
    }
}

/// How well a card was remembered.
#[derive(Clone, Copy, Debug, PartialEq, Eq)]
pub enum Grade {
    Again,
    Hard,
    Good,
    Easy,
}

/// The style class of a grade button.
pub open spec fn grade_class(grade: Grade) -> Seq<char> {
    match grade {
        Grade::Again => "session-grade session-grade--again"@,
        Grade::Hard => "session-grade session-grade--hard"@,
        Grade::Good => "session-grade session-grade--good"@,
        Grade::Easy => "session-grade session-grade--easy"@,
    }
}

/// The element id of a grade button.
pub open spec fn grade_id(grade: Grade) -> Seq<char> {
    match grade {
        Grade::Again => FOCUS_GRADE_AGAIN@,
        Grade::Hard => FOCUS_GRADE_HARD@,
        Grade::Good => FOCUS_GRADE_GOOD@,
        Grade::Easy => FOCUS_GRADE_EASY@,
    }
}

/// The style class and element id of a grade button.
pub fn grade_button_variant(grade: Grade) -> (r: (&'static str, &'static str))
    ensures
        r.0@ == grade_class(grade),
        r.1@ == grade_id(grade),
{
    match grade {
        Grade::Again => ("session-grade session-grade--again", FOCUS_GRADE_AGAIN),
        Grade::Hard => ("session-grade session-grade--hard", FOCUS_GRADE_HARD),
        Grade::Good => ("session-grade session-grade--good", FOCUS_GRADE_GOOD),
        Grade::Easy => ("session-grade session-grade--easy", FOCUS_GRADE_EASY),
    }
}

/// A key press on the session screen, as far as the screen tells keys
/// apart: Tab, Escape, the space bar, a character key, or another key.
#[derive(Clone, Debug, PartialEq, Eq)]
pub enum SessionKey {
    Tab,
    Escape,
    Space,
    Character(String),
    Other,
}

/// What the session screen does with a key press.
#[derive(Clone, Copy, Debug, PartialEq, Eq)]
pub enum SessionKeyAction {
    /// Move focus to the next (or, backwards, the previous) control.
    CycleFocus(bool),
    /// Leave the session for the practice page.
    LeavePractice,
    /// Show the answer.
    Reveal,
    /// Grade the card.
    Grade(Grade),
    /// Nothing.
    Ignore,
}

/// The grade a character key gives: `1` to `4` for again, hard, good, easy.
pub open spec fn grade_for_key(value: Seq<char>) -> Option<Grade> {
    if value == seq!['1'] {
        Some(Grade::Again)
    } else if value == seq!['2'] {
        Some(Grade::Hard)
    } else if value == seq!['3'] {
        Some(Grade::Good)
    } else if value == seq!['4'] {
        Some(Grade::Easy)
    } else {
        None
    }
}

/// The session screen's response to a key: Tab cycles focus (backwards
/// with Shift), Escape leaves; with a card showing, the space bar reveals
/// the answer on a prompt, and on an answer the keys `1` to `4` grade it.
pub open spec fn session_key_response(
    key: SessionKey,
    shift: bool,
    has_card: bool,
    phase: Option<SessionPhase>,
) -> SessionKeyAction {
    match key {
        SessionKey::Tab => SessionKeyAction::CycleFocus(shift),
        SessionKey::Escape => SessionKeyAction::LeavePractice,
        _ => if !has_card {
            SessionKeyAction::Ignore
        } else {
            match key {
                SessionKey::Space => if phase == Some(SessionPhase::Prompt) {
                    SessionKeyAction::Reveal
                } else {
                    SessionKeyAction::Ignore
                },
                SessionKey::Character(v) => if phase == Some(SessionPhase::Answer) {
                    match grade_for_key(v@) {
                        Some(g) => SessionKeyAction::Grade(g),
                        None => SessionKeyAction::Ignore,
                    }
                } else {
                    SessionKeyAction::Ignore
                },
                _ => SessionKeyAction::Ignore,
            }
        },
    }
}

fn grade_for_key_exec(value: &str) -> (r: Option<Grade>)
    ensures
        r == grade_for_key(value@),
{
    let v = chars_of(value);
    if v.len() != 1 {
        proof {
            if value@ == seq!['1'] || value@ == seq!['2'] || value@ == seq!['3'] || value@ == seq![
                '4',
            ] {
                assert(value@.len() == 1);
            }
        }
        return None;
    }
    let c = v[0];
    assert(value@ =~= seq![c]);
    if c == '1' {
        Some(Grade::Again)
    } else if c == '2' {
        Some(Grade::Hard)
    } else if c == '3' {
        Some(Grade::Good)
    } else if c == '4' {
        Some(Grade::Easy)
    } else {
        proof {
            assert(seq![c][0] == c);
            if seq![c] == seq!['1'] {
                assert(seq!['1'][0] == '1');
            }
            if seq![c] == seq!['2'] {
                assert(seq!['2'][0] == '2');
            }
            if seq![c] == seq!['3'] {
                assert(seq!['3'][0] == '3');
            }
            if seq![c] == seq!['4'] {
                assert(seq!['4'][0] == '4');
            }
        }
        None
    }
}

/// What the session screen does with a key press.
pub fn session_key_action(
    key: &SessionKey,
    shift: bool,
    has_card: bool,
    phase: Option<SessionPhase>,
) -> (r: SessionKeyAction)
    ensures
        r == session_key_response(*key, shift, has_card, phase),
{
    match key {
        SessionKey::Tab => {
            return SessionKeyAction::CycleFocus(shift);
        },
        SessionKey::Escape => {
            return SessionKeyAction::LeavePractice;
        },
        _ => {},
    }
    if !has_card {
        return SessionKeyAction::Ignore;
    }
    let on_prompt = match phase {
        Some(SessionPhase::Prompt) => true,
        _ => false,
    };
    let on_answer = match phase {
        Some(SessionPhase::Answer) => true,
        _ => false,
    };
    match key {
        SessionKey::Space => if on_prompt {
            SessionKeyAction::Reveal
        } else {
            SessionKeyAction::Ignore
        },
        SessionKey::Character(v) => if on_answer {
            match grade_for_key_exec(v.as_str()) {
                Some(g) => SessionKeyAction::Grade(g),
                None => SessionKeyAction::Ignore,
            }
        } else {
            SessionKeyAction::Ignore
        },
        _ => SessionKeyAction::Ignore,
    }
}

pub const FOCUS_SCRIPT_START: &'static str = "document.getElementById(";

pub const FOCUS_SCRIPT_END: &'static str = ")?.focus();";

/// The script that focuses the element `target`, its id written in `Debug`
/// form.
pub open spec fn focus_script_text(quoted_target: Seq<char>) -> Seq<char> {
    FOCUS_SCRIPT_START@ + quoted_target + FOCUS_SCRIPT_END@
}

/// The script that focuses the element whose id, in `Debug` form, is
/// `quoted_target`.
pub fn focus_element_script_quoted(quoted_target: &str) -> (r: String)
    ensures
        r@ == focus_script_text(quoted_target@),
{
    let mut out = String::new();
    out.append(FOCUS_SCRIPT_START);
    out.append(quoted_target);
    out.append(FOCUS_SCRIPT_END);
    out
}

/// The script that focuses the element `target`.
pub fn focus_element_script(target: &str) -> (r: String)
    ensures
        r@ == focus_script_text(debug_str_text(target@)),
        is_ascii_without_nul(target@) ==> debug_str_text(target@) == debug_ascii_text(target@),
{
    let quoted = debug_quoted(target);
    focus_element_script_quoted(quoted.as_str())
}

pub const FOCUS_CYCLE_0: &'static str = "(function() {\n                        const ids = [";
pub const FOCUS_CYCLE_1: &'static str = "];\n                        if (!ids.length) return;\n                        const active = document.activeElement && document.activeElement.id;\n                        let idx = ids.indexOf(active);\n                        if (idx === -1) idx = 0;\n                        idx = (idx + ";
pub const FOCUS_CYCLE_2: &'static str = " + ids.length) % ids.length;\n                        const next = ids[idx];\n                        const el = document.getElementById(next);\n                        if (el) el.focus();\n                    })();";

pub const ID_LIST_SEPARATOR: &'static str = ", ";

/// The step through the focus cycle: back one with Shift, else on one.
pub open spec fn cycle_delta(backwards: bool) -> Seq<char> {
    if backwards {
        seq!['-', '1']
    } else {
        seq!['1']
    }
}

/// The script that moves focus one step (`delta`) round the controls whose
/// ids, in `Debug` form, are `quoted_ids`.
pub open spec fn focus_cycle_script_text(quoted_ids: Seq<Seq<char>>, backwards: bool) -> Seq<
    char,
> {
    FOCUS_CYCLE_0@ + join(quoted_ids, ID_LIST_SEPARATOR@) + FOCUS_CYCLE_1@ + cycle_delta(backwards)
        + FOCUS_CYCLE_2@
}

/// The ids of `ids`, each in `Debug` form.
pub open spec fn quoted_ids(ids: Seq<&'static str>) -> Seq<Seq<char>> {
    ids.map_values(|s: &'static str| debug_str_text(s@))
}

/// The views of a list of strings.
pub open spec fn string_views(v: Seq<String>) -> Seq<Seq<char>> {
    v.map_values(|s: String| s@)
}

/// The script that moves focus one step round the controls whose ids, in
/// `Debug` form, are `quoted_ids`.
pub fn focus_cycle_script_quoted(quoted_ids: &[String], backwards: bool) -> (r: String)
    ensures
        r@ == focus_cycle_script_text(string_views(quoted_ids@), backwards),
{
    let ghost q = string_views(quoted_ids@);
    let mut out = String::new();
    out.append(FOCUS_CYCLE_0);
    let ghost head = out@;
    let mut i: usize = 0;
    while i < quoted_ids.len()
        invariant
            i <= quoted_ids.len(),
            q == string_views(quoted_ids@),
            out@ == head + join(q.take(i as int), ID_LIST_SEPARATOR@),
        decreases quoted_ids.len() - i,
    {
        let ghost prev = out@;
        if i > 0 {
            out.append(ID_LIST_SEPARATOR);
        }
        out.append(quoted_ids[i].as_str());
        proof {
            let t = q.take(i + 1);
            assert(t.drop_last() =~= q.take(i as int));
            assert(t.last() == quoted_ids@[i as int]@);
            if i == 0 {
                assert(join(q.take(0), ID_LIST_SEPARATOR@) =~= Seq::<char>::empty());
                assert(out@ =~= head + t.last());
            } else {
                assert(out@ =~= prev + ID_LIST_SEPARATOR@ + t.last());
            }
        }
        i = i + 1;
    }
    assert(q.take(quoted_ids.len() as int) =~= q);
    out.append(FOCUS_CYCLE_1);
    if backwards {
        push_char(&mut out, '-');
        push_char(&mut out, '1');
    } else {
        push_char(&mut out, '1');
    }
    out.append(FOCUS_CYCLE_2);
    assert(out@ =~= focus_cycle_script_text(q, backwards));
    out
}

/// The script that moves focus one step round the controls `ids`.
pub fn focus_cycle_script(ids: &[&'static str], backwards: bool) -> (r: String)
    ensures
        r@ == focus_cycle_script_text(quoted_ids(ids@), backwards),
        forall|k: int|
            0 <= k < ids@.len() && is_ascii_without_nul(#[trigger] ids@[k]@) ==> debug_str_text(ids@[k]@)
                == debug_ascii_text(ids@[k]@),
{
    let mut quoted: Vec<String> = Vec::new();
    let mut i: usize = 0;
    while i < ids.len()
        invariant
            i <= ids.len(),
            string_views(quoted@) == quoted_ids(ids@).take(i as int),
            forall|k: int|
                0 <= k < i && is_ascii_without_nul(#[trigger] ids@[k]@) ==> debug_str_text(ids@[k]@)
                    == debug_ascii_text(ids@[k]@),
        decreases ids.len() - i,
    {
        let ghost before = string_views(quoted@);
        quoted.push(debug_quoted(ids[i]));
        assert(string_views(quoted@) =~= before.push(debug_str_text(ids@[i as int]@)));
        assert(quoted_ids(ids@).take(i + 1) =~= quoted_ids(ids@).take(i as int).push(
            debug_str_text(ids@[i as int]@),
        ));
        i = i + 1;
    }
    assert(quoted_ids(ids@).take(ids.len() as int) =~= quoted_ids(ids@));
    focus_cycle_script_quoted(quoted.as_slice(), backwards)
}


pub const STREAK_PREFIX: &'static str = "Streak: ";

pub const STREAK_SUFFIX: &'static str = " \u{1f525}";

/// The streak label: the streak so far (zero before the session starts).
pub open spec fn streak_text(streak: Option<u32>) -> Seq<char> {
    STREAK_PREFIX@ + decimal(
        match streak {
            Some(n) => n as nat,
            None => 0,
        },
    ) + STREAK_SUFFIX@
}

/// The streak label of the session footer.
pub fn streak_label(streak: Option<u32>) -> (r: String)
    ensures
        r@ == streak_text(streak),
{
    let n = match streak {
        Some(n) => n,
        None => 0,
    };
    let mut out = String::new();
    out.append(STREAK_PREFIX);
    push_decimal(&mut out, n);
    out.append(STREAK_SUFFIX);
    out
}

/// Where the button under an empty session leads.
#[derive(Clone, Copy, Debug, PartialEq, Eq)]
pub enum EmptySessionTarget {
    Practice,
    Editor,
}

/// The button under an empty session: back to practice when the deck has
/// cards, else to the editor to add some.
pub fn empty_session_action(has_any_cards: bool) -> (r: (&'static str, EmptySessionTarget))
    ensures
        has_any_cards ==> r.0@ == "Back to Practice"@ && r.1 == EmptySessionTarget::Practice,
        !has_any_cards ==> r.0@ == "Add Cards"@ && r.1 == EmptySessionTarget::Editor,
{
    if has_any_cards {
        ("Back to Practice", EmptySessionTarget::Practice)
    } else {
        ("Add Cards", EmptySessionTarget::Editor)
    }
}

/// The note under a finished session: that nothing is due, when practising
/// again is not offered.
pub fn completion_note(can_practice_again: bool) -> (r: Option<&'static str>)
    ensures
        can_practice_again ==> r is None,
        !can_practice_again ==> (r matches Some(note) && note@ == EMPTY_SESSION_CAUGHT_UP@),
{
    if can_practice_again {
        None
    } else {
        Some(EMPTY_SESSION_CAUGHT_UP)
    }
}

/// Where a finished session leads: its summary when one was written, else
/// back to practice.
#[derive(Clone, Copy, Debug, PartialEq, Eq)]
pub enum CompletionDestination {
    Summary(i64),
    Practice,
}

/// Where a finished session leads, given the summary written for it.
pub fn completion_destination(summary_id: Option<i64>) -> (r: CompletionDestination)
    ensures
        r == (match summary_id {
            Some(id) => CompletionDestination::Summary(id),
            None => CompletionDestination::Practice,
        }),
{
    match summary_id {
        Some(id) => CompletionDestination::Summary(id),
        None => CompletionDestination::Practice,
    }
}

/// The label of the button that leads to a finished session's destination.
pub fn destination_label(destination: CompletionDestination) -> (r: &'static str)
    ensures
        destination is Summary ==> r@ == "View Summary"@,
        destination is Practice ==> r@ == "Back to Practice"@,
{
    match destination {
        CompletionDestination::Summary(_) => "View Summary",
        CompletionDestination::Practice => "Back to Practice",
    }
}

/// The last step the session screen tried, which "Retry" repeats.
#[derive(Clone, Copy, Debug, PartialEq, Eq)]
pub enum LastAction {
    StartSession,
    Answer(Grade),
}

/// What "Retry" does: grade the card again with the grade last tried, or
/// otherwise start the session again.
pub fn retry_action(last: Option<LastAction>) -> (r: LastAction)
    ensures
        r == (match last {
            Some(LastAction::Answer(g)) => LastAction::Answer(g),
            _ => LastAction::StartSession,
        }),
{
    match last {
        Some(LastAction::Answer(g)) => LastAction::Answer(g),
        _ => LastAction::StartSession,
    }
}

/// What focus was last given for: the phase, whether the session was
/// finished, and whether practising again was offered.
#[derive(Clone, Copy, Debug, PartialEq, Eq)]
pub struct FocusMemory {
    pub did_focus: bool,
    pub phase: Option<SessionPhase>,
    pub completed: bool,
    pub can_practice: bool,
}

impl FocusMemory {
    /// Nothing focused yet.
    pub fn new() -> (r: Self)
        ensures
            !r.did_focus,
            r.phase is None,
            !r.completed,
            r.can_practice,
    {
        FocusMemory { did_focus: false, phase: None, completed: false, can_practice: true }
    }

    /// Whether focus must be set again for the screen as it is now (the
    /// first time, or when the phase, completion or the offer to practise
    /// again changed); the screen is remembered.
    pub fn refocus(
        &mut self,
        phase: Option<SessionPhase>,
        completed: bool,
        can_practice: bool,
    ) -> (r: bool)
        ensures
            r == !(old(self).did_focus && old(self).phase == phase && old(self).completed
                == completed && old(self).can_practice == can_practice),
            *final(self) == (if r {
                FocusMemory { did_focus: true, phase, completed, can_practice }
            } else {
                *old(self)
            }),
    {
        let same_phase = match (self.phase, phase) {
            (Some(SessionPhase::Prompt), Some(SessionPhase::Prompt)) => true,
            (Some(SessionPhase::Answer), Some(SessionPhase::Answer)) => true,
            (None, None) => true,
            _ => false,
        };
        if self.did_focus && same_phase && self.completed == completed && self.can_practice
            == can_practice {
            return false;
        }
        self.did_focus = true;
        self.phase = phase;
        self.completed = completed;
        self.can_practice = can_practice;
        true
    }
}

/// How many cards with one tag wait to be practised.
pub struct TagPracticeStat {
    pub name: String,
    pub total: u32,
    pub due: u32,
    pub new: u32,
}

/// The counts of the first entry of `stats` named `tag` (all zero when
/// there is none), with `mistakes` as the number of mistakes.
pub open spec fn tag_counts(stats: Seq<TagPracticeStat>, tag: Seq<char>, mistakes: u32) -> PracticeCounts
    decreases stats.len(),
{
    if stats.len() == 0 {
        PracticeCounts { total: 0, due: 0, new_count: 0, mistakes }
    } else if stats[0].name@ == tag {
        PracticeCounts {
            total: stats[0].total,
            due: stats[0].due,
            new_count: stats[0].new,
            mistakes,
        }
    } else {
        tag_counts(stats.drop_first(), tag, mistakes)
    }
}

/// The practice counts of a session limited to the tag `tag`.
pub fn practice_counts_for_tag(stats: &[TagPracticeStat], tag: &str, mistakes: u32) -> (r:
    PracticeCounts)
    ensures
        r == tag_counts(stats@, tag@, mistakes),
{
    let mut i: usize = 0;
    assert(stats@.skip(0) =~= stats@);
    while i < stats.len()
        invariant
            i <= stats.len(),
            tag_counts(stats@, tag@, mistakes) == tag_counts(stats@.skip(i as int), tag@, mistakes),
        decreases stats.len() - i,
    {
        assert(stats@.skip(i as int)[0] == stats@[i as int]);
        if str_equals(stats[i].name.as_str(), tag) {
            return PracticeCounts {
                total: stats[i].total,
                due: stats[i].due,
                new_count: stats[i].new,
                mistakes,
            };
        }
        assert(stats@.skip(i as int).drop_first() =~= stats@.skip(i + 1));
        i = i + 1;
    }
    PracticeCounts { total: 0, due: 0, new_count: 0, mistakes }
}

/// Where a grade stands among the four, from again (1) to easy (4).
pub open spec fn grade_rank(grade: Grade) -> int {
    match grade {
        Grade::Again => 1,
        Grade::Hard => 2,
        Grade::Good => 3,
        Grade::Easy => 4,
    }
}

/// A key grades a card only on an answer with a card showing, and only as a
/// single digit key: the grade it gives is the one whose rank is its digit,
/// so `1`, `2`, `3` and `4` give again, hard, good and easy, and no two keys
/// give the same grade.
pub proof fn lemma_digit_keys_grade_by_rank(
    key: SessionKey,
    shift: bool,
    has_card: bool,
    phase: Option<SessionPhase>,
)
    ensures
        session_key_response(key, shift, has_card, phase) matches SessionKeyAction::Grade(g) ==> {
            &&& has_card
            &&& phase == Some(SessionPhase::Answer)
            &&& key matches SessionKey::Character(v)
            &&& v@.len() == 1
            &&& grade_rank(g) == (v@[0] as int) - ('0' as int)
        },
{
    match key {
        SessionKey::Character(v) => {
            if v@ == seq!['1'] {
                assert(v@[0] == '1');
            }
            if v@ == seq!['2'] {
                assert(v@[0] == '2');
            }
            if v@ == seq!['3'] {
                assert(v@[0] == '3');
            }
            if v@ == seq!['4'] {
                assert(v@[0] == '4');
            }
        },
        _ => {},
    }
}

/// On an answer with a card showing, each of the keys `1`, `2`, `3` and `4`
/// grades the card: again, hard, good and easy respectively.
pub proof fn lemma_each_digit_key_grades(v: String, shift: bool)
    ensures
        v@ == seq!['1'] ==> session_key_response(SessionKey::Character(v), shift, true, Some(SessionPhase::Answer))
            == SessionKeyAction::Grade(Grade::Again),
        v@ == seq!['2'] ==> session_key_response(SessionKey::Character(v), shift, true, Some(SessionPhase::Answer))
            == SessionKeyAction::Grade(Grade::Hard),
        v@ == seq!['3'] ==> session_key_response(SessionKey::Character(v), shift, true, Some(SessionPhase::Answer))
            == SessionKeyAction::Grade(Grade::Good),
        v@ == seq!['4'] ==> session_key_response(SessionKey::Character(v), shift, true, Some(SessionPhase::Answer))
            == SessionKeyAction::Grade(Grade::Easy),
{
    lemma_digit_keys_grade_by_rank(SessionKey::Character(v), shift, true, Some(SessionPhase::Answer));
    if v@ == seq!['1'] {
        assert(v@[0] == '1');
    }
    if v@ == seq!['2'] {
        assert(v@[0] == '2');
    }
    if v@ == seq!['3'] {
        assert(v@[0] == '3');
    }
    if v@ == seq!['4'] {
        assert(v@[0] == '4');
    }
}

} // verus!
