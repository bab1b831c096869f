//! The focus-time and hours-warning scheduler.
//!
//! Every few seconds the app hands the scheduler the local time and the
//! cached settings. The scheduler decides:
//!   - a focus-time reminder, at most once per configured minute per day;
//!   - an hours-warning check, at or after the configured warning time, at
//!     most once per minute.
//! The app performs what was decided (surfacing the window, emitting events).

use vstd::prelude::*;
use vstd::string::*;

verus! {

// ── "HH:MM" ─────────────────────────────────────────────────────────────────

pub open spec fn is_ascii_digit(c: char) -> bool {
    '0' <= c <= '9'
}

/// The value of a string of decimal digits.
pub open spec fn digits_value(s: Seq<char>) -> nat
    decreases s.len(),
{
    if s.len() == 0 {
        0
    } else {
        digits_value(s.drop_last()) * 10 + ((s.last() as int) - ('0' as int)) as nat
    }
}

/// The digits of an unsigned number: the text without one leading `+`.
pub open spec fn unsigned_digits(s: Seq<char>) -> Seq<char> {
    if s.len() > 0 && s[0] == '+' {
        s.drop_first()
    } else {
        s
    }
}

/// Whether every character is an ASCII digit.
pub open spec fn all_digits(s: Seq<char>) -> bool {
    forall|i: int| 0 <= i < s.len() ==> is_ascii_digit(#[trigger] s[i])
}

/// What `str::parse::<u32>` gives back: an optional `+`, then one or more
/// ASCII digits whose value fits in a `u32`.
pub open spec fn parse_u32_spec(s: Seq<char>) -> Option<nat> {
    let digits = unsigned_digits(s);
    if digits.len() > 0 && all_digits(digits) && digits_value(digits) <= u32::MAX {
        Some(digits_value(digits))
    } else {
        None
    }
}

/// The index of the first `:` in `s`, or its length when there is none.
pub open spec fn colon_index(s: Seq<char>) -> nat
    decreases s.len(),
{
    if s.len() == 0 {
        0
    } else if s[0] == ':' {
        0
    } else {
        1 + colon_index(s.drop_first())
    }
}

/// What `"HH:MM"` parses to: the text before the first `:` and the text
/// after it must each parse as a `u32`, with hours at most 23 and minutes at
/// most 59.
pub open spec fn parse_hhmm_spec(s: Seq<char>) -> Option<(u32, u32)> {
    let k = colon_index(s);
    if k >= s.len() {
        None
    } else {
        match (parse_u32_spec(s.take(k as int)), parse_u32_spec(s.skip(k as int + 1))) {
            (Some(h), Some(m)) => if h <= 23 && m <= 59 {
                Some((h as u32, m as u32))
            } else {
                None
            },
            _ => None,
        }
    }
}

proof fn lemma_colon_index_is(s: Seq<char>, k: int)
    requires
        0 <= k <= s.len(),
        forall|i: int| 0 <= i < k ==> #[trigger] s[i] != ':',
        k == s.len() || s[k] == ':',
    ensures
        colon_index(s) == k,
    decreases k,
{
    if k > 0 {
        let t = s.drop_first();
        assert forall|i: int| 0 <= i < k - 1 implies #[trigger] t[i] != ':' by {
            assert(t[i] == s[i + 1]);
        }
        if k < s.len() {
            assert(t[k - 1] == s[k]);
        }
        lemma_colon_index_is(t, k - 1);
    }
}

/// The value of the decimal digits `s[from..to]`, if they parse as a `u32`
/// of at most `limit`.
fn parse_u32_at_most(s: &str, from: usize, to: usize, limit: u32) -> (r: Option<u32>)
    requires
        from <= to <= s@.len(),
        limit < 1000,
    ensures
        r == (match parse_u32_spec(s@.subrange(from as int, to as int)) {
            Some(v) => if v <= limit {
                Some(v as u32)
            } else {
                None::<u32>
            },
            None => None::<u32>,
        }),
{
    let ghost whole = s@.subrange(from as int, to as int);
    let mut start = from;
    if from < to && s.get_char(from) == '+' {
        start = from + 1;
    }
    let ghost digits = s@.subrange(start as int, to as int);
    assert(digits =~= unsigned_digits(whole));
    if start == to {
        return None;
    }
    let mut acc: u64 = 0;
    let mut i = start;
    while i < to
        invariant
            from <= start <= i <= to <= s@.len(),
            digits == s@.subrange(start as int, to as int),
            whole == s@.subrange(from as int, to as int),
            digits == unsigned_digits(whole),
            forall|j: int| start <= j < i ==> is_ascii_digit(#[trigger] s@[j]),
            acc <= 1000,
            acc == (if digits_value(s@.subrange(start as int, i as int)) < 1000 {
                digits_value(s@.subrange(start as int, i as int))
            } else {
                1000
            }),
        decreases to - i,
    {
        let c = s.get_char(i);
        if !('0' <= c && c <= '9') {
            proof {
                assert(digits[i - start] == c);
                assert(!all_digits(digits));
            }
            return None;
        }
        let d = (c as u64) - ('0' as u64);
        let ghost before = s@.subrange(start as int, i as int);
        let ghost after = s@.subrange(start as int, i + 1);
        assert(after.drop_last() =~= before);
        assert(digits_value(after) == digits_value(before) * 10 + d);
        if acc < 1000 {
            let next = acc * 10 + d;
            acc = if next < 1000 {
                next
            } else {
                1000
            };
        }
        i = i + 1;
    }
    assert(s@.subrange(start as int, to as int) =~= digits);
    if acc <= limit as u64 {
        Some(acc as u32)
    } else {
        None
    }
}

/// Parses `"HH:MM"` into hours and minutes; `None` on anything else.
pub fn parse_hhmm(s: &str) -> (r: Option<(u32, u32)>)
    ensures
        r == parse_hhmm_spec(s@),
{
    let n = s.unicode_len();
    let mut k: usize = 0;
    while k < n && s.get_char(k) != ':'
        invariant
            n == s@.len(),
            k <= n,
            forall|i: int| 0 <= i < k ==> #[trigger] s@[i] != ':',
        decreases n - k,
    {
        k = k + 1;
    }
    proof {
        lemma_colon_index_is(s@, k as int);
    }
    if k == n {
        return None;
    }
    assert(s@.subrange(0, k as int) =~= s@.take(k as int));
    assert(s@.subrange(k + 1, n as int) =~= s@.skip(k + 1));
    let h = parse_u32_at_most(s, 0, k, 23);
    let m = parse_u32_at_most(s, k + 1, n, 59);
    match (h, m) {
        (Some(h), Some(m)) => Some((h, m)),
        _ => None,
    }
}

// ── Ticks ───────────────────────────────────────────────────────────────────

/// A local wall-clock reading: year, day of the year, hour, minute, second.
#[derive(Debug, Clone, Copy)]
pub struct LocalTime {
    pub year: i32,
    pub ordinal: u32,
    pub hour: u32,
    pub minute: u32,
    pub second: u32,
}

/// A minute of a day: year, day of the year, hour, minute.
pub type MinuteKey = (i32, u32, u32, u32);

/// The settings that the scheduler reads.
#[derive(Debug)]
pub struct ScheduleSettings {
    /// `"HH:MM"` times at which to surface a focus reminder.
    pub focus_times: Vec<String>,
    /// `"HH:MM"` time from which to check the day's hours.
    pub warning_time: String,
}

/// What the scheduler remembers between ticks.
#[derive(Debug)]
pub struct SchedulerState {
    /// The focus minutes already fired, all of the current day, none twice
    /// (`new` starts with none, and every tick keeps them distinct).
    pub triggered_focus: Vec<MinuteKey>,
    /// The minute of the last hours-warning check.
    pub last_warning_minute: Option<MinuteKey>,
}

/// What one tick decided.
#[derive(Debug)]
pub struct TickActions {
    /// The configured focus time to surface a reminder for, if any.
    pub focus_trigger: Option<String>,
    /// Whether to check the day's hours now.
    pub hours_warning: bool,
}

pub open spec fn valid_time(t: LocalTime) -> bool {
    t.hour <= 23 && t.minute <= 59 && t.second <= 59
}

pub open spec fn minute_key(t: LocalTime) -> MinuteKey {
    (t.year, t.ordinal, t.hour, t.minute)
}

pub open spec fn seconds_of_day(t: LocalTime) -> int {
    t.hour * 3600 + t.minute * 60 + t.second
}

/// The keys of the given day, in order.
pub open spec fn keys_of_day(keys: Seq<MinuteKey>, year: i32, ordinal: u32) -> Seq<MinuteKey>
    decreases keys.len(),
{
    if keys.len() == 0 {
        Seq::empty()
    } else {
        let rest = keys_of_day(keys.drop_last(), year, ordinal);
        if keys.last().0 == year && keys.last().1 == ordinal {
            rest.push(keys.last())
        } else {
            rest
        }
    }
}

/// The first focus time that names the given hour and minute.
pub open spec fn first_focus_at(times: Seq<Seq<char>>, hour: u32, minute: u32) -> Option<Seq<char>>
    decreases times.len(),
{
    if times.len() == 0 {
        None
    } else {
        match first_focus_at(times.drop_last(), hour, minute) {
            Some(f) => Some(f),
            None => if parse_hhmm_spec(times.last()) == Some((hour, minute)) {
                Some(times.last())
            } else {
                None
            },
        }
    }
}

/// The focus times of the settings, as values.
pub open spec fn focus_view(settings: ScheduleSettings) -> Seq<Seq<char>> {
    settings.focus_times@.map_values(|s: String| s@)
}

/// The scheduler's memory, as values.
pub struct SchedulerView {
    pub triggered: Seq<MinuteKey>,
    pub last_warning: Option<MinuteKey>,
}

impl View for SchedulerState {
    type V = SchedulerView;

    open spec fn view(&self) -> SchedulerView {
        SchedulerView { triggered: self.triggered_focus@, last_warning: self.last_warning_minute }
    }
}

/// A tick's decisions, as values.
pub struct TickView {
    pub focus: Option<Seq<char>>,
    pub hours_warning: bool,
}

impl View for TickActions {
    type V = TickView;

    open spec fn view(&self) -> TickView {
        TickView {
            focus: match self.focus_trigger {
                Some(s) => Some(s@),
                None => None,
            },
            hours_warning: self.hours_warning,
        }
    }
}

/// The focus reminder of a tick: the first focus time at the current
/// minute, unless that minute already fired today.
pub open spec fn focus_decision(kept: Seq<MinuteKey>, times: Seq<Seq<char>>, t: LocalTime) -> Option<
    Seq<char>,
> {
    if kept.contains(minute_key(t)) {
        None
    } else {
        first_focus_at(times, t.hour, t.minute)
    }
}

/// Whether a tick checks the hours: the warning time parses, has been
/// reached, and this minute has not been checked yet.
pub open spec fn warning_decision(
    last: Option<MinuteKey>,
    warning_time: Seq<char>,
    t: LocalTime,
) -> bool {
    match parse_hhmm_spec(warning_time) {
        Some((wh, wm)) => seconds_of_day(t) >= wh * 3600 + wm * 60 && last != Some(minute_key(t)),
        None => false,
    }
}

/// One tick, as values: the new memory and the decisions.
///   - Focus minutes of other days are forgotten, with or without settings.
///   - Without settings nothing else happens.
///   - A fired focus minute is remembered; a checked warning minute is
///     remembered.
pub open spec fn tick_spec(s: SchedulerView, t: LocalTime, settings: Option<(Seq<Seq<char>>, Seq<char>)>) -> (
    SchedulerView,
    TickView,
) {
    let kept = keys_of_day(s.triggered, t.year, t.ordinal);
    match settings {
        None => (
            SchedulerView { triggered: kept, last_warning: s.last_warning },
            TickView { focus: None, hours_warning: false },
        ),
        Some((times, warning_time)) => {
            let focus = focus_decision(kept, times, t);
            let warn = warning_decision(s.last_warning, warning_time, t);
            (
                SchedulerView {
                    triggered: if focus is Some {
                        kept.push(minute_key(t))
                    } else {
                        kept
                    },
                    last_warning: if warn {
                        Some(minute_key(t))
                    } else {
                        s.last_warning
                    },
                },
                TickView { focus, hours_warning: warn },
            )
        },
    }
}

/// The settings of a tick, as values.
pub open spec fn settings_view(settings: Option<&ScheduleSettings>) -> Option<(Seq<Seq<char>>, Seq<char>)> {
    match settings {
        None => None,
        Some(s) => Some((focus_view(*s), s.warning_time@)),
    }
}

fn same_key(a: MinuteKey, b: MinuteKey) -> (r: bool)
    ensures
        r == (a == b),
{
    a.0 == b.0 && a.1 == b.1 && a.2 == b.2 && a.3 == b.3
}

fn contains_key(keys: &Vec<MinuteKey>, key: MinuteKey) -> (r: bool)
    ensures
        r == keys@.contains(key),
{
    let mut i: usize = 0;
    while i < keys.len()
        invariant
            i <= keys@.len(),
            forall|j: int| 0 <= j < i ==> keys@[j] != key,
        decreases keys.len() - i,
    {
        if same_key(keys[i], key) {
            return true;
        }
        i = i + 1;
    }
    false
}

impl SchedulerState {
    /// A scheduler that has fired nothing yet.
    pub fn new() -> (s: SchedulerState)
        ensures
            s@.triggered == Seq::<MinuteKey>::empty(),
            s@.triggered.no_duplicates(),
            s@.last_warning is None,
    {
        SchedulerState { triggered_focus: Vec::new(), last_warning_minute: None }
    }

    /// Forgets the focus minutes of days other than the given one.
    fn forget_other_days(&mut self, year: i32, ordinal: u32)
        ensures
            final(self)@.triggered == keys_of_day(old(self)@.triggered, year, ordinal),
            final(self)@.last_warning == old(self)@.last_warning,
    {
        let mut kept: Vec<MinuteKey> = Vec::new();
        let mut i: usize = 0;
        while i < self.triggered_focus.len()
            invariant
                i <= self.triggered_focus@.len(),
                kept@ == keys_of_day(self.triggered_focus@.take(i as int), year, ordinal),
            decreases self.triggered_focus.len() - i,
        {
            let key = self.triggered_focus[i];
            assert(self.triggered_focus@.take(i + 1).drop_last() =~= self.triggered_focus@.take(
                i as int,
            ));
            if key.0 == year && key.1 == ordinal {
                kept.push(key);
            }
            i = i + 1;
        }
        assert(self.triggered_focus@.take(i as int) =~= self.triggered_focus@);
        self.triggered_focus = kept;
    }

    /// One scheduler tick at local time `now`, with the cached settings
    /// (`None` while they are not loaded yet).
    pub fn tick(&mut self, now: LocalTime, settings: Option<&ScheduleSettings>) -> (actions:
        TickActions)
        requires
            valid_time(now),
        ensures
            (final(self)@, actions@) == tick_spec(old(self)@, now, settings_view(settings)),
            old(self)@.triggered.no_duplicates() ==> final(self)@.triggered.no_duplicates(),
            settings matches Some(st) ==> (parse_hhmm_spec(st.warning_time@) matches Some((wh, wm))
                ==> (old(self)@.last_warning != Some(minute_key(now)) ==> actions.hours_warning
                == (now.hour * 3600 + now.minute * 60 + now.second >= wh * 3600 + wm * 60))),
            settings is None || parse_hhmm_spec(settings->0.warning_time@) is None
                || old(self)@.last_warning == Some(minute_key(now)) ==> !actions.hours_warning,
    {
        proof {
            if old(self)@.triggered.no_duplicates() {
                lemma_tick_keeps_keys_distinct(old(self)@, now, settings_view(settings));
            }
        }
        let year = now.year;
        let day = now.ordinal;
        let hour = now.hour;
        let minute = now.minute;
        let current_secs = hour * 3600 + minute * 60 + now.second;
        let current_key: MinuteKey = (year, day, hour, minute);

        self.forget_other_days(year, day);

        let settings = match settings {
            Some(s) => s,
            None => {
                return TickActions { focus_trigger: None, hours_warning: false };
            },
        };

        let ghost kept = self@.triggered;
        let ghost times = focus_view(*settings);
        let mut focus_trigger: Option<String> = None;
        let mut i: usize = 0;
        while i < settings.focus_times.len()
            invariant
                i <= settings.focus_times@.len(),
                times == focus_view(*settings),
                current_key == minute_key(now),
                hour == now.hour,
                minute == now.minute,
                year == now.year,
                day == now.ordinal,
                kept.contains(current_key) ==> focus_trigger is None && self@.triggered == kept,
                !kept.contains(current_key) ==> {
                    &&& (match focus_trigger {
                        Some(f) => Some(f@),
                        None => None,
                    }) == first_focus_at(times.take(i as int), hour, minute)
                    &&& self@.triggered == (if focus_trigger is Some {
                        kept.push(current_key)
                    } else {
                        kept
                    })
                },
                self@.last_warning == old(self)@.last_warning,
            decreases settings.focus_times.len() - i,
        {
            let focus_time = &settings.focus_times[i];
            assert(times.take(i + 1).drop_last() =~= times.take(i as int));
            assert(times.take(i + 1).last() == focus_time@);
            proof {
                if focus_trigger is Some && !kept.contains(current_key) {
                    assert(self@.triggered.last() == current_key);
                    assert(self@.triggered.contains(current_key));
                }
            }
            match parse_hhmm(focus_time.as_str()) {
                Some((fh, fm)) => {
                    if hour == fh && minute == fm {
                        let key: MinuteKey = (year, day, fh, fm);
                        if !contains_key(&self.triggered_focus, key) {
                            self.triggered_focus.push(key);
                            focus_trigger = Some(focus_time.clone());
                        }
                    }
                },
                None => {},
            }
            i = i + 1;
        }
        assert(times.take(i as int) =~= times);

        let mut hours_warning = false;
        match parse_hhmm(settings.warning_time.as_str()) {
            Some((wh, wm)) => {
                let warning_secs = wh * 3600 + wm * 60;
                if current_secs >= warning_secs {
                    let repeated = match self.last_warning_minute {
                        Some(last) => same_key(last, current_key),
                        None => false,
                    };
                    if !repeated {
                        self.last_warning_minute = Some(current_key);
                        hours_warning = true;
                    }
                }
            },
            None => {},
        }
        TickActions { focus_trigger, hours_warning }
    }
}

// ── Laws of the scheduler ───────────────────────────────────────────────────

/// A tick's input: the local time and the settings, as values.
pub type TickInput = (LocalTime, Option<(Seq<Seq<char>>, Seq<char>)>);

/// The memory after a run of ticks.
pub open spec fn run_ticks(s: SchedulerView, steps: Seq<TickInput>) -> SchedulerView
    decreases steps.len(),
{
    if steps.len() == 0 {
        s
    } else {
        tick_spec(run_ticks(s, steps.drop_last()), steps.last().0, steps.last().1).0
    }
}

/// What the tick at position `i` of a run decides.
pub open spec fn step_actions(s: SchedulerView, steps: Seq<TickInput>, i: int) -> TickView {
    tick_spec(run_ticks(s, steps.take(i)), steps[i].0, steps[i].1).1
}

proof fn lemma_keys_of_day_all(keys: Seq<MinuteKey>, year: i32, ordinal: u32)
    ensures
        forall|i: int|
            0 <= i < keys_of_day(keys, year, ordinal).len() ==> (#[trigger] keys_of_day(
                keys,
                year,
                ordinal,
            )[i]).0 == year && keys_of_day(keys, year, ordinal)[i].1 == ordinal,
    decreases keys.len(),
{
    if keys.len() > 0 {
        lemma_keys_of_day_all(keys.drop_last(), year, ordinal);
        let rest = keys_of_day(keys.drop_last(), year, ordinal);
        let all = keys_of_day(keys, year, ordinal);
        assert forall|i: int| 0 <= i < all.len() implies (#[trigger] all[i]).0 == year
            && all[i].1 == ordinal by {
            if i < rest.len() {
                assert(all[i] == rest[i]);
            }
        }
    }
}

proof fn lemma_keys_of_day_keeps(keys: Seq<MinuteKey>, k: MinuteKey)
    requires
        keys.contains(k),
    ensures
        keys_of_day(keys, k.0, k.1).contains(k),
    decreases keys.len(),
{
    let rest = keys_of_day(keys.drop_last(), k.0, k.1);
    if keys.last() == k {
        assert(keys_of_day(keys, k.0, k.1).last() == k);
    } else {
        let j = choose|j: int| 0 <= j < keys.len() && keys[j] == k;
        assert(keys.drop_last()[j] == k);
        lemma_keys_of_day_keeps(keys.drop_last(), k);
        let w = choose|w: int| 0 <= w < rest.len() && rest[w] == k;
        if keys.last().0 == k.0 && keys.last().1 == k.1 {
            assert(keys_of_day(keys, k.0, k.1)[w] == k);
        }
    }
}

proof fn lemma_keys_of_day_within(keys: Seq<MinuteKey>, year: i32, ordinal: u32, k: MinuteKey)
    requires
        keys_of_day(keys, year, ordinal).contains(k),
    ensures
        keys.contains(k),
    decreases keys.len(),
{
    let rest = keys_of_day(keys.drop_last(), year, ordinal);
    let all = keys_of_day(keys, year, ordinal);
    let w = choose|w: int| 0 <= w < all.len() && all[w] == k;
    if w < rest.len() {
        assert(rest[w] == k);
        lemma_keys_of_day_within(keys.drop_last(), year, ordinal, k);
        let j = choose|j: int| 0 <= j < keys.drop_last().len() && keys.drop_last()[j] == k;
        assert(keys[j] == k);
    } else {
        assert(keys[keys.len() - 1] == k);
    }
}

proof fn lemma_keys_of_day_distinct(keys: Seq<MinuteKey>, year: i32, ordinal: u32)
    requires
        keys.no_duplicates(),
    ensures
        keys_of_day(keys, year, ordinal).no_duplicates(),
    decreases keys.len(),
{
    if keys.len() > 0 {
        let front = keys.drop_last();
        assert(front.no_duplicates()) by {
            assert forall|i: int, j: int| 0 <= i < front.len() && 0 <= j < front.len() && i != j implies front[i]
                != front[j] by {
                assert(front[i] == keys[i] && front[j] == keys[j]);
            }
        }
        lemma_keys_of_day_distinct(front, year, ordinal);
        let rest = keys_of_day(front, year, ordinal);
        if keys.last().0 == year && keys.last().1 == ordinal {
            if rest.contains(keys.last()) {
                lemma_keys_of_day_within(front, year, ordinal, keys.last());
                let j = choose|j: int| 0 <= j < front.len() && front[j] == keys.last();
                assert(keys[j] == keys[keys.len() - 1]);
            }
            let all = rest.push(keys.last());
            assert forall|i: int, j: int| 0 <= i < all.len() && 0 <= j < all.len() && i != j implies all[i]
                != all[j] by {
                if i < rest.len() && j < rest.len() {
                    assert(all[i] == rest[i] && all[j] == rest[j]);
                } else if i < rest.len() {
                    assert(all[i] == rest[i]);
                } else if j < rest.len() {
                    assert(all[j] == rest[j]);
                }
            }
        }
    }
}

proof fn lemma_first_focus_found(times: Seq<Seq<char>>, hour: u32, minute: u32, i: int)
    requires
        0 <= i < times.len(),
        parse_hhmm_spec(times[i]) == Some((hour, minute)),
    ensures
        first_focus_at(times, hour, minute) matches Some(f) && parse_hhmm_spec(f) == Some(
            (hour, minute),
        ),
    decreases times.len(),
{
    if i < times.len() - 1 {
        assert(times.drop_last()[i] == times[i]);
        lemma_first_focus_found(times.drop_last(), hour, minute, i);
    } else {
        lemma_first_focus_parses(times.drop_last(), hour, minute);
    }
}

proof fn lemma_first_focus_parses(times: Seq<Seq<char>>, hour: u32, minute: u32)
    ensures
        first_focus_at(times, hour, minute) matches Some(f) ==> parse_hhmm_spec(f) == Some(
            (hour, minute),
        ),
    decreases times.len(),
{
    if times.len() > 0 {
        lemma_first_focus_parses(times.drop_last(), hour, minute);
    }
}

/// Every tick keeps the remembered focus minutes free of repeats.
pub proof fn lemma_tick_keeps_keys_distinct(
    s: SchedulerView,
    t: LocalTime,
    settings: Option<(Seq<Seq<char>>, Seq<char>)>,
)
    requires
        s.triggered.no_duplicates(),
    ensures
        tick_spec(s, t, settings).0.triggered.no_duplicates(),
{
    let kept = keys_of_day(s.triggered, t.year, t.ordinal);
    lemma_keys_of_day_distinct(s.triggered, t.year, t.ordinal);
    let after = tick_spec(s, t, settings).0.triggered;
    if after != kept {
        assert(after == kept.push(minute_key(t)));
        assert(!kept.contains(minute_key(t)));
        assert forall|i: int, j: int| 0 <= i < after.len() && 0 <= j < after.len() && i != j implies after[i]
            != after[j] by {
            if i < kept.len() && j < kept.len() {
                assert(after[i] == kept[i] && after[j] == kept[j]);
            } else if i < kept.len() {
                assert(after[i] == kept[i]);
            } else if j < kept.len() {
                assert(after[j] == kept[j]);
            }
        }
    }
}

/// A configured focus minute fires on the first tick in it: when a focus
/// time names the tick's hour and minute and that minute has not fired yet,
/// the tick surfaces a reminder for a focus time at that minute and
/// remembers the minute.
pub proof fn lemma_focus_fires_on_first_tick(
    s: SchedulerView,
    t: LocalTime,
    times: Seq<Seq<char>>,
    warning_time: Seq<char>,
    i: int,
)
    requires
        0 <= i < times.len(),
        parse_hhmm_spec(times[i]) == Some((t.hour, t.minute)),
        !s.triggered.contains(minute_key(t)),
    ensures
        tick_spec(s, t, Some((times, warning_time))).1.focus matches Some(f) && parse_hhmm_spec(f)
            == Some((t.hour, t.minute)),
        tick_spec(s, t, Some((times, warning_time))).0.triggered.contains(minute_key(t)),
{
    let kept = keys_of_day(s.triggered, t.year, t.ordinal);
    if kept.contains(minute_key(t)) {
        lemma_keys_of_day_within(s.triggered, t.year, t.ordinal, minute_key(t));
    }
    lemma_first_focus_found(times, t.hour, t.minute, i);
    let after = kept.push(minute_key(t));
    assert(after[kept.len() as int] == minute_key(t));
}

/// After a tick, the scheduler remembers only focus minutes of the tick's
/// day.
pub proof fn lemma_tick_forgets_other_days(
    s: SchedulerView,
    t: LocalTime,
    settings: Option<(Seq<Seq<char>>, Seq<char>)>,
)
    ensures
        forall|i: int|
            0 <= i < tick_spec(s, t, settings).0.triggered.len() ==> (#[trigger] tick_spec(
                s,
                t,
                settings,
            ).0.triggered[i]).0 == t.year && tick_spec(s, t, settings).0.triggered[i].1
                == t.ordinal,
{
    lemma_keys_of_day_all(s.triggered, t.year, t.ordinal);
}

/// A focus minute that the scheduler remembers stays remembered through a
/// tick of the same day.
pub proof fn lemma_tick_keeps_same_day(
    s: SchedulerView,
    t: LocalTime,
    settings: Option<(Seq<Seq<char>>, Seq<char>)>,
    k: MinuteKey,
)
    requires
        s.triggered.contains(k),
        k.0 == t.year,
        k.1 == t.ordinal,
    ensures
        tick_spec(s, t, settings).0.triggered.contains(k),
{
    lemma_keys_of_day_keeps(s.triggered, k);
    let kept = keys_of_day(s.triggered, t.year, t.ordinal);
    let w = choose|w: int| 0 <= w < kept.len() && kept[w] == k;
    assert(kept.push(minute_key(t))[w] == k);
}

/// The hours warning is checked on a tick exactly when the tick is at or
/// after the warning time of day, to the second, and its minute has not
/// been checked yet; every later minute of the day gets its check.
pub proof fn lemma_warning_checked_from_warning_time(
    s: SchedulerView,
    t: LocalTime,
    times: Seq<Seq<char>>,
    warning_time: Seq<char>,
    wh: u32,
    wm: u32,
)
    requires
        valid_time(t),
        parse_hhmm_spec(warning_time) == Some((wh, wm)),
    ensures
        s.last_warning != Some(minute_key(t)) ==> (tick_spec(
            s,
            t,
            Some((times, warning_time)),
        ).1.hours_warning <==> t.hour * 3600 + t.minute * 60 + t.second >= wh * 3600 + wm * 60),
        s.last_warning == Some(minute_key(t)) ==> !tick_spec(
            s,
            t,
            Some((times, warning_time)),
        ).1.hours_warning,
        tick_spec(s, t, Some((times, warning_time))).1.hours_warning ==> tick_spec(
            s,
            t,
            Some((times, warning_time)),
        ).0.last_warning == Some(minute_key(t)),
{
}

/// A focus reminder fires at most once per configured minute per day: once
/// a tick fires one, no later tick of the same day fires again at that
/// minute, whatever the settings are meanwhile.
pub proof fn lemma_focus_fires_once_per_day(s: SchedulerView, steps: Seq<TickInput>, i: int, j: int)
    requires
        0 <= i < j < steps.len(),
        forall|m: int|
            i <= m <= j ==> (#[trigger] steps[m]).0.year == steps[i].0.year && steps[m].0.ordinal
                == steps[i].0.ordinal,
        minute_key(steps[j].0) == minute_key(steps[i].0),
        step_actions(s, steps, i).focus is Some,
    ensures
        step_actions(s, steps, j).focus is None,
{
    let k = minute_key(steps[i].0);
    lemma_remembered_until(s, steps, i, j);
    let kept = keys_of_day(run_ticks(s, steps.take(j)).triggered, steps[j].0.year, steps[j].0.ordinal);
    lemma_keys_of_day_keeps(run_ticks(s, steps.take(j)).triggered, k);
}

proof fn lemma_remembered_until(s: SchedulerView, steps: Seq<TickInput>, i: int, m: int)
    requires
        0 <= i < m <= steps.len(),
        forall|n: int|
            i <= n < m ==> (#[trigger] steps[n]).0.year == steps[i].0.year && steps[n].0.ordinal
                == steps[i].0.ordinal,
        step_actions(s, steps, i).focus is Some,
    ensures
        run_ticks(s, steps.take(m)).triggered.contains(minute_key(steps[i].0)),
    decreases m - i,
{
    let k = minute_key(steps[i].0);
    assert(steps.take(m).drop_last() =~= steps.take(m - 1));
    assert(steps.take(m).last() == steps[m - 1]);
    if m == i + 1 {
        let after = run_ticks(s, steps.take(m));
        let kept = keys_of_day(run_ticks(s, steps.take(i)).triggered, steps[i].0.year, steps[i].0.ordinal);
        assert(after.triggered == kept.push(k));
        assert(after.triggered[kept.len() as int] == k);
    } else {
        lemma_remembered_until(s, steps, i, m - 1);
        lemma_tick_keeps_same_day(run_ticks(s, steps.take(m - 1)), steps[m - 1].0, steps[m - 1].1, k);
    }
}

/// The hours warning is checked at most once per minute: once a tick checks
/// it, no later tick in the same minute does, whatever the settings are
/// meanwhile.
pub proof fn lemma_warning_once_per_minute(s: SchedulerView, steps: Seq<TickInput>, i: int, j: int)
    requires
        0 <= i < j < steps.len(),
        forall|m: int| i <= m <= j ==> minute_key((#[trigger] steps[m]).0) == minute_key(steps[i].0),
        step_actions(s, steps, i).hours_warning,
    ensures
        !step_actions(s, steps, j).hours_warning,
{
    lemma_warning_remembered(s, steps, i, j);
}

proof fn lemma_warning_remembered(s: SchedulerView, steps: Seq<TickInput>, i: int, m: int)
    requires
        0 <= i < m <= steps.len(),
        forall|n: int| i <= n < m ==> minute_key((#[trigger] steps[n]).0) == minute_key(steps[i].0),
        step_actions(s, steps, i).hours_warning,
    ensures
        run_ticks(s, steps.take(m)).last_warning == Some(minute_key(steps[i].0)),
    decreases m - i,
{
    assert(steps.take(m).drop_last() =~= steps.take(m - 1));
    assert(steps.take(m).last() == steps[m - 1]);
    if m > i + 1 {
        lemma_warning_remembered(s, steps, i, m - 1);
        assert(minute_key(steps[m - 1].0) == minute_key(steps[i].0));
    }
}

} // verus!
