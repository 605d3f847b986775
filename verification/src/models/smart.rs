use vstd::prelude::*;
use chrono::NaiveTime;

verus! {

// The timetable as the school service delivers it. Each map of the service
// is held here as a list of (key, value) entries. A list made from such a map
// has no key twice (`well_formed`); lookups take the first entry of a key, so
// in a well-formed list each entry is the one found for its key.

/// A teacher of a lesson.
pub struct Teacher {
    pub abbreviation: String,
    pub firstname: Option<String>,
    pub lastname: Option<String>,
}

/// The subject of a lesson.
pub struct Subject {
    pub name: String,
}

/// A lesson: what is taught, by whom, where.
pub struct Lesson {
    pub subject: Subject,
    pub teachers: Vec<Teacher>,
    pub room: String,
}

/// A school event that takes the place of lessons.
pub struct Event {
    pub text: String,
}

/// One entry of a timetable slot.
pub enum TimetableElement {
    Lesson(Lesson),
    /// The lesson that is held, and the lesson that it replaces.
    Substitution(Lesson, Lesson),
    Cancelled(Lesson),
    Event(Event),
}

/// The entries of one lesson hour of a day.
pub struct HourSlot {
    pub hour: usize,
    pub elements: Vec<TimetableElement>,
}

/// The entries of one day, by lesson hour.
pub struct DaySchedule {
    pub slots: Vec<HourSlot>,
}

/// A calendar date as (year, month, day).
pub type Date = (i32, u32, u32);

/// The schedule of one date.
pub struct DayEntry {
    pub date: Date,
    pub schedule: DaySchedule,
}

/// The schedules of a range of dates.
pub struct DayMap {
    pub days: Vec<DayEntry>,
}

/// A time of day to the minute; the hour is below 24 and the minute below 60.
#[derive(Clone, Copy)]
pub struct ClockTime {
    hour: u32,
    minute: u32,
}

/// The begin and end times of one lesson hour, one pair per weekday
/// (Monday first).
pub struct HourTimes {
    pub hour: usize,
    pub times: Vec<(ClockTime, ClockTime)>,
}

/// The times of the lesson hours of a school.
pub struct SchoolHoursMap {
    pub hours: Vec<HourTimes>,
}

/// A number below 100 written with two decimal digits.
pub open spec fn two_digits(n: u32) -> Seq<char> {
    seq![(('0' as u32) + n / 10) as char, (('0' as u32) + n % 10) as char]
}

/// A time of day written as `HH:MM`.
pub open spec fn hm_text(hour: u32, minute: u32) -> Seq<char> {
    two_digits(hour) + seq![':'] + two_digits(minute)
}

/// Calls `NaiveTime::from_hms_opt` and formats the time with `%H:%M`. chrono
/// documents `%H` as the hour number (00 to 23) and `%M` as the minute number
/// (00 to 59), each zero-padded to two digits, and `from_hms_opt` as giving a
/// time for every hour below 24 and minute below 60.
#[verifier::external_body]
fn format_hour_minute(hour: u32, minute: u32) -> (text: String)
    requires
        hour < 24,
        minute < 60,
    ensures
        text@ == hm_text(hour, minute),
{
    NaiveTime::from_hms_opt(hour, minute, 0).unwrap().format("%H:%M").to_string()
}

impl ClockTime {
    #[verifier::type_invariant]
    spec fn valid(self) -> bool {
        self.hour < 24 && self.minute < 60
    }

    pub closed spec fn spec_hour(self) -> u32 {
        self.hour
    }

    pub closed spec fn spec_minute(self) -> u32 {
        self.minute
    }

    /// The time `hour:minute`, if it is a time of day.
    pub fn new(hour: u32, minute: u32) -> (res: Option<ClockTime>)
        ensures
            res is Some <==> hour < 24 && minute < 60,
            res matches Some(t) ==> t.spec_hour() == hour && t.spec_minute() == minute,
    {
        if hour < 24 && minute < 60 {
            Some(ClockTime { hour, minute })
        } else {
            None
        }
    }

    pub fn hour(&self) -> (h: u32)
        ensures
            h == self.spec_hour(),
            h < 24,
    {
        proof {
            use_type_invariant(self);
        }
        self.hour
    }

    pub fn minute(&self) -> (m: u32)
        ensures
            m == self.spec_minute(),
            m < 60,
    {
        proof {
            use_type_invariant(self);
        }
        self.minute
    }

    /// The time written as `HH:MM`.
    pub fn format_hm(&self) -> (text: String)
        ensures
            text@ == hm_text(self.spec_hour(), self.spec_minute()),
    {
        proof {
            use_type_invariant(self);
        }
        format_hour_minute(self.hour, self.minute)
    }
}

/// `i` is the first position of `k` in `keys`.
pub open spec fn is_first<K>(keys: Seq<K>, k: K, i: int) -> bool {
    &&& 0 <= i < keys.len()
    &&& keys[i] == k
    &&& forall|j: int| 0 <= j < i ==> keys[j] != k
}

/// The first position of `k` in `keys`, if it occurs.
pub open spec fn first_index<K>(keys: Seq<K>, k: K) -> Option<int> {
    if exists|i: int| is_first(keys, k, i) {
        Some(choose|i: int| is_first(keys, k, i))
    } else {
        None
    }
}

/// There is at most one first position.
pub proof fn lemma_first_unique<K>(keys: Seq<K>, k: K, i: int)
    requires
        is_first(keys, k, i),
    ensures
        first_index(keys, k) == Some(i),
{
    let c = choose|c: int| is_first(keys, k, c);
    assert(is_first(keys, k, c));
    if c < i {
        assert(keys[c] != k);
    } else if c > i {
        assert(keys[i] != k);
    }
}

/// A key that occurs somewhere has a first position, at or before any of
/// its positions.
pub proof fn lemma_first_some<K>(keys: Seq<K>, k: K, j: int)
    requires
        0 <= j < keys.len(),
        keys[j] == k,
    ensures
        first_index(keys, k) matches Some(i) && is_first(keys, k, i) && i <= j,
    decreases j,
{
    if forall|d: int| 0 <= d < j ==> keys[d] != k {
        lemma_first_unique(keys, k, j);
    } else {
        let d = choose|d: int| 0 <= d < j && keys[d] == k;
        lemma_first_some(keys, k, d);
    }
}

/// A key that occurs nowhere has no first position.
pub proof fn lemma_first_none<K>(keys: Seq<K>, k: K)
    requires
        forall|j: int| 0 <= j < keys.len() ==> keys[j] != k,
    ensures
        first_index(keys, k) is None,
{
}

/// No key occurs twice.
pub open spec fn keys_unique<K>(keys: Seq<K>) -> bool {
    forall|i: int, j: int|
        0 <= i < keys.len() && 0 <= j < keys.len() && #[trigger] keys[i] == #[trigger] keys[j] ==> i == j
}

/// Where no key occurs twice, the position of each key is its first one.
pub proof fn lemma_unique_first<K>(keys: Seq<K>, i: int)
    requires
        keys_unique(keys),
        0 <= i < keys.len(),
    ensures
        first_index(keys, keys[i]) == Some(i),
{
    assert forall|j: int| 0 <= j < i implies keys[j] != keys[i] by {}
    lemma_first_unique(keys, keys[i], i);
}

pub open spec fn slot_keys(slots: Seq<HourSlot>) -> Seq<usize> {
    slots.map_values(|s: HourSlot| s.hour)
}

pub open spec fn hour_keys(hours: Seq<HourTimes>) -> Seq<usize> {
    hours.map_values(|h: HourTimes| h.hour)
}

pub open spec fn day_keys(days: Seq<DayEntry>) -> Seq<Date> {
    days.map_values(|d: DayEntry| d.date)
}

impl DaySchedule {
    /// No lesson hour has two slots.
    pub open spec fn well_formed(&self) -> bool {
        keys_unique(slot_keys(self.slots@))
    }

    /// The slot of lesson hour `hour`.
    pub open spec fn slot_at(&self, hour: usize) -> Option<HourSlot> {
        match first_index(slot_keys(self.slots@), hour) {
            Some(i) => Some(self.slots@[i]),
            None => None,
        }
    }

    /// The position of the slot of lesson hour `hour`.
    pub fn find(&self, hour: usize) -> (res: Option<usize>)
        ensures
            res matches Some(i) ==> first_index(slot_keys(self.slots@), hour) == Some(i as int),
            res is None ==> first_index(slot_keys(self.slots@), hour) is None,
    {
        let ghost keys = slot_keys(self.slots@);
        let mut i: usize = 0;
        while i < self.slots.len()
            invariant
                i <= self.slots.len(),
                keys == slot_keys(self.slots@),
                forall|j: int| 0 <= j < i ==> keys[j] != hour,
            decreases self.slots.len() - i,
        {
            if self.slots[i].hour == hour {
                proof {
                    lemma_first_unique(keys, hour, i as int);
                }
                return Some(i);
            }
            i += 1;
        }
        proof {
            lemma_first_none(keys, hour);
        }
        None
    }

    /// The largest lesson hour with a slot, 0 when there is none.
    pub open spec fn max_hour(&self) -> nat {
        seq_max(slot_keys(self.slots@))
    }

    pub fn last_hour(&self) -> (res: usize)
        ensures
            res == self.max_hour(),
    {
        let ghost keys = slot_keys(self.slots@);
        let mut best: usize = 0;
        let mut i: usize = 0;
        while i < self.slots.len()
            invariant
                i <= self.slots.len(),
                keys == slot_keys(self.slots@),
                best == seq_max(keys.take(i as int)),
            decreases self.slots.len() - i,
        {
            assert(keys.take(i + 1).drop_last() =~= keys.take(i as int));
            if self.slots[i].hour > best {
                best = self.slots[i].hour;
            }
            i += 1;
        }
        assert(keys.take(i as int) =~= keys);
        best
    }
}

/// The largest number of `s`, 0 for the empty sequence.
pub open spec fn seq_max(s: Seq<usize>) -> nat
    decreases s.len(),
{
    if s.len() == 0 {
        0
    } else {
        let rest = seq_max(s.drop_last());
        if s.last() > rest {
            s.last() as nat
        } else {
            rest
        }
    }
}

impl DayMap {
    /// No date has two schedules.
    pub open spec fn well_formed(&self) -> bool {
        keys_unique(day_keys(self.days@))
    }

    /// The schedule of `date`.
    pub open spec fn day_at(&self, date: Date) -> Option<DayEntry> {
        match first_index(day_keys(self.days@), date) {
            Some(i) => Some(self.days@[i]),
            None => None,
        }
    }

    /// The position of the schedule of `date`.
    pub fn find(&self, date: Date) -> (res: Option<usize>)
        ensures
            res matches Some(i) ==> first_index(day_keys(self.days@), date) == Some(i as int),
            res is None ==> first_index(day_keys(self.days@), date) is None,
    {
        let ghost keys = day_keys(self.days@);
        let mut i: usize = 0;
        while i < self.days.len()
            invariant
                i <= self.days.len(),
                keys == day_keys(self.days@),
                forall|j: int| 0 <= j < i ==> keys[j] != date,
            decreases self.days.len() - i,
        {
            let d = self.days[i].date;
            if d.0 == date.0 && d.1 == date.1 && d.2 == date.2 {
                proof {
                    lemma_first_unique(keys, date, i as int);
                }
                return Some(i);
            }
            i += 1;
        }
        proof {
            lemma_first_none(keys, date);
        }
        None
    }

    /// The largest lesson hour of any day, 0 when there is none.
    pub open spec fn max_hour(&self) -> nat {
        days_max_hour(self.days@)
    }

    pub fn longest_day(&self) -> (res: usize)
        ensures
            res == self.max_hour(),
    {
        let mut best: usize = 0;
        let mut i: usize = 0;
        while i < self.days.len()
            invariant
                i <= self.days.len(),
                best == days_max_hour(self.days@.take(i as int)),
            decreases self.days.len() - i,
        {
            assert(self.days@.take(i + 1).drop_last() =~= self.days@.take(i as int));
            let last = self.days[i].schedule.last_hour();
            if last > best {
                best = last;
            }
            i += 1;
        }
        assert(self.days@.take(i as int) =~= self.days@);
        best
    }
}

/// The largest lesson hour over the schedules of `days`, 0 when there is none.
pub open spec fn days_max_hour(days: Seq<DayEntry>) -> nat
    decreases days.len(),
{
    if days.len() == 0 {
        0
    } else {
        let rest = days_max_hour(days.drop_last());
        let last = days.last().schedule.max_hour();
        if last > rest {
            last
        } else {
            rest
        }
    }
}

impl SchoolHoursMap {
    /// No lesson hour has two entries.
    pub open spec fn well_formed(&self) -> bool {
        keys_unique(hour_keys(self.hours@))
    }

    /// The times of lesson hour `hour`.
    pub open spec fn times_at(&self, hour: usize) -> Option<HourTimes> {
        match first_index(hour_keys(self.hours@), hour) {
            Some(i) => Some(self.hours@[i]),
            None => None,
        }
    }

    /// The position of the times of lesson hour `hour`.
    pub fn find(&self, hour: usize) -> (res: Option<usize>)
        ensures
            res matches Some(i) ==> first_index(hour_keys(self.hours@), hour) == Some(i as int),
            res is None ==> first_index(hour_keys(self.hours@), hour) is None,
    {
        let ghost keys = hour_keys(self.hours@);
        let mut i: usize = 0;
        while i < self.hours.len()
            invariant
                i <= self.hours.len(),
                keys == hour_keys(self.hours@),
                forall|j: int| 0 <= j < i ==> keys[j] != hour,
            decreases self.hours.len() - i,
        {
            if self.hours[i].hour == hour {
                proof {
                    lemma_first_unique(keys, hour, i as int);
                }
                return Some(i);
            }
            i += 1;
        }
        proof {
            lemma_first_none(keys, hour);
        }
        None
    }
}

/// In a schedule where no lesson hour occurs twice, every slot is the one
/// found for its hour.
pub proof fn lemma_slot_found(day: DaySchedule, i: int)
    requires
        day.well_formed(),
        0 <= i < day.slots@.len(),
    ensures
        day.slot_at(day.slots@[i].hour) == Some(day.slots@[i]),
{
    lemma_unique_first(slot_keys(day.slots@), i);
}

/// In a map of days where no date occurs twice, every entry is the one found
/// for its date.
pub proof fn lemma_day_found(table: DayMap, i: int)
    requires
        table.well_formed(),
        0 <= i < table.days@.len(),
    ensures
        table.day_at(table.days@[i].date) == Some(table.days@[i]),
{
    lemma_unique_first(day_keys(table.days@), i);
}

/// In a map of lesson hours where no hour occurs twice, every entry is the
/// one found for its hour.
pub proof fn lemma_times_found(hours: SchoolHoursMap, i: int)
    requires
        hours.well_formed(),
        0 <= i < hours.hours@.len(),
    ensures
        hours.times_at(hours.hours@[i].hour) == Some(hours.hours@[i]),
{
    lemma_unique_first(hour_keys(hours.hours@), i);
}

/// The largest of a list of numbers is at least each of them and is one of
/// them; it is 0 for the empty list.
pub proof fn lemma_seq_max_bounds(s: Seq<usize>)
    ensures
        forall|k: int| 0 <= k < s.len() ==> s[k] <= seq_max(s),
        s.len() == 0 ==> seq_max(s) == 0,
        s.len() > 0 ==> exists|k: int| 0 <= k < s.len() && s[k] == seq_max(s),
    decreases s.len(),
{
    if s.len() > 0 {
        let rest = s.drop_last();
        lemma_seq_max_bounds(rest);
        assert forall|k: int| 0 <= k < s.len() implies s[k] <= seq_max(s) by {
            if k < s.len() - 1 {
                assert(s[k] == rest[k]);
            }
        }
        if s.last() > seq_max(rest) {
            assert(s[s.len() - 1] == seq_max(s));
        } else if rest.len() == 0 {
            assert(s[0] == seq_max(s));
        } else {
            let k = choose|k: int| 0 <= k < rest.len() && rest[k] == seq_max(rest);
            assert(s[k] == seq_max(s));
        }
    }
}

/// The last lesson hour of a day is at least the hour of each of its slots
/// and is the hour of one of them; it is 0 for a day without slots.
pub proof fn lemma_last_hour_bounds(day: DaySchedule)
    ensures
        forall|k: int| 0 <= k < day.slots@.len() ==> #[trigger] day.slots@[k].hour <= day.max_hour(),
        day.slots@.len() == 0 ==> day.max_hour() == 0,
        day.slots@.len() > 0 ==> exists|k: int|
            0 <= k < day.slots@.len() && #[trigger] day.slots@[k].hour == day.max_hour(),
{
    let keys = slot_keys(day.slots@);
    lemma_seq_max_bounds(keys);
    assert forall|k: int| 0 <= k < day.slots@.len() implies #[trigger] day.slots@[k].hour <= day.max_hour() by {
        assert(keys[k] == day.slots@[k].hour);
    }
    if day.slots@.len() > 0 {
        let k = choose|k: int| 0 <= k < keys.len() && keys[k] == seq_max(keys);
        assert(day.slots@[k].hour == day.max_hour());
    }
}

/// The number of lesson-hour rows of a table of days is at least the hour of
/// every slot of every day, and is the hour of one of them (0 when no day
/// has a slot).
pub proof fn lemma_longest_day_bounds(table: DayMap)
    ensures
        forall|i: int, k: int|
            0 <= i < table.days@.len() && 0 <= k < table.days@[i].schedule.slots@.len() ==>
                #[trigger] table.days@[i].schedule.slots@[k].hour <= table.max_hour(),
        table.max_hour() == 0 || exists|i: int, k: int|
            0 <= i < table.days@.len() && 0 <= k < table.days@[i].schedule.slots@.len()
                && #[trigger] table.days@[i].schedule.slots@[k].hour == table.max_hour(),
{
    lemma_days_max_hour_bounds(table.days@);
}

proof fn lemma_days_max_hour_bounds(days: Seq<DayEntry>)
    ensures
        forall|i: int, k: int|
            0 <= i < days.len() && 0 <= k < days[i].schedule.slots@.len() ==>
                #[trigger] days[i].schedule.slots@[k].hour <= days_max_hour(days),
        days_max_hour(days) == 0 || exists|i: int, k: int|
            0 <= i < days.len() && 0 <= k < days[i].schedule.slots@.len()
                && #[trigger] days[i].schedule.slots@[k].hour == days_max_hour(days),
    decreases days.len(),
{
    if days.len() > 0 {
        let rest = days.drop_last();
        let last = days.last();
        lemma_days_max_hour_bounds(rest);
        lemma_last_hour_bounds(last.schedule);
        assert forall|i: int, k: int|
            0 <= i < days.len() && 0 <= k < days[i].schedule.slots@.len() implies
                #[trigger] days[i].schedule.slots@[k].hour <= days_max_hour(days) by {
            if i < days.len() - 1 {
                assert(days[i] == rest[i]);
                assert(rest[i].schedule.slots@[k].hour <= days_max_hour(rest));
            } else {
                assert(days[i] == last);
                assert(last.schedule.slots@[k].hour <= last.schedule.max_hour());
            }
        }
        if days_max_hour(days) != 0 {
            if last.schedule.max_hour() > days_max_hour(rest) {
                let k = choose|k: int|
                    0 <= k < last.schedule.slots@.len() && #[trigger] last.schedule.slots@[k].hour
                        == last.schedule.max_hour();
                assert(days[days.len() - 1] == last);
                assert(days[days.len() - 1].schedule.slots@[k].hour == days_max_hour(days));
            } else {
                let (i, k) = choose|i: int, k: int|
                    0 <= i < rest.len() && 0 <= k < rest[i].schedule.slots@.len()
                        && #[trigger] rest[i].schedule.slots@[k].hour == days_max_hour(rest);
                assert(days[i] == rest[i]);
                assert(days[i].schedule.slots@[k].hour == days_max_hour(days));
            }
        }
    }
}

/// A time of day is written with five characters: two decimal digits of the
/// hour, a colon, and two decimal digits of the minute.
pub proof fn lemma_hm_text_digits(hour: u32, minute: u32)
    requires
        hour < 100,
        minute < 100,
    ensures
        hm_text(hour, minute).len() == 5,
        hm_text(hour, minute)[2] == ':',
        forall|j: int| 0 <= j < 5 && j != 2 ==> '0' <= #[trigger] hm_text(hour, minute)[j] <= '9',
        ((hm_text(hour, minute)[0] as u32) - ('0' as u32)) * 10 + ((hm_text(hour, minute)[1] as u32) - (
        '0' as u32)) == hour,
        ((hm_text(hour, minute)[3] as u32) - ('0' as u32)) * 10 + ((hm_text(hour, minute)[4] as u32) - (
        '0' as u32)) == minute,
{
    let t = hm_text(hour, minute);
    assert(t[0] == two_digits(hour)[0]);
    assert(t[1] == two_digits(hour)[1]);
    assert(t[3] == two_digits(minute)[0]);
    assert(t[4] == two_digits(minute)[1]);
}

} // verus!
