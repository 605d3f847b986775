use vstd::prelude::*;
use chrono::{Datelike, NaiveDate, Weekday};

use crate::models::smart::{
    day_keys, hm_text, lemma_day_found, lemma_first_none, lemma_longest_day_bounds, lemma_slot_found, slot_keys,
    ClockTime, Date, DayMap, DaySchedule, Lesson, SchoolHoursMap, Teacher, TimetableElement,
};

verus! {

/// What a timetable block shows.
#[verifier::ext_equal]
pub struct BlockView {
    pub subject: Seq<char>,
    pub teacher: Seq<char>,
    pub room: Seq<char>,
    pub time: Seq<char>,
    pub subst_visible: bool,
    pub subst_subject: Seq<char>,
    pub subst_teacher: Seq<char>,
    pub subst_room: Seq<char>,
    pub cancelled: bool,
    pub event: bool,
}

/// The labels and marks of one block of the timetable: the lesson (or event)
/// it shows, the time of its lesson hour, and, for a substitution, the lesson
/// that was replaced.
pub struct EfgTimetableBlock {
    pub subject: String,
    pub teacher: String,
    pub room: String,
    pub time: String,
    /// Whether the replaced lesson is shown.
    pub subst_visible: bool,
    pub subst_subject: String,
    pub subst_teacher: String,
    pub subst_room: String,
    /// Marked as a cancelled lesson.
    pub cancelled: bool,
    /// Marked as an event.
    pub event: bool,
}

impl View for EfgTimetableBlock {
    type V = BlockView;

    open spec fn view(&self) -> BlockView {
        BlockView {
            subject: self.subject@,
            teacher: self.teacher@,
            room: self.room@,
            time: self.time@,
            subst_visible: self.subst_visible,
            subst_subject: self.subst_subject@,
            subst_teacher: self.subst_teacher@,
            subst_room: self.subst_room@,
            cancelled: self.cancelled,
            event: self.event,
        }
    }
}

/// A block as it is created: every label empty, nothing marked.
pub open spec fn empty_block() -> BlockView {
    BlockView {
        subject: seq![],
        teacher: seq![],
        room: seq![],
        time: seq![],
        subst_visible: false,
        subst_subject: seq![],
        subst_teacher: seq![],
        subst_room: seq![],
        cancelled: false,
        event: false,
    }
}

/// How a teacher is named: `Lastname, Firstname`, the last name alone when no
/// first name is known, and the abbreviation when no last name is known.
pub open spec fn teacher_text(t: Teacher) -> Seq<char> {
    match t.lastname {
        Some(last) => match t.firstname {
            Some(first) => last@ + ", "@ + first@,
            None => last@,
        },
        None => t.abbreviation@,
    }
}

/// The teachers of a lesson, each named as `teacher_text` says, separated by
/// `; `.
pub open spec fn teachers_text(ts: Seq<Teacher>) -> Seq<char>
    decreases ts.len(),
{
    if ts.len() == 0 {
        seq![]
    } else if ts.len() == 1 {
        teacher_text(ts[0])
    } else {
        teachers_text(ts.drop_last()) + "; "@ + teacher_text(ts.last())
    }
}

/// The labels of a block that shows lesson `l`.
pub open spec fn spec_fill(b: BlockView, l: Lesson) -> BlockView {
    BlockView { subject: l.subject.name@, teacher: teachers_text(l.teachers@), room: l.room@, ..b }
}

/// A block that shows timetable entry `e`.
pub open spec fn spec_initialize(b: BlockView, e: TimetableElement) -> BlockView {
    match e {
        TimetableElement::Lesson(l) => spec_fill(b, l),
        TimetableElement::Substitution(subst, replaced) => BlockView {
            subst_subject: replaced.subject.name@,
            subst_teacher: teachers_text(replaced.teachers@),
            subst_room: replaced.room@,
            subst_visible: true,
            ..spec_fill(b, subst)
        },
        TimetableElement::Cancelled(l) => BlockView { cancelled: true, ..spec_fill(b, l) },
        TimetableElement::Event(ev) => BlockView { subject: ev.text@, event: true, ..b },
    }
}

impl EfgTimetableBlock {
    pub fn new() -> (block: Self)
        ensures
            block@ == empty_block(),
    {
        EfgTimetableBlock {
            subject: String::new(),
            teacher: String::new(),
            room: String::new(),
            time: String::new(),
            subst_visible: false,
            subst_subject: String::new(),
            subst_teacher: String::new(),
            subst_room: String::new(),
            cancelled: false,
            event: false,
        }
    }

    /// The names of `teachers`, separated by `; `.
    pub fn _format_teachers(&self, teachers: &Vec<Teacher>) -> (res: String)
        ensures
            res@ == teachers_text(teachers@),
    {
        let n = teachers.len();
        let mut res = String::new();
        let mut i: usize = 0;
        while i < n
            invariant
                n == teachers@.len(),
                i <= n,
                res@ == (if i == 0 {
                    seq![]
                } else if i < n {
                    teachers_text(teachers@.take(i as int)) + "; "@
                } else {
                    teachers_text(teachers@.take(i as int))
                }),
            decreases n - i,
        {
            let teacher = &teachers[i];
            let ghost before = res@;
            match &teacher.lastname {
                Some(lastname) => {
                    res.append(lastname.as_str());
                    match &teacher.firstname {
                        Some(firstname) => {
                            res.append(", ");
                            res.append(firstname.as_str());
                        },
                        None => {},
                    }
                },
                None => {
                    res.append(teacher.abbreviation.as_str());
                },
            }
            assert(res@ =~= before + teacher_text(teachers@[i as int]));
            assert(teachers@.take(i + 1).drop_last() =~= teachers@.take(i as int));
            assert(teachers@.take(i + 1).last() == teachers@[i as int]);
            if i < n - 1 {
                res.append("; ");
            }
            i += 1;
        }
        assert(teachers@.take(n as int) =~= teachers@);
        res
    }

    /// Shows `lesson`: its subject, its teachers and its room.
    pub fn _fill(&mut self, lesson: &Lesson)
        ensures
            final(self)@ == spec_fill(old(self)@, *lesson),
    {
        self.subject = lesson.subject.name.clone();
        self.teacher = self._format_teachers(&lesson.teachers);
        self.room = lesson.room.clone();
    }

    /// Shows timetable entry `element`.
    pub fn initialize(&mut self, element: &TimetableElement)
        ensures
            final(self)@ == spec_initialize(old(self)@, *element),
    {
        match element {
            TimetableElement::Lesson(lesson) => self._fill(lesson),
            TimetableElement::Substitution(subst, lesson) => {
                self._fill(subst);
                self.subst_subject = lesson.subject.name.clone();
                self.subst_teacher = self._format_teachers(&lesson.teachers);
                self.subst_room = lesson.room.clone();
                self.subst_visible = true;
            },
            TimetableElement::Cancelled(lesson) => {
                self._fill(lesson);
                self.cancelled = true;
            },
            TimetableElement::Event(event) => {
                self.subject = event.text.clone();
                self.event = true;
            },
        }
    }

    /// Shows `text` as the time of the block's lesson hour.
    pub fn set_hour_label(&mut self, text: &str)
        ensures
            final(self)@ == (BlockView { time: text@, ..old(self)@ }),
    {
        self.time = text.to_owned();
    }
}

/// The text of a lesson hour's time: `HH:MM - HH:MM`.
pub open spec fn hour_label_text(times: (ClockTime, ClockTime)) -> Seq<char> {
    hm_text(times.0.spec_hour(), times.0.spec_minute()) + " - "@ + hm_text(
        times.1.spec_hour(),
        times.1.spec_minute(),
    )
}

pub fn hour_label(times: &(ClockTime, ClockTime)) -> (text: String)
    ensures
        text@ == hour_label_text(*times),
{
    let mut text = times.0.format_hm();
    text.append(" - ");
    let end = times.1.format_hm();
    text.append(end.as_str());
    text
}

/// One day of the timetable: its title, for each lesson hour from the first
/// to the last of the week the blocks of the hour (`None` where the day has
/// no entry for it), and whether it is today.
pub struct DayColumn {
    pub title: String,
    pub slots: Vec<Option<Vec<EfgTimetableBlock>>>,
    pub active: bool,
}

pub open spec fn opt_string_view(o: Option<String>) -> Option<Seq<char>> {
    match o {
        Some(s) => Some(s@),
        None => None,
    }
}

pub open spec fn slot_view(o: Option<Vec<EfgTimetableBlock>>) -> Option<Seq<BlockView>> {
    match o {
        Some(blocks) => Some(blocks@.map_values(|b: EfgTimetableBlock| b@)),
        None => None,
    }
}

pub open spec fn column_slots_view(slots: Seq<Option<Vec<EfgTimetableBlock>>>) -> Seq<Option<Seq<BlockView>>> {
    slots.map_values(|o: Option<Vec<EfgTimetableBlock>>| slot_view(o))
}

/// The time text of lesson hour `hour` on weekday `day` (1 is Monday), if the
/// school lists times for that hour.
pub open spec fn slot_time(hours: SchoolHoursMap, hour: usize, day: usize) -> Option<Seq<char>> {
    match hours.times_at(hour) {
        Some(ht) => Some(hour_label_text(ht.times@[day - 1])),
        None => None,
    }
}

/// The block of entry `e`, with `time` as its time label if there is one.
pub open spec fn block_spec(e: TimetableElement, time: Option<Seq<char>>) -> BlockView {
    let b = spec_initialize(empty_block(), e);
    match time {
        Some(t) => BlockView { time: t, ..b },
        None => b,
    }
}

/// The blocks of lesson hour `hour` of a day with the entries `elements`,
/// which is weekday `day`.
pub open spec fn slot_spec(hours: SchoolHoursMap, elements: DaySchedule, day: usize, hour: usize) -> Option<
    Seq<BlockView>,
> {
    match elements.slot_at(hour) {
        Some(slot) => Some(
            slot.elements@.map_values(|e: TimetableElement| block_spec(e, slot_time(hours, hour, day))),
        ),
        None => None,
    }
}

/// For each lesson hour up to `max` that has entries on that day and listed
/// times, the times list weekday `day`.
pub open spec fn hours_fit(hours: SchoolHoursMap, elements: DaySchedule, day: usize, max: usize) -> bool {
    forall|h: usize|
        1 <= h <= max && (#[trigger] elements.slot_at(h)) is Some && hours.times_at(h) is Some ==> 1
            <= day <= hours.times_at(h)->0.times@.len()
}

/// The column of weekday `day.0` (1 is Monday), titled `day.1`, with the
/// entries `elements`, showing lesson hours 1 to `max`.
pub fn get_blocks(
    hours: &SchoolHoursMap,
    elements: &DaySchedule,
    day: (usize, &str),
    active: bool,
    max: usize,
) -> (column: DayColumn)
    requires
        hours_fit(*hours, *elements, day.0, max),
    ensures
        column.title@ == day.1@,
        column.active == active,
        column.slots@.len() == max,
        forall|k: int|
            0 <= k < max ==> #[trigger] slot_view(column.slots@[k]) == slot_spec(
                *hours,
                *elements,
                day.0,
                (k + 1) as usize,
            ),
{
    let mut slots: Vec<Option<Vec<EfgTimetableBlock>>> = Vec::new();
    let mut i: usize = 0;
    while i < max
        invariant
            i <= max,
            slots@.len() == i,
            hours_fit(*hours, *elements, day.0, max),
            forall|k: int|
                0 <= k < i ==> #[trigger] slot_view(slots@[k]) == slot_spec(
                    *hours,
                    *elements,
                    day.0,
                    (k + 1) as usize,
                ),
        decreases max - i,
    {
        let hour = i + 1;
        match elements.find(hour) {
            None => {
                slots.push(None);
            },
            Some(si) => {
                let slot = &elements.slots[si];
                assert(elements.slot_at(hour) == Some(*slot));
                let time: Option<String> = match hours.find(hour) {
                    Some(hi) => {
                        let ht = &hours.hours[hi];
                        assert(hours.times_at(hour) == Some(*ht));
                        Some(hour_label(&ht.times[day.0 - 1]))
                    },
                    None => None,
                };
                let ghost time_view = opt_string_view(time);
                assert(time_view == slot_time(*hours, hour, day.0));
                let mut blocks: Vec<EfgTimetableBlock> = Vec::new();
                let n = slot.elements.len();
                let mut j: usize = 0;
                while j < n
                    invariant
                        j <= n,
                        n == slot.elements@.len(),
                        blocks@.len() == j,
                        time_view == opt_string_view(time),
                        forall|m: int|
                            0 <= m < j ==> (#[trigger] blocks@[m])@ == block_spec(
                                slot.elements@[m],
                                time_view,
                            ),
                    decreases n - j,
                {
                    let mut block = EfgTimetableBlock::new();
                    block.initialize(&slot.elements[j]);
                    match &time {
                        Some(t) => block.set_hour_label(t.as_str()),
                        None => {},
                    }
                    blocks.push(block);
                    j += 1;
                }
                assert(slot_view(Some(blocks)) == slot_spec(*hours, *elements, day.0, hour)) by {
                    assert(blocks@.map_values(|b: EfgTimetableBlock| b@) =~= slot.elements@.map_values(
                        |e: TimetableElement| block_spec(e, slot_time(*hours, hour, day.0)),
                    ));
                }
                slots.push(Some(blocks));
            },
        }
        i += 1;
    }
    DayColumn { title: day.1.to_owned(), slots, active }
}

/// The date of day `day_from_monday` (0 is Monday) of ISO week `week` of ISO
/// year `year`, as (year, month, day); `None` where that week does not exist.
pub uninterp spec fn iso_week_date(year: i32, week: u32, day_from_monday: u8) -> Option<(i32, u32, u32)>;

/// Calls `Weekday::try_from` (0 is Monday) and `NaiveDate::from_isoywd_opt`,
/// and gives the date found as (year, month, day). The result is named, not
/// stated: the calendar arithmetic of chrono is not restated here.
/// `from_isoywd_opt` computes `year - 1` or `year + 1` unchecked when the
/// week reaches into the previous or next year, so the year is kept off the
/// ends of the `i32` range.
#[verifier::external_body]
fn date_of_iso_week_day(year: i32, week: u32, day_from_monday: u8) -> (date: Option<(i32, u32, u32)>)
    requires
        day_from_monday < 7,
        i32::MIN < year < i32::MAX,
    ensures
        date == iso_week_date(year, week, day_from_monday),
{
    let weekday = Weekday::try_from(day_from_monday).unwrap();
    match NaiveDate::from_isoywd_opt(year, week, weekday) {
        Some(date) => Some((date.year(), date.month(), date.day())),
        None => None,
    }
}

/// The number of days a week shows for the `bhvr-weekends` setting: 5 without
/// weekends (0), 6 with Saturday (1), 7 with the whole weekend (2); 5 for any
/// other value.
pub open spec fn spec_days_shown(weekends: i32) -> usize {
    if weekends == 1 {
        6
    } else if weekends == 2 {
        7
    } else {
        5
    }
}

pub fn days_shown(weekends: i32) -> (days: usize)
    ensures
        days == spec_days_shown(weekends),
{
    match weekends {
        0 => 5,
        1 => 6,
        2 => 7,
        _ => 5,
    }
}

/// The English name of weekday `day` (1 is Monday, 7 is Sunday).
pub open spec fn spec_day_name(day: int) -> Seq<char> {
    if day == 1 {
        "Monday"@
    } else if day == 2 {
        "Tuesday"@
    } else if day == 3 {
        "Wednesday"@
    } else if day == 4 {
        "Thursday"@
    } else if day == 5 {
        "Friday"@
    } else if day == 6 {
        "Saturday"@
    } else {
        "Sunday"@
    }
}

pub fn day_name(day: usize) -> (name: &'static str)
    requires
        1 <= day <= 7,
    ensures
        name@ == spec_day_name(day as int),
{
    match day {
        1 => "Monday",
        2 => "Tuesday",
        3 => "Wednesday",
        4 => "Thursday",
        5 => "Friday",
        6 => "Saturday",
        _ => "Sunday",
    }
}

/// A day of the calendar as the timetable sees it: the year, the ISO week
/// number and the weekday (1 is Monday, 7 is Sunday).
#[derive(Clone, Copy)]
pub struct WeekPosition {
    pub year: i32,
    pub week: u32,
    pub day_of_week: u32,
}

/// A week of the timetable: one column per day shown, Monday first, and the
/// column to show first (`None`: the first one).
pub struct WeekView {
    pub days: Vec<DayColumn>,
    pub visible: Option<usize>,
}

/// Weekday `day` of the week of `active` is today, `now`.
pub open spec fn is_today(day: int, active: WeekPosition, now: WeekPosition) -> bool {
    day == now.day_of_week && active.week == now.week && active.year == now.year
}

/// The entries of `date`, if the timetable has any.
pub open spec fn day_schedule(table: DayMap, date: Date) -> Option<DaySchedule> {
    match table.day_at(date) {
        Some(entry) => Some(entry.schedule),
        None => None,
    }
}

/// The blocks of lesson hour `hour` of weekday `day` with the entries `sched`.
pub open spec fn day_slot_spec(hours: SchoolHoursMap, sched: Option<DaySchedule>, day: usize, hour: usize) -> Option<
    Seq<BlockView>,
> {
    match sched {
        Some(s) => slot_spec(hours, s, day, hour),
        None => None,
    }
}

/// The times of the school list weekday `day` for every hour of `date` that
/// needs it.
pub open spec fn column_fits(hours: SchoolHoursMap, table: DayMap, date: Date, day: usize) -> bool {
    match day_schedule(table, date) {
        Some(s) => hours_fit(hours, s, day, table.max_hour() as usize),
        None => true,
    }
}

/// Every day of `dates` (the first is Monday) fits the times of the school.
pub open spec fn week_fits(hours: SchoolHoursMap, table: DayMap, dates: Seq<Date>) -> bool {
    forall|i: int| 0 <= i < dates.len() ==> #[trigger] column_fits(hours, table, dates[i], (i + 1) as usize)
}

/// Column `column` is weekday `day` of the week, which is `date`.
pub open spec fn column_spec(
    column: DayColumn,
    hours: SchoolHoursMap,
    table: DayMap,
    date: Date,
    day: int,
    active: WeekPosition,
    now: WeekPosition,
) -> bool {
    let max = table.max_hour();
    &&& column.title@ == spec_day_name(day)
    &&& column.active == is_today(day, active, now)
    &&& column.slots@.len() == max
    &&& forall|k: int|
        0 <= k < max ==> #[trigger] slot_view(column.slots@[k]) == day_slot_spec(
            hours,
            day_schedule(table, date),
            day as usize,
            (k + 1) as usize,
        )
}

/// `w` is the week of `active` with the days `dates` (the first is Monday).
pub open spec fn week_spec(
    w: WeekView,
    hours: SchoolHoursMap,
    table: DayMap,
    dates: Seq<Date>,
    active: WeekPosition,
    now: WeekPosition,
) -> bool {
    &&& w.days@.len() == dates.len()
    &&& forall|i: int|
        0 <= i < dates.len() ==> column_spec(#[trigger] w.days@[i], hours, table, dates[i], i + 1, active, now)
    &&& w.visible == (if 1 <= active.day_of_week <= dates.len() {
        Some((active.day_of_week - 1) as usize)
    } else {
        None
    })
}

/// The week of `active` whose days are `dates`, Monday first.
pub fn layout_week(
    hours: &SchoolHoursMap,
    table: &DayMap,
    dates: &Vec<Date>,
    active: &WeekPosition,
    now: &WeekPosition,
) -> (week: WeekView)
    requires
        dates@.len() <= 7,
        week_fits(*hours, *table, dates@),
    ensures
        week_spec(week, *hours, *table, dates@, *active, *now),
{
    let max = table.longest_day();
    let empty = DaySchedule { slots: Vec::new() };
    let mut columns: Vec<DayColumn> = Vec::new();
    let mut visible: Option<usize> = None;
    let mut i: usize = 0;
    while i < dates.len()
        invariant
            i <= dates@.len() <= 7,
            max == table.max_hour(),
            empty.slots@.len() == 0,
            week_fits(*hours, *table, dates@),
            columns@.len() == i,
            forall|m: int|
                0 <= m < i ==> column_spec(#[trigger] columns@[m], *hours, *table, dates@[m], m + 1, *active, *now),
            visible == (if 1 <= active.day_of_week <= i {
                Some((active.day_of_week - 1) as usize)
            } else {
                None
            }),
        decreases dates@.len() - i,
    {
        let day = i + 1;
        let name = day_name(day);
        let date = dates[i];
        let today = day as u32 == now.day_of_week && active.week == now.week && active.year == now.year;
        assert(column_fits(*hours, *table, dates@[i as int], (i + 1) as usize));
        let column = match table.find(date) {
            Some(k) => {
                assert(day_schedule(*table, date) == Some(table.days@[k as int].schedule));
                get_blocks(hours, &table.days[k].schedule, (day, name), today, max)
            },
            None => {
                assert(day_schedule(*table, date) is None);
                assert forall|h: usize| #[trigger] empty.slot_at(h) is None by {
                    lemma_first_none(slot_keys(empty.slots@), h);
                }
                get_blocks(hours, &empty, (day, name), today, max)
            },
        };
        assert(column_spec(column, *hours, *table, dates@[i as int], i + 1, *active, *now));
        columns.push(column);
        if day as u32 == active.day_of_week {
            visible = Some(i);
        }
        i += 1;
    }
    WeekView { days: columns, visible }
}

/// Whether the day `date`, which is weekday `day`, fits the times of the
/// school (see `column_fits`).
pub fn check_column_fits(hours: &SchoolHoursMap, table: &DayMap, date: Date, day: usize, max: usize) -> (ok: bool)
    requires
        max == table.max_hour(),
    ensures
        ok == column_fits(*hours, *table, date, day),
{
    match table.find(date) {
        None => true,
        Some(k) => {
            let sched = &table.days[k].schedule;
            assert(day_schedule(*table, date) == Some(*sched));
            let mut i: usize = 0;
            while i < max
                invariant
                    i <= max,
                    max == table.max_hour(),
                    day_schedule(*table, date) == Some(*sched),
                    forall|h: usize|
                        1 <= h <= i && (#[trigger] sched.slot_at(h)) is Some && hours.times_at(h) is Some
                            ==> 1 <= day <= hours.times_at(h)->0.times@.len(),
                decreases max - i,
            {
                let hour = i + 1;
                match sched.find(hour) {
                    Some(si) => {
                        assert(sched.slot_at(hour) is Some);
                        match hours.find(hour) {
                            Some(hi) => {
                                assert(hours.times_at(hour) == Some(hours.hours@[hi as int]));
                                let len = hours.hours[hi].times.len();
                                if day < 1 || day > len {
                                    assert(table.max_hour() as usize == max);
                                    assert(!hours_fit(*hours, *sched, day, max));
                                    return false;
                                }
                            },
                            None => {},
                        }
                    },
                    None => {},
                }
                i += 1;
            }
            true
        },
    }
}

/// Whether every day of `dates` (the first is Monday) fits the times of the
/// school (see `week_fits`).
pub fn check_week_fits(hours: &SchoolHoursMap, table: &DayMap, dates: &Vec<Date>) -> (ok: bool)
    ensures
        ok == week_fits(*hours, *table, dates@),
{
    let max = table.longest_day();
    let mut i: usize = 0;
    while i < dates.len()
        invariant
            i <= dates@.len(),
            max == table.max_hour(),
            forall|m: int| 0 <= m < i ==> #[trigger] column_fits(*hours, *table, dates@[m], (m + 1) as usize),
        decreases dates@.len() - i,
    {
        if !check_column_fits(hours, table, dates[i], i + 1, max) {
            return false;
        }
        i += 1;
    }
    true
}

/// The days of the week of `active`, Monday first, `n` of them.
pub open spec fn week_dates(active: WeekPosition, n: usize) -> Seq<Date> {
    Seq::new(n as nat, |i: int| iso_week_date(active.year, active.week, i as u8)->0)
}

/// The first `n` days of the week of `active` exist.
pub open spec fn week_exists(active: WeekPosition, n: usize) -> bool {
    forall|i: int| 0 <= i < n ==> (#[trigger] iso_week_date(active.year, active.week, i as u8)) is Some
}

/// The years whose weeks the calendar computes: all but the two ends of the
/// `i32` range.
pub open spec fn year_in_range(year: i32) -> bool {
    i32::MIN < year < i32::MAX
}

/// The week of `active` as the `bhvr-weekends` setting `weekends` shows it,
/// with today being `now`. `None` where the year is at an end of the `i32`
/// range, where the week of `active` does not exist, or where a day with
/// entries needs times that the school does not list for its weekday.
pub fn get_week(
    weekends: i32,
    hours: &SchoolHoursMap,
    table: &DayMap,
    active: &WeekPosition,
    now: &WeekPosition,
) -> (week: Option<WeekView>)
    ensures
        week is Some <==> year_in_range(active.year) && week_exists(*active, spec_days_shown(weekends))
            && week_fits(
            *hours,
            *table,
            week_dates(*active, spec_days_shown(weekends)),
        ),
        week matches Some(w) ==> week_spec(
            w,
            *hours,
            *table,
            week_dates(*active, spec_days_shown(weekends)),
            *active,
            *now,
        ),
{
    if active.year == i32::MIN || active.year == i32::MAX {
        return None;
    }
    let days = days_shown(weekends);
    let ghost all = week_dates(*active, days);
    let mut dates: Vec<Date> = Vec::new();
    let mut i: usize = 0;
    while i < days
        invariant
            i <= days <= 7,
            days == spec_days_shown(weekends),
            year_in_range(active.year),
            all == week_dates(*active, days),
            dates@ == all.take(i as int),
            forall|m: int| 0 <= m < i ==> (#[trigger] iso_week_date(active.year, active.week, m as u8)) is Some,
        decreases days - i,
    {
        match date_of_iso_week_day(active.year, active.week, i as u8) {
            Some(date) => {
                dates.push(date);
                assert(dates@ =~= all.take(i + 1));
            },
            None => {
                assert(iso_week_date(active.year, active.week, (i as int) as u8) is None);
                assert(!week_exists(*active, days));
                return None;
            },
        }
        i += 1;
    }
    assert(dates@ =~= all);
    if !check_week_fits(hours, table, &dates) {
        return None;
    }
    Some(layout_week(hours, table, &dates, active, now))
}

/// The days a horizontal swipe with velocity `x_velocity` (whole pixels per
/// second) moves the selected day: none for a velocity of at most 1024 either
/// way, one day back for a swipe to the right, one day forward for a swipe to
/// the left.
pub open spec fn spec_swipe_offset(x_velocity: i64) -> int {
    if -1024 <= x_velocity <= 1024 {
        0
    } else if x_velocity > 0 {
        -1
    } else {
        1
    }
}

pub fn swipe_offset(x_velocity: i64) -> (days: i64)
    ensures
        days == spec_swipe_offset(x_velocity),
{
    if -1024 <= x_velocity && x_velocity <= 1024 {
        0
    } else if x_velocity > 0 {
        -1
    } else if x_velocity < 0 {
        1
    } else {
        0
    }
}

/// Swipes of opposite velocities move the selected day by opposite amounts,
/// so one undoes the other.
pub proof fn lemma_swipes_cancel(x_velocity: i64)
    requires
        x_velocity > i64::MIN,
    ensures
        spec_swipe_offset((-x_velocity) as i64) == -spec_swipe_offset(x_velocity),
{
}

/// All columns of a week have the same number of rows, one per lesson hour up
/// to the longest day of the timetable, and at most one column is today.
pub proof fn lemma_week_rows_aligned(
    w: WeekView,
    hours: SchoolHoursMap,
    table: DayMap,
    dates: Seq<Date>,
    active: WeekPosition,
    now: WeekPosition,
    i: int,
    j: int,
)
    requires
        week_spec(w, hours, table, dates, active, now),
        0 <= i < dates.len(),
        0 <= j < dates.len(),
    ensures
        w.days@[i].slots@.len() == w.days@[j].slots@.len(),
        w.days@[i].slots@.len() == table.max_hour(),
        i != j ==> !(w.days@[i].active && w.days@[j].active),
{
    assert(column_spec(w.days@[i], hours, table, dates[i], i + 1, active, now));
    assert(column_spec(w.days@[j], hours, table, dates[j], j + 1, active, now));
}

/// Filling a block from an entry never touches its time label. A lesson
/// shows its subject, its teachers and its room and marks nothing; a
/// cancelled lesson shows exactly what the lesson would, marked cancelled; a
/// substitution shows the lesson held as a lesson would, and the replaced
/// lesson's subject, teachers and room in the substitution labels; an event
/// shows its text as the subject, marked as an event, and changes no other
/// label.
pub proof fn lemma_initialize_shows_entry(b: BlockView, e: TimetableElement)
    ensures
        spec_initialize(b, e).time == b.time,
        e matches TimetableElement::Lesson(l) ==> spec_initialize(b, e) == (BlockView {
            subject: l.subject.name@,
            teacher: teachers_text(l.teachers@),
            room: l.room@,
            ..b
        }),
        e matches TimetableElement::Cancelled(l) ==> spec_initialize(b, e) == (BlockView {
            cancelled: true,
            ..spec_initialize(b, TimetableElement::Lesson(l))
        }),
        e matches TimetableElement::Substitution(held, replaced) ==> spec_initialize(b, e) == (BlockView {
            subst_visible: true,
            subst_subject: replaced.subject.name@,
            subst_teacher: teachers_text(replaced.teachers@),
            subst_room: replaced.room@,
            ..spec_initialize(b, TimetableElement::Lesson(held))
        }),
        e matches TimetableElement::Event(ev) ==> spec_initialize(b, e) == (BlockView {
            subject: ev.text@,
            event: true,
            ..b
        }),
{
}

/// The teachers of a lesson are named one after the other, from the first,
/// separated by `; `.
pub proof fn lemma_teachers_text_front(t: Teacher, ts: Seq<Teacher>)
    ensures
        teachers_text(seq![t] + ts) == (if ts.len() == 0 {
            teacher_text(t)
        } else {
            teacher_text(t) + "; "@ + teachers_text(ts)
        }),
    decreases ts.len(),
{
    let all = seq![t] + ts;
    if ts.len() == 0 {
        assert(all =~= seq![t]);
    } else if ts.len() == 1 {
        assert(all.drop_last() =~= seq![t]);
        assert(all.last() == ts[0]);
        assert(teachers_text(seq![t]) == teacher_text(t));
        assert(teachers_text(ts) == teacher_text(ts[0]));
        assert(teachers_text(all) == teachers_text(all.drop_last()) + "; "@ + teacher_text(all.last()));
    } else {
        lemma_teachers_text_front(t, ts.drop_last());
        assert(all.drop_last() =~= seq![t] + ts.drop_last());
        assert(all.last() == ts.last());
        assert(teachers_text(ts) == teachers_text(ts.drop_last()) + "; "@ + teacher_text(ts.last()));
        assert(teachers_text(all) == teachers_text(all.drop_last()) + "; "@ + teacher_text(all.last()));
        assert(teacher_text(t) + "; "@ + teachers_text(ts.drop_last()) + "; "@ + teacher_text(ts.last())
            =~= teacher_text(t) + "; "@ + (teachers_text(ts.drop_last()) + "; "@ + teacher_text(ts.last())));
    }
}

/// A lesson hour of a day has blocks exactly when the day has a slot for it,
/// one block per entry of the slot in order, each showing its entry; every
/// block of the hour carries the hour's time label (`HH:MM - HH:MM` of the
/// day's weekday) when the school lists times for the hour, and no time
/// label otherwise.
pub proof fn lemma_slot_blocks(hours: SchoolHoursMap, elements: DaySchedule, day: usize, hour: usize)
    ensures
        slot_spec(hours, elements, day, hour) is Some <==> elements.slot_at(hour) is Some,
        elements.slot_at(hour) matches Some(slot) ==> {
            let blocks = slot_spec(hours, elements, day, hour)->0;
            &&& blocks.len() == slot.elements@.len()
            &&& forall|m: int|
                0 <= m < blocks.len() ==> (BlockView { time: seq![], ..#[trigger] blocks[m] })
                    == spec_initialize(empty_block(), slot.elements@[m])
            &&& forall|m: int|
                0 <= m < blocks.len() ==> (#[trigger] blocks[m]).time == (match hours.times_at(hour) {
                    Some(ht) => hour_label_text(ht.times@[day - 1]),
                    None => seq![],
                })
        },
{
    if let Some(slot) = elements.slot_at(hour) {
        let blocks = slot_spec(hours, elements, day, hour)->0;
        assert forall|m: int| 0 <= m < blocks.len() implies (BlockView { time: seq![], ..#[trigger] blocks[m] })
            == spec_initialize(empty_block(), slot.elements@[m]) && blocks[m].time == (match hours.times_at(hour) {
                Some(ht) => hour_label_text(ht.times@[day - 1]),
                None => seq![],
            }) by {
            lemma_initialize_shows_entry(empty_block(), slot.elements@[m]);
            assert(BlockView { time: seq![], ..blocks[m] } =~= spec_initialize(empty_block(), slot.elements@[m]));
        }
    }
}

/// A week shows five days without weekends, six with Saturday and seven with
/// the whole weekend; an unknown setting shows five.
pub proof fn lemma_days_shown(weekends: i32)
    ensures
        5 <= spec_days_shown(weekends) <= 7,
        0 <= weekends <= 2 ==> spec_days_shown(weekends) == 5 + weekends,
        !(0 <= weekends <= 2) ==> spec_days_shown(weekends) == 5,
{
}

/// The seven weekdays have seven different names, from Monday to Sunday.
pub proof fn lemma_day_names(a: int, b: int)
    requires
        1 <= a <= 7,
        1 <= b <= 7,
    ensures
        a != b ==> spec_day_name(a) != spec_day_name(b),
        spec_day_name(1) == "Monday"@,
        spec_day_name(2) == "Tuesday"@,
        spec_day_name(3) == "Wednesday"@,
        spec_day_name(4) == "Thursday"@,
        spec_day_name(5) == "Friday"@,
        spec_day_name(6) == "Saturday"@,
        spec_day_name(7) == "Sunday"@,
{
    reveal_strlit("Monday");
    reveal_strlit("Tuesday");
    reveal_strlit("Wednesday");
    reveal_strlit("Thursday");
    reveal_strlit("Friday");
    reveal_strlit("Saturday");
    reveal_strlit("Sunday");
    if a != b {
        let na = spec_day_name(a);
        let nb = spec_day_name(b);
        assert(na.len() != nb.len() || na[0] != nb[0] || na[1] != nb[1]);
    }
}

/// A week shows what the timetable holds for its days. Where the timetable
/// has an entry for the date of column `i` (no date and no lesson hour of a
/// day listed twice), every lesson hour of that entry from 1 on has a row in
/// the column holding one block per timetable entry of that hour; a column
/// whose date the timetable does not list has no blocks. The column shown
/// first is the one of the selected weekday, and a column is marked today
/// exactly when its weekday is today's in today's week.
pub proof fn lemma_week_shows_table(
    w: WeekView,
    hours: SchoolHoursMap,
    table: DayMap,
    dates: Seq<Date>,
    active: WeekPosition,
    now: WeekPosition,
    i: int,
)
    requires
        week_spec(w, hours, table, dates, active, now),
        table.well_formed(),
        0 <= i < dates.len(),
    ensures
        forall|e: int, k: int|
            0 <= e < table.days@.len() && table.days@[e].date == dates[i] && table.days@[e].schedule.well_formed()
                && 0 <= k < table.days@[e].schedule.slots@.len() && #[trigger] table.days@[e].schedule.slots@[k].hour
                >= 1 ==> {
                let slot = table.days@[e].schedule.slots@[k];
                &&& slot.hour <= w.days@[i].slots@.len()
                &&& slot_view(w.days@[i].slots@[slot.hour - 1]) is Some
                &&& slot_view(w.days@[i].slots@[slot.hour - 1])->0.len() == slot.elements@.len()
            },
        (forall|e: int| 0 <= e < table.days@.len() ==> #[trigger] table.days@[e].date != dates[i]) ==> forall|
            k: int,
        | 0 <= k < w.days@[i].slots@.len() ==> #[trigger] slot_view(w.days@[i].slots@[k]) is None,
        w.visible matches Some(v) ==> v + 1 == active.day_of_week && v < dates.len(),
        w.days@[i].active <==> (i + 1 == now.day_of_week && active.week == now.week && active.year == now.year),
{
    let col = w.days@[i];
    assert(column_spec(col, hours, table, dates[i], i + 1, active, now));
    lemma_longest_day_bounds(table);
    assert forall|e: int, k: int|
        0 <= e < table.days@.len() && table.days@[e].date == dates[i] && table.days@[e].schedule.well_formed()
            && 0 <= k < table.days@[e].schedule.slots@.len() && #[trigger] table.days@[e].schedule.slots@[k].hour
            >= 1 implies {
            let slot = table.days@[e].schedule.slots@[k];
            &&& slot.hour <= w.days@[i].slots@.len()
            &&& slot_view(w.days@[i].slots@[slot.hour - 1]) is Some
            &&& slot_view(w.days@[i].slots@[slot.hour - 1])->0.len() == slot.elements@.len()
        } by {
        let entry = table.days@[e];
        let slot = entry.schedule.slots@[k];
        lemma_day_found(table, e);
        lemma_slot_found(entry.schedule, k);
        assert(day_schedule(table, dates[i]) == Some(entry.schedule));
        let r = slot.hour - 1;
        assert(slot_view(col.slots@[r]) == day_slot_spec(hours, Some(entry.schedule), (i + 1) as usize, (r + 1) as usize));
        lemma_slot_blocks(hours, entry.schedule, (i + 1) as usize, slot.hour);
    }
    if forall|e: int| 0 <= e < table.days@.len() ==> #[trigger] table.days@[e].date != dates[i] {
        lemma_first_none(day_keys(table.days@), dates[i]);
        assert forall|k: int| 0 <= k < col.slots@.len() implies #[trigger] slot_view(col.slots@[k]) is None by {
            assert(slot_view(col.slots@[k]) == day_slot_spec(hours, day_schedule(table, dates[i]), (i + 1) as usize, (k + 1) as usize));
        }
    }
}

/// A teacher is named `Lastname, Firstname` when both names are known, by
/// the last name alone when only it is known, and by the abbreviation when
/// the last name is not known; a lesson with one teacher names that teacher
/// and a lesson without teachers names nobody.
pub proof fn lemma_teacher_names(t: Teacher)
    ensures
        t.lastname matches Some(last) ==> (t.firstname matches Some(first) ==> teacher_text(t) == last@
            + ", "@ + first@),
        t.lastname matches Some(last) ==> (t.firstname is None ==> teacher_text(t) == last@),
        t.lastname is None ==> teacher_text(t) == t.abbreviation@,
        teachers_text(seq![t]) == teacher_text(t),
        teachers_text(Seq::<Teacher>::empty()) == Seq::<char>::empty(),
{
}

} // verus!
