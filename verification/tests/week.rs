use magnesium::efg::timetable::blocks::{
    check_week_fits, day_name, days_shown, get_week, layout_week, swipe_offset, WeekPosition,
};
use magnesium::models::smart::{
    ClockTime, DayEntry, DayMap, DaySchedule, HourSlot, HourTimes, Lesson, SchoolHoursMap, Subject,
    TimetableElement,
};

fn lesson(subject: &str) -> TimetableElement {
    TimetableElement::Lesson(Lesson {
        subject: Subject { name: subject.to_string() },
        teachers: Vec::new(),
        room: "R1".to_string(),
    })
}

fn day(date: (i32, u32, u32), slots: Vec<(usize, &str)>) -> DayEntry {
    DayEntry {
        date,
        schedule: DaySchedule {
            slots: slots.into_iter().map(|(hour, s)| HourSlot { hour, elements: vec![lesson(s)] }).collect(),
        },
    }
}

fn hours(weekdays: usize) -> SchoolHoursMap {
    let t = (ClockTime::new(8, 0).unwrap(), ClockTime::new(8, 45).unwrap());
    SchoolHoursMap {
        hours: vec![
            HourTimes { hour: 1, times: vec![t; weekdays] },
            HourTimes { hour: 2, times: vec![t; weekdays] },
        ],
    }
}

#[test]
fn days_shown_follow_the_weekend_setting() {
    assert_eq!(days_shown(0), 5);
    assert_eq!(days_shown(1), 6);
    assert_eq!(days_shown(2), 7);
    assert_eq!(days_shown(3), 5);
    assert_eq!(days_shown(-1), 5);
}

#[test]
fn day_names() {
    let names: Vec<&str> = (1..=7).map(day_name).collect();
    assert_eq!(names, vec!["Monday", "Tuesday", "Wednesday", "Thursday", "Friday", "Saturday", "Sunday"]);
}

#[test]
fn week_of_march_2015() {
    // ISO week 10 of 2015 runs from Monday 2 March to Sunday 8 March.
    let table = DayMap {
        days: vec![
            day((2015, 3, 4), vec![(1, "Math"), (2, "Art")]),
            day((2015, 3, 9), vec![(3, "Bio")]),
        ],
    };
    let active = WeekPosition { year: 2015, week: 10, day_of_week: 3 };
    let week = get_week(0, &hours(5), &table, &active, &active).unwrap();
    assert_eq!(week.days.len(), 5);
    assert_eq!(week.visible, Some(2));
    for (i, column) in week.days.iter().enumerate() {
        // the longest day of the table has three hours
        assert_eq!(column.slots.len(), 3);
        assert_eq!(column.active, i == 2);
    }
    assert_eq!(week.days[2].title, "Wednesday");
    assert_eq!(week.days[2].slots[0].as_ref().unwrap()[0].subject, "Math");
    assert_eq!(week.days[2].slots[0].as_ref().unwrap()[0].time, "08:00 - 08:45");
    assert_eq!(week.days[2].slots[1].as_ref().unwrap()[0].subject, "Art");
    assert!(week.days[2].slots[2].is_none());
    assert!(week.days[0].slots.iter().all(|s| s.is_none()));
}

#[test]
fn week_with_weekend_days() {
    let table = DayMap { days: vec![day((2015, 3, 8), vec![(1, "Trip")])] };
    let active = WeekPosition { year: 2015, week: 10, day_of_week: 7 };
    let now = WeekPosition { year: 2015, week: 11, day_of_week: 7 };
    let week = get_week(2, &hours(7), &table, &active, &now).unwrap();
    assert_eq!(week.days.len(), 7);
    assert_eq!(week.visible, Some(6));
    assert!(week.days.iter().all(|c| !c.active));
    assert_eq!(week.days[6].title, "Sunday");
    assert_eq!(week.days[6].slots[0].as_ref().unwrap()[0].subject, "Trip");
    // without weekends the Sunday is not shown and no column is visible first
    let week = get_week(0, &hours(7), &table, &active, &now).unwrap();
    assert_eq!(week.days.len(), 5);
    assert_eq!(week.visible, None);
}

#[test]
fn missing_week_gives_none() {
    let table = DayMap { days: Vec::new() };
    let active = WeekPosition { year: 2014, week: 53, day_of_week: 1 };
    assert!(get_week(0, &hours(5), &table, &active, &active).is_none());
    let active = WeekPosition { year: 2015, week: 53, day_of_week: 1 };
    assert!(get_week(0, &hours(5), &table, &active, &active).is_some());
}

#[test]
fn too_few_weekday_times_give_none() {
    let table = DayMap { days: vec![day((2015, 3, 7), vec![(1, "Sat")])] };
    let active = WeekPosition { year: 2015, week: 10, day_of_week: 6 };
    assert!(get_week(1, &hours(5), &table, &active, &active).is_none());
    assert!(get_week(1, &hours(6), &table, &active, &active).is_some());
    let dates = vec![(2015, 3, 2), (2015, 3, 3), (2015, 3, 4), (2015, 3, 5), (2015, 3, 6), (2015, 3, 7)];
    assert!(!check_week_fits(&hours(5), &table, &dates));
    assert!(check_week_fits(&hours(6), &table, &dates));
    let week = layout_week(&hours(6), &table, &dates, &active, &active);
    assert_eq!(week.days[5].slots[0].as_ref().unwrap()[0].subject, "Sat");
}

#[test]
fn longest_day_spans_the_table() {
    let table = DayMap { days: vec![day((2015, 3, 4), vec![(2, "A")]), day((2016, 1, 1), vec![(6, "B"), (4, "C")])] };
    assert_eq!(table.longest_day(), 6);
    assert_eq!(DayMap { days: Vec::new() }.longest_day(), 0);
    assert_eq!(table.find((2016, 1, 1)), Some(1));
    assert_eq!(table.find((2016, 1, 2)), None);
}

#[test]
fn swipes_move_by_a_day() {
    assert_eq!(swipe_offset(0), 0);
    assert_eq!(swipe_offset(1024), 0);
    assert_eq!(swipe_offset(-1024), 0);
    assert_eq!(swipe_offset(1025), -1);
    assert_eq!(swipe_offset(-1025), 1);
    assert_eq!(swipe_offset(i64::MIN), 1);
    assert_eq!(swipe_offset(5000) + swipe_offset(-5000), 0);
}

#[test]
fn years_at_the_ends_of_the_range_give_none() {
    let table = DayMap { days: Vec::new() };
    let low = WeekPosition { year: i32::MIN, week: 1, day_of_week: 1 };
    assert!(get_week(0, &hours(5), &table, &low, &low).is_none());
    let high = WeekPosition { year: i32::MAX, week: 1, day_of_week: 1 };
    assert!(get_week(0, &hours(5), &table, &high, &high).is_none());
}
