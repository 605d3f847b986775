use magnesium::efg::timetable::blocks::{get_blocks, hour_label, EfgTimetableBlock};
use magnesium::models::smart::{
    ClockTime, DaySchedule, Event, HourSlot, HourTimes, Lesson, SchoolHoursMap, Subject, Teacher,
    TimetableElement,
};

fn teacher(abbr: &str, first: Option<&str>, last: Option<&str>) -> Teacher {
    Teacher {
        abbreviation: abbr.to_string(),
        firstname: first.map(|s| s.to_string()),
        lastname: last.map(|s| s.to_string()),
    }
}

fn lesson(subject: &str, teachers: Vec<Teacher>, room: &str) -> Lesson {
    Lesson { subject: Subject { name: subject.to_string() }, teachers, room: room.to_string() }
}

fn time(h: u32, m: u32) -> ClockTime {
    ClockTime::new(h, m).unwrap()
}

#[test]
fn teachers_are_named_and_joined() {
    let block = EfgTimetableBlock::new();
    let ts = vec![
        teacher("MUE", Some("Anna"), Some("Mueller")),
        teacher("SCH", None, Some("Schmidt")),
        teacher("XY", Some("Nobody"), None),
    ];
    assert_eq!(block._format_teachers(&ts), "Mueller, Anna; Schmidt; XY");
    assert_eq!(block._format_teachers(&Vec::new()), "");
    assert_eq!(block._format_teachers(&vec![teacher("AB", None, None)]), "AB");
}

#[test]
fn lesson_block_shows_lesson() {
    let mut block = EfgTimetableBlock::new();
    block.initialize(&TimetableElement::Lesson(lesson("Math", vec![teacher("MUE", None, Some("Mueller"))], "R101")));
    assert_eq!(block.subject, "Math");
    assert_eq!(block.teacher, "Mueller");
    assert_eq!(block.room, "R101");
    assert!(!block.subst_visible && !block.cancelled && !block.event);
}

#[test]
fn substitution_block_shows_both_lessons() {
    let mut block = EfgTimetableBlock::new();
    block.initialize(&TimetableElement::Substitution(
        lesson("Physics", vec![teacher("KL", None, None)], "R2"),
        lesson("Math", vec![teacher("MUE", Some("Anna"), Some("Mueller"))], "R1"),
    ));
    assert_eq!((block.subject.as_str(), block.teacher.as_str(), block.room.as_str()), ("Physics", "KL", "R2"));
    assert!(block.subst_visible);
    assert_eq!(block.subst_subject, "Math");
    assert_eq!(block.subst_teacher, "Mueller, Anna");
    assert_eq!(block.subst_room, "R1");
}

#[test]
fn cancelled_and_event_blocks_are_marked() {
    let mut cancelled = EfgTimetableBlock::new();
    cancelled.initialize(&TimetableElement::Cancelled(lesson("Art", Vec::new(), "R3")));
    assert!(cancelled.cancelled && !cancelled.event);
    assert_eq!(cancelled.subject, "Art");
    let mut event = EfgTimetableBlock::new();
    event.initialize(&TimetableElement::Event(Event { text: "Sports day".to_string() }));
    assert!(event.event && !event.cancelled);
    assert_eq!(event.subject, "Sports day");
    assert_eq!(event.teacher, "");
}

#[test]
fn hour_labels_are_zero_padded() {
    assert_eq!(hour_label(&(time(7, 5), time(7, 50))), "07:05 - 07:50");
    assert_eq!(hour_label(&(time(13, 0), time(23, 59))), "13:00 - 23:59");
    let mut block = EfgTimetableBlock::new();
    block.set_hour_label("08:00 - 08:45");
    assert_eq!(block.time, "08:00 - 08:45");
}

#[test]
fn clock_times_must_be_times_of_day() {
    assert!(ClockTime::new(24, 0).is_none());
    assert!(ClockTime::new(0, 60).is_none());
    let t = time(23, 59);
    assert_eq!((t.hour(), t.minute()), (23, 59));
    assert_eq!(t.format_hm(), "23:59");
}

#[test]
fn day_column_has_a_row_per_hour() {
    let hours = SchoolHoursMap {
        hours: vec![HourTimes {
            hour: 1,
            times: vec![(time(8, 0), time(8, 45)), (time(8, 5), time(8, 50))],
        }],
    };
    let day = DaySchedule {
        slots: vec![
            HourSlot {
                hour: 1,
                elements: vec![
                    TimetableElement::Lesson(lesson("Math", Vec::new(), "R1")),
                    TimetableElement::Cancelled(lesson("Art", Vec::new(), "R2")),
                ],
            },
            HourSlot { hour: 3, elements: vec![TimetableElement::Lesson(lesson("Bio", Vec::new(), "R3"))] },
        ],
    };
    let column = get_blocks(&hours, &day, (2, "Tuesday"), true, 4);
    assert_eq!(column.title, "Tuesday");
    assert!(column.active);
    assert_eq!(column.slots.len(), 4);
    let first = column.slots[0].as_ref().unwrap();
    assert_eq!(first.len(), 2);
    assert_eq!(first[0].subject, "Math");
    assert_eq!(first[0].time, "08:05 - 08:50");
    assert!(first[1].cancelled);
    assert!(column.slots[1].is_none());
    let third = column.slots[2].as_ref().unwrap();
    assert_eq!(third[0].subject, "Bio");
    assert_eq!(third[0].time, "");
    assert!(column.slots[3].is_none());
}

#[test]
fn first_entry_of_a_repeated_hour_counts() {
    let day = DaySchedule {
        slots: vec![
            HourSlot { hour: 2, elements: vec![TimetableElement::Lesson(lesson("First", Vec::new(), "A"))] },
            HourSlot { hour: 2, elements: vec![TimetableElement::Lesson(lesson("Second", Vec::new(), "B"))] },
        ],
    };
    assert_eq!(day.find(2), Some(0));
    assert_eq!(day.find(1), None);
    assert_eq!(day.last_hour(), 2);
    let column = get_blocks(&SchoolHoursMap { hours: Vec::new() }, &day, (1, "Monday"), false, 2);
    assert!(column.slots[0].is_none());
    assert_eq!(column.slots[1].as_ref().unwrap()[0].subject, "First");
}

#[test]
fn each_hour_of_a_well_formed_schedule_is_found_at_its_entry() {
    let slot = |hour: usize, name: &str| HourSlot {
        hour,
        elements: vec![TimetableElement::Lesson(lesson(name, Vec::new(), "R"))],
    };
    let day = DaySchedule { slots: vec![slot(3, "C"), slot(1, "A"), slot(2, "B")] };
    assert_eq!(day.find(3), Some(0));
    assert_eq!(day.find(1), Some(1));
    assert_eq!(day.find(2), Some(2));
    let t = time(8, 0);
    let hours = SchoolHoursMap {
        hours: vec![HourTimes { hour: 2, times: vec![(t, t)] }, HourTimes { hour: 1, times: vec![(t, t)] }],
    };
    assert_eq!(hours.find(2), Some(0));
    assert_eq!(hours.find(1), Some(1));
    assert_eq!(hours.find(3), None);
}
