use magnesium::efg::timetable::{
    day_delta, nav_step, same_week, state_view, week_change, weekend_redirect, StateView, WeekChange, TIME_SPAN_DAY,
};
use magnesium::efg::timetable::blocks::WeekPosition;
use magnesium::efg::SchulmanagerState;

#[test]
fn buttons_move_a_day_or_a_week() {
    assert_eq!(nav_step(true, None), 1);
    assert_eq!(nav_step(false, None), -1);
    assert_eq!(nav_step(true, Some(true)), 1);
    assert_eq!(nav_step(false, Some(true)), -1);
    assert_eq!(nav_step(true, Some(false)), 7);
    assert_eq!(nav_step(false, Some(false)), -7);
    for folded in [None, Some(true), Some(false)] {
        assert_eq!(nav_step(true, folded) + nav_step(false, folded), 0);
    }
}

#[test]
fn day_delta_rounds_towards_zero() {
    assert_eq!(day_delta(0), 0);
    assert_eq!(day_delta(TIME_SPAN_DAY * 3), 3);
    assert_eq!(day_delta(TIME_SPAN_DAY * 3 - 1), 2);
    assert_eq!(day_delta(-1), 0);
    assert_eq!(day_delta(-TIME_SPAN_DAY - 1), -1);
    assert_eq!(day_delta(-(TIME_SPAN_DAY * 2 + 5)), -day_delta(TIME_SPAN_DAY * 2 + 5));
}

#[test]
fn hidden_weekend_days_are_skipped() {
    // no weekends: Saturday (6) and Sunday (7) are hidden
    assert_eq!(weekend_redirect(0, 6, 1), Some(2));
    assert_eq!(weekend_redirect(0, 7, 1), Some(1));
    assert_eq!(weekend_redirect(0, 6, -1), Some(-1));
    assert_eq!(weekend_redirect(0, 7, -1), Some(-2));
    assert_eq!(weekend_redirect(0, 6, 0), Some(2));
    assert_eq!(weekend_redirect(0, 5, 1), None);
    // Saturday shown: only Sunday is hidden
    assert_eq!(weekend_redirect(1, 6, 1), None);
    assert_eq!(weekend_redirect(1, 7, 1), Some(1));
    assert_eq!(weekend_redirect(1, 7, -3), Some(-1));
    // whole weekend shown
    assert_eq!(weekend_redirect(2, 7, 1), None);
    assert_eq!(weekend_redirect(2, 6, -1), None);
}

#[test]
fn selection_in_the_shown_week_navigates() {
    assert!(matches!(week_change(true, true, 3), WeekChange::Navigate { forward: true, steps: 3 }));
    assert!(matches!(week_change(true, true, -7), WeekChange::Navigate { forward: false, steps: 7 }));
    assert!(matches!(week_change(true, true, 0), WeekChange::Navigate { forward: false, steps: 0 }));
    assert!(matches!(week_change(false, true, 3), WeekChange::Reload));
    assert!(matches!(week_change(true, false, 3), WeekChange::Reload));
    assert!(matches!(week_change(false, false, 100), WeekChange::Reload));
}

#[test]
fn states_have_their_views() {
    assert!(matches!(state_view(&SchulmanagerState::Available(5u8)), StateView::Timetable));
    assert!(matches!(state_view(&SchulmanagerState::<u8>::Uninitialized), StateView::Loading));
    match state_view(&SchulmanagerState::<u8>::NoCredentials) {
        StateView::Status(page) => {
            assert_eq!(page.title, "M$ O365 authentication not set-up");
            assert_eq!(
                page.description,
                "To authenticate with M$ SSO, enter your credentials under Preferences \u{2192} Online Accounts."
            );
            assert_eq!(page.icon_name, "dialog-warning-symbolic");
        },
        _ => panic!("expected a status page"),
    }
    match state_view(&SchulmanagerState::<u8>::Error("token expired".to_string())) {
        StateView::Status(page) => {
            assert_eq!(page.title, "Authentication error");
            assert_eq!(page.description, "token expired");
        },
        _ => panic!("expected a status page"),
    }
    let default: SchulmanagerState<u8> = Default::default();
    assert!(matches!(default, SchulmanagerState::Uninitialized));
}

#[test]
fn same_week_needs_week_and_year() {
    let a = WeekPosition { year: 2015, week: 10, day_of_week: 1 };
    assert!(same_week(&a, &WeekPosition { year: 2015, week: 10, day_of_week: 7 }));
    assert!(!same_week(&a, &WeekPosition { year: 2015, week: 11, day_of_week: 1 }));
    assert!(!same_week(&a, &WeekPosition { year: 2016, week: 10, day_of_week: 1 }));
}

#[test]
fn redirect_near_the_end_of_the_range() {
    assert_eq!(weekend_redirect(i32::MIN, i32::MIN + 6, -1), Some(-1));
    assert_eq!(weekend_redirect(i32::MIN + 2, 7, -1), Some(i32::MIN));
}
