pub mod blocks;

use vstd::prelude::*;

use crate::efg::SchulmanagerState;
use crate::efg::timetable::blocks::WeekPosition;

verus! {

/// The length of a day in microseconds, the unit of calendar time spans.
pub const TIME_SPAN_DAY: i64 = 86_400_000_000;

/// The number of whole days in a time span of `span` microseconds, rounded
/// towards zero.
pub open spec fn spec_day_delta(span: i64) -> int {
    let d = TIME_SPAN_DAY as int;
    if span >= 0 {
        (span as int) / d
    } else {
        -((-(span as int)) / d)
    }
}

pub fn day_delta(span: i64) -> (days: i64)
    ensures
        days == spec_day_delta(span),
{
    span / TIME_SPAN_DAY
}

/// How far the previous/next buttons move the selected day: one day when the
/// week is shown folded (one day at a time) or no week is shown, seven days
/// when the whole week is shown. `week_folded` is `None` when no week is
/// shown, else whether it is folded.
pub open spec fn spec_nav_step(forward: bool, week_folded: Option<bool>) -> int {
    let days: int = match week_folded {
        Some(false) => 7,
        _ => 1,
    };
    if forward {
        days
    } else {
        -days
    }
}

pub fn nav_step(forward: bool, week_folded: Option<bool>) -> (delta: i32)
    ensures
        delta == spec_nav_step(forward, week_folded),
{
    let days: i32 = match week_folded {
        Some(folded) => if folded {
            1
        } else {
            7
        },
        None => 1,
    };
    if forward {
        days
    } else {
        -days
    }
}

/// When the selected weekday `weekday` (1 is Monday) is a weekend day that
/// the `bhvr-weekends` setting `weekends` hides, the days to add to reach the
/// day shown instead: the last shown day of the week when moving backwards
/// (`delta` below zero), else the next Monday.
pub open spec fn spec_weekend_redirect(weekends: i32, weekday: i32, delta: i64) -> Option<int> {
    if weekends < 2 && 6 + weekends <= weekday <= 7 {
        Some((if delta < 0 {
            5 + weekends
        } else {
            8
        }) - weekday)
    } else {
        None
    }
}

/// The redirect of `spec_weekend_redirect` fits in an `i32`.
pub open spec fn redirect_fits(weekends: i32, weekday: i32, delta: i64) -> bool {
    match spec_weekend_redirect(weekends, weekday, delta) {
        Some(s) => i32::MIN <= s <= i32::MAX,
        None => true,
    }
}

pub fn weekend_redirect(weekends: i32, weekday: i32, delta: i64) -> (shift: Option<i32>)
    requires
        redirect_fits(weekends, weekday, delta),
    ensures
        match spec_weekend_redirect(weekends, weekday, delta) {
            Some(s) => shift == Some(s as i32),
            None => shift is None,
        },
{
    if weekends < 2 {
        if weekends + 6 <= weekday && weekday <= 7 {
            let den = if delta < 0 {
                5 + weekends
            } else {
                8
            };
            return Some(den - weekday);
        }
    }
    None
}

/// A hidden weekend day is left in the direction of travel, for the last
/// shown day of its week when moving backwards and for the next Monday
/// otherwise; a shown day is never redirected.
pub proof fn lemma_weekend_redirect_lands_on_shown_day(weekends: i32, weekday: i32, delta: i64)
    requires
        0 <= weekends <= 2,
        1 <= weekday <= 7,
    ensures
        weekday <= 5 + weekends ==> spec_weekend_redirect(weekends, weekday, delta) is None,
        spec_weekend_redirect(weekends, weekday, delta) matches Some(s) ==> {
            &&& delta < 0 ==> s < 0 && weekday + s == 5 + weekends
            &&& delta >= 0 ==> s > 0 && weekday + s == 8
        },
{
}

/// How the shown week follows a newly selected day.
pub enum WeekChange {
    /// Move `steps` days forwards or backwards within the shown week.
    Navigate { forward: bool, steps: u64 },
    /// Load and show the week of the selected day.
    Reload,
}

/// When the newly selected day is in the week already shown (`same_week`)
/// and a week is shown, the shown week moves by `delta` days; else the week
/// of the selected day is loaded.
pub fn week_change(same_week: bool, week_shown: bool, delta: i64) -> (change: WeekChange)
    requires
        same_week && week_shown ==> -7 <= delta <= 7,
    ensures
        same_week && week_shown ==> change == (WeekChange::Navigate {
            forward: delta > 0,
            steps: (if delta < 0 {
                -delta
            } else {
                delta as int
            }) as u64,
        }),
        !(same_week && week_shown) ==> change is Reload,
{
    if same_week && week_shown {
        let steps: u64 = if delta < 0 {
            (-delta) as u64
        } else {
            delta as u64
        };
        WeekChange::Navigate { forward: delta > 0, steps }
    } else {
        WeekChange::Reload
    }
}

/// A page that explains why no timetable is shown.
pub struct StatusPage {
    pub title: String,
    pub description: String,
    pub icon_name: String,
}

/// What the timetable area shows for a connection state.
pub enum StateView {
    /// The timetable of the selected day, with the navigation enabled.
    Timetable,
    /// A status page, with the navigation disabled.
    Status(StatusPage),
    /// The loading spinner, with the navigation disabled.
    Loading,
}

pub open spec fn status_page_is(page: StatusPage, title: Seq<char>, description: Seq<char>) -> bool {
    page.title@ == title && page.description@ == description && page.icon_name@ == "dialog-warning-symbolic"@
}

pub fn state_view<S>(state: &SchulmanagerState<S>) -> (view: StateView)
    ensures
        match *state {
            SchulmanagerState::Available(_) => view is Timetable,
            SchulmanagerState::NoCredentials => view matches StateView::Status(page) && status_page_is(
                page,
                "M$ O365 authentication not set-up"@,
                "To authenticate with M$ SSO, enter your credentials under Preferences \u{2192} Online Accounts."@,
            ),
            SchulmanagerState::Error(msg) => view matches StateView::Status(page) && status_page_is(
                page,
                "Authentication error"@,
                msg@,
            ),
            SchulmanagerState::Uninitialized => view is Loading,
        },
{
    match state {
        SchulmanagerState::Available(_) => StateView::Timetable,
        SchulmanagerState::NoCredentials => StateView::Status(
            StatusPage {
                title: "M$ O365 authentication not set-up".to_owned(),
                description: "To authenticate with M$ SSO, enter your credentials under Preferences \u{2192} Online Accounts.".to_owned(),
                icon_name: "dialog-warning-symbolic".to_owned(),
            },
        ),
        SchulmanagerState::Error(msg) => StateView::Status(
            StatusPage {
                title: "Authentication error".to_owned(),
                description: msg.clone(),
                icon_name: "dialog-warning-symbolic".to_owned(),
            },
        ),
        SchulmanagerState::Uninitialized => StateView::Loading,
    }
}

/// The previous and next buttons move the selected day by opposite amounts,
/// so pressing one and then the other comes back to the same day.
pub proof fn lemma_nav_steps_cancel(week_folded: Option<bool>)
    ensures
        spec_nav_step(true, week_folded) + spec_nav_step(false, week_folded) == 0,
        spec_nav_step(true, week_folded) > 0,
{
}

/// Spans of opposite sign count the same number of whole days.
pub proof fn lemma_day_delta_antisymmetric(span: i64)
    requires
        span > i64::MIN,
    ensures
        spec_day_delta((-span) as i64) == -spec_day_delta(span),
{
}

/// Whether two days lie in the same week of the same year.
pub fn same_week(a: &WeekPosition, b: &WeekPosition) -> (same: bool)
    ensures
        same == (a.week == b.week && a.year == b.year),
{
    a.week == b.week && a.year == b.year
}

/// The whole days of a span, rounded towards zero: that many days fit in the
/// span, and one more does not.
pub proof fn lemma_day_delta_rounds_to_zero(span: i64)
    ensures
        span >= 0 ==> 0 <= spec_day_delta(span) && spec_day_delta(span) * TIME_SPAN_DAY <= span
            < (spec_day_delta(span) + 1) * TIME_SPAN_DAY,
        span < 0 ==> spec_day_delta(span) <= 0 && (spec_day_delta(span) - 1) * TIME_SPAN_DAY < span
            <= spec_day_delta(span) * TIME_SPAN_DAY,
{
}

/// The buttons move one day when the week is folded or no week is shown,
/// and a whole week when the week is shown unfolded; forwards moves to a
/// later day and backwards to an earlier one.
pub proof fn lemma_nav_step_size(forward: bool, week_folded: Option<bool>)
    ensures
        forward ==> spec_nav_step(forward, week_folded) > 0,
        !forward ==> spec_nav_step(forward, week_folded) < 0,
        week_folded == Some(false) ==> (spec_nav_step(forward, week_folded) == 7 || spec_nav_step(
            forward,
            week_folded,
        ) == -7),
        week_folded != Some(false) ==> (spec_nav_step(forward, week_folded) == 1 || spec_nav_step(
            forward,
            week_folded,
        ) == -1),
{
}

/// A swipe moves the selected day by at most one day, only when it is faster
/// than 1024 pixels per second, and against the direction of the swipe.
pub proof fn lemma_swipe_moves_one_day(x_velocity: i64)
    ensures
        -1024 <= x_velocity <= 1024 <==> crate::efg::timetable::blocks::spec_swipe_offset(x_velocity) == 0,
        x_velocity > 1024 ==> crate::efg::timetable::blocks::spec_swipe_offset(x_velocity) == -1,
        x_velocity < -1024 ==> crate::efg::timetable::blocks::spec_swipe_offset(x_velocity) == 1,
{
}

} // verus!
