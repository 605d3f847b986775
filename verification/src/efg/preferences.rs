use vstd::prelude::*;

use crate::efg::timetable::blocks::spec_days_shown;
use crate::models::secret::ServiceProvider;

verus! {

/// The setting that says which weekend days the timetable shows.
pub const WEEKENDS_KEY: &'static str = "bhvr-weekends";

/// The setting that says which day a week starts with.
pub const WEEKSTART_KEY: &'static str = "bhvr-weekstart";

/// Which weekend days the timetable shows; one toggle button each.
#[derive(Debug, Clone, Copy, PartialEq, Eq, Structural)]
pub enum WeekendsChoice {
    No,
    Saturday,
    Yes,
}

/// The value of the weekends setting that a choice stands for.
pub open spec fn spec_weekends_value(choice: WeekendsChoice) -> i32 {
    match choice {
        WeekendsChoice::No => 0,
        WeekendsChoice::Saturday => 1,
        WeekendsChoice::Yes => 2,
    }
}

/// The choice that a value of the weekends setting stands for; none for a
/// value outside the setting's range.
pub open spec fn spec_weekends_choice(value: i32) -> Option<WeekendsChoice> {
    if value == 0 {
        Some(WeekendsChoice::No)
    } else if value == 1 {
        Some(WeekendsChoice::Saturday)
    } else if value == 2 {
        Some(WeekendsChoice::Yes)
    } else {
        None
    }
}

pub fn weekends_value(choice: WeekendsChoice) -> (value: i32)
    ensures
        value == spec_weekends_value(choice),
{
    match choice {
        WeekendsChoice::No => 0,
        WeekendsChoice::Saturday => 1,
        WeekendsChoice::Yes => 2,
    }
}

/// The toggle button to activate for the weekends setting's `value`.
pub fn weekends_choice(value: i32) -> (choice: Option<WeekendsChoice>)
    ensures
        choice == spec_weekends_choice(value),
{
    match value {
        0 => Some(WeekendsChoice::No),
        1 => Some(WeekendsChoice::Saturday),
        2 => Some(WeekendsChoice::Yes),
        _ => None,
    }
}

/// Which day a week starts with; one toggle button each.
#[derive(Debug, Clone, Copy, PartialEq, Eq, Structural)]
pub enum WeekStart {
    Monday,
    Sunday,
}

pub open spec fn spec_weekstart_value(start: WeekStart) -> i32 {
    match start {
        WeekStart::Monday => 0,
        WeekStart::Sunday => 1,
    }
}

pub open spec fn spec_weekstart_choice(value: i32) -> Option<WeekStart> {
    if value == 0 {
        Some(WeekStart::Monday)
    } else if value == 1 {
        Some(WeekStart::Sunday)
    } else {
        None
    }
}

pub fn weekstart_value(start: WeekStart) -> (value: i32)
    ensures
        value == spec_weekstart_value(start),
{
    match start {
        WeekStart::Monday => 0,
        WeekStart::Sunday => 1,
    }
}

/// The toggle button to activate for the week start setting's `value`.
pub fn weekstart_choice(value: i32) -> (start: Option<WeekStart>)
    ensures
        start == spec_weekstart_choice(value),
{
    match value {
        0 => Some(WeekStart::Monday),
        1 => Some(WeekStart::Sunday),
        _ => None,
    }
}

/// What a toggled button writes to its setting: its value, if the button is
/// now active; nothing when it was switched off.
pub fn toggled_value(active: bool, value: i32) -> (write: Option<i32>)
    ensures
        write == (if active {
            Some(value)
        } else {
            None
        }),
{
    if active {
        Some(value)
    } else {
        None
    }
}

/// The toggle that a toggle button writes is the toggle that is activated
/// when the setting is read back, and the reverse: each setting value in
/// range is written by exactly one toggle.
pub proof fn lemma_choice_round_trip(choice: WeekendsChoice, start: WeekStart, value: i32)
    ensures
        spec_weekends_choice(spec_weekends_value(choice)) == Some(choice),
        spec_weekstart_choice(spec_weekstart_value(start)) == Some(start),
        spec_weekends_choice(value) matches Some(c) ==> spec_weekends_value(c) == value,
        spec_weekstart_choice(value) matches Some(s) ==> spec_weekstart_value(s) == value,
{
}

/// The weekends choices show five, six and seven days a week.
pub proof fn lemma_weekends_days(choice: WeekendsChoice)
    ensures
        spec_days_shown(spec_weekends_value(choice)) == match choice {
            WeekendsChoice::No => 5usize,
            WeekendsChoice::Saturday => 6usize,
            WeekendsChoice::Yes => 7usize,
        },
{
}

/// The settings store the weekend choices as 0 (none), 1 (Saturday) and 2
/// (both days), and the week start as 0 (Monday) and 1 (Sunday).
pub proof fn lemma_setting_values()
    ensures
        spec_weekends_value(WeekendsChoice::No) == 0,
        spec_weekends_value(WeekendsChoice::Saturday) == 1,
        spec_weekends_value(WeekendsChoice::Yes) == 2,
        spec_weekstart_value(WeekStart::Monday) == 0,
        spec_weekstart_value(WeekStart::Sunday) == 1,
{
}

/// A setting whose changes the preferences window follows.
#[derive(Debug, Clone, Copy, PartialEq, Eq, Structural)]
pub enum WatchedSetting {
    Weekends,
    WeekStart,
}

/// Whether `a` and `b` are the same text.
pub fn str_eq(a: &str, b: &str) -> (eq: bool)
    ensures
        eq == (a@ == b@),
{
    let n = a.unicode_len();
    if n != b.unicode_len() {
        return false;
    }
    let mut i: usize = 0;
    while i < n
        invariant
            i <= n,
            n == a@.len(),
            n == b@.len(),
            forall|j: int| 0 <= j < i ==> a@[j] == b@[j],
        decreases n - i,
    {
        if a.get_char(i) != b.get_char(i) {
            return false;
        }
        i += 1;
    }
    assert(a@ =~= b@);
    true
}

/// The watched setting that a change of `key` concerns.
pub fn watched_setting(key: &str) -> (setting: Option<WatchedSetting>)
    ensures
        setting == (if key@ == WEEKENDS_KEY@ {
            Some(WatchedSetting::Weekends)
        } else if key@ == WEEKSTART_KEY@ {
            Some(WatchedSetting::WeekStart)
        } else {
            None
        }),
{
    if str_eq(key, WEEKENDS_KEY) {
        Some(WatchedSetting::Weekends)
    } else if str_eq(key, WEEKSTART_KEY) {
        Some(WatchedSetting::WeekStart)
    } else {
        None
    }
}

/// How the password field of the Office 365 account shows the stored
/// password.
pub enum PasswordField {
    /// The stored password, with the delete button enabled.
    Filled(String),
    /// No password is stored: the field is left as it is.
    Unchanged,
    /// The secret store failed with a message: the field and the sign-in
    /// button are disabled.
    Unavailable(String),
}

pub fn password_field(lookup: Result<Option<String>, String>) -> (field: PasswordField)
    ensures
        match lookup {
            Ok(Some(pw)) => field matches PasswordField::Filled(shown) && shown@ == pw@,
            Ok(None) => field is Unchanged,
            Err(msg) => field matches PasswordField::Unavailable(m) && m@ == msg@,
        },
{
    match lookup {
        Ok(Some(pw)) => PasswordField::Filled(pw),
        Ok(None) => PasswordField::Unchanged,
        Err(msg) => PasswordField::Unavailable(msg),
    }
}

/// What the preferences window does after a sign-in attempt with the Office
/// 365 account and password entered: on success it stores the account name
/// and password, marks the sign-in button as succeeded and enables the delete
/// button; on failure it only marks the button as failed.
pub struct LoginFeedback {
    pub store_credentials: bool,
    pub css_class: &'static str,
    pub enable_delete: bool,
}

pub fn login_feedback(succeeded: bool) -> (feedback: LoginFeedback)
    ensures
        feedback.store_credentials == succeeded,
        feedback.enable_delete == succeeded,
        feedback.css_class@ == (if succeeded {
            "success-action"@
        } else {
            "fail-action"@
        }),
{
    if succeeded {
        LoginFeedback { store_credentials: true, css_class: "success-action", enable_delete: true }
    } else {
        LoginFeedback { store_credentials: false, css_class: "fail-action", enable_delete: false }
    }
}

/// What answering the question whether to remove the Office 365 account does:
/// when confirmed, the account's password and session token are removed from
/// the secret store (in this order) and the account name is reset; otherwise
/// nothing.
pub struct AccountRemoval {
    pub secrets: Vec<ServiceProvider>,
    pub reset_account: bool,
}

pub fn account_removal(confirmed: bool) -> (removal: AccountRemoval)
    ensures
        removal.reset_account == confirmed,
        removal.secrets@ == (if confirmed {
            seq![ServiceProvider::MicrosoftO365, ServiceProvider::SchulmanagerJwt]
        } else {
            Seq::<ServiceProvider>::empty()
        }),
{
    let mut secrets: Vec<ServiceProvider> = Vec::new();
    if confirmed {
        secrets.push(ServiceProvider::MicrosoftO365);
        secrets.push(ServiceProvider::SchulmanagerJwt);
    }
    assert(secrets@ =~= (if confirmed {
        seq![ServiceProvider::MicrosoftO365, ServiceProvider::SchulmanagerJwt]
    } else {
        Seq::<ServiceProvider>::empty()
    }));
    AccountRemoval { secrets, reset_account: confirmed }
}

} // verus!
