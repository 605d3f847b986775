use magnesium::efg::preferences::{
    account_removal, login_feedback,
    password_field, str_eq, toggled_value, watched_setting, weekends_choice, weekends_value,
    weekstart_choice, weekstart_value, PasswordField, WatchedSetting, WeekStart, WeekendsChoice,
};
use magnesium::efg::timetable::blocks::days_shown;
use magnesium::models::secret::ServiceProvider;

#[test]
fn weekend_toggles_match_setting_values() {
    assert_eq!(weekends_choice(0), Some(WeekendsChoice::No));
    assert_eq!(weekends_choice(1), Some(WeekendsChoice::Saturday));
    assert_eq!(weekends_choice(2), Some(WeekendsChoice::Yes));
    assert_eq!(weekends_choice(3), None);
    assert_eq!(weekends_choice(-1), None);
    for c in [WeekendsChoice::No, WeekendsChoice::Saturday, WeekendsChoice::Yes] {
        assert_eq!(weekends_choice(weekends_value(c)), Some(c));
    }
    assert_eq!(days_shown(weekends_value(WeekendsChoice::No)), 5);
    assert_eq!(days_shown(weekends_value(WeekendsChoice::Saturday)), 6);
    assert_eq!(days_shown(weekends_value(WeekendsChoice::Yes)), 7);
}

#[test]
fn weekstart_toggles_match_setting_values() {
    assert_eq!(weekstart_choice(0), Some(WeekStart::Monday));
    assert_eq!(weekstart_choice(1), Some(WeekStart::Sunday));
    assert_eq!(weekstart_choice(2), None);
    for s in [WeekStart::Monday, WeekStart::Sunday] {
        assert_eq!(weekstart_choice(weekstart_value(s)), Some(s));
    }
}

#[test]
fn only_active_toggles_write() {
    assert_eq!(toggled_value(true, 2), Some(2));
    assert_eq!(toggled_value(false, 2), None);
}

#[test]
fn watched_settings_by_key() {
    assert_eq!(watched_setting("bhvr-weekends"), Some(WatchedSetting::Weekends));
    assert_eq!(watched_setting("bhvr-weekstart"), Some(WatchedSetting::WeekStart));
    assert_eq!(watched_setting("tt-blocksize"), None);
    assert_eq!(watched_setting("bhvr-weekend"), None);
    assert!(str_eq("abc", "abc"));
    assert!(!str_eq("abc", "abd"));
    assert!(!str_eq("abc", "ab"));
}

#[test]
fn password_field_follows_the_store() {
    assert!(matches!(password_field(Ok(Some("pw".to_string()))), PasswordField::Filled(p) if p == "pw"));
    assert!(matches!(password_field(Ok(None)), PasswordField::Unchanged));
    assert!(matches!(password_field(Err("down".to_string())), PasswordField::Unavailable(m) if m == "down"));
}

#[test]
fn login_feedback_marks_the_button() {
    let ok = login_feedback(true);
    assert!(ok.store_credentials && ok.enable_delete);
    assert_eq!(ok.css_class, "success-action");
    let failed = login_feedback(false);
    assert!(!failed.store_credentials && !failed.enable_delete);
    assert_eq!(failed.css_class, "fail-action");
}

#[test]
fn confirmed_removal_removes_both_secrets() {
    let removal = account_removal(true);
    assert!(removal.reset_account);
    assert_eq!(removal.secrets, vec![ServiceProvider::MicrosoftO365, ServiceProvider::SchulmanagerJwt]);
    let kept = account_removal(false);
    assert!(!kept.reset_account);
    assert!(kept.secrets.is_empty());
}
