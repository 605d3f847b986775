use magnesium::efg::{greeting, SignIn, SignInAction, SignInEvent, SignInStep};
use magnesium::models::secret::ServiceProvider;

fn account(sign_in: &mut SignIn, name: &str) -> SignInAction {
    assert!(matches!(sign_in.step(SignInEvent::Unlocked(Ok(()))), SignInAction::ReadAccount));
    sign_in.step(SignInEvent::Account(name.to_string()))
}

#[test]
fn stored_token_signs_in() {
    let (mut s, first) = SignIn::start();
    assert!(matches!(first, SignInAction::UnlockStore));
    let a = account(&mut s, "jane@example.org");
    assert!(matches!(a, SignInAction::LookupSecret(ServiceProvider::SchulmanagerJwt)));
    match s.step(SignInEvent::Secret(Ok(Some("tok".to_string())))) {
        SignInAction::LoginWithToken(t) => assert_eq!(t, "tok"),
        _ => panic!("expected a token sign-in"),
    }
    match s.step(SignInEvent::Login(Ok("tok2".to_string()))) {
        SignInAction::SignedIn { store_token } => assert_eq!(store_token, "tok2"),
        _ => panic!("expected signed in"),
    }
    assert_eq!(s.step, SignInStep::Done);
    assert!(matches!(s.step(SignInEvent::Login(Ok("x".to_string()))), SignInAction::Ignore));
}

#[test]
fn rejected_token_falls_back_to_password() {
    let (mut s, _) = SignIn::start();
    account(&mut s, "jane@example.org");
    s.step(SignInEvent::Secret(Ok(Some("old".to_string()))));
    let a = s.step(SignInEvent::Login(Err("expired".to_string())));
    assert!(matches!(a, SignInAction::LookupSecret(ServiceProvider::MicrosoftO365)));
    match s.step(SignInEvent::Secret(Ok(Some("pw".to_string())))) {
        SignInAction::LoginWithPassword { email, password } => {
            assert_eq!(email, "jane@example.org");
            assert_eq!(password, "pw");
        },
        _ => panic!("expected a password sign-in"),
    }
    match s.step(SignInEvent::Login(Err("wrong password".to_string()))) {
        SignInAction::Failed(msg) => assert_eq!(msg, "wrong password"),
        _ => panic!("expected failure"),
    }
}

#[test]
fn missing_token_falls_back_to_password() {
    let (mut s, _) = SignIn::start();
    account(&mut s, "jane@example.org");
    let a = s.step(SignInEvent::Secret(Ok(None)));
    assert!(matches!(a, SignInAction::LookupSecret(ServiceProvider::MicrosoftO365)));
    assert!(matches!(s.step(SignInEvent::Secret(Ok(None))), SignInAction::NoCredentials));
}

#[test]
fn empty_account_has_no_credentials() {
    let (mut s, _) = SignIn::start();
    assert!(matches!(account(&mut s, ""), SignInAction::NoCredentials));
    assert_eq!(s.step, SignInStep::Done);
}

#[test]
fn store_failures_end_the_sign_in() {
    let (mut s, _) = SignIn::start();
    match s.step(SignInEvent::Unlocked(Err("locked".to_string()))) {
        SignInAction::Failed(msg) => assert_eq!(msg, "locked"),
        _ => panic!("expected failure"),
    }
    let (mut s, _) = SignIn::start();
    account(&mut s, "a");
    assert!(matches!(s.step(SignInEvent::Secret(Err("no service".to_string()))), SignInAction::Failed(_)));
}

#[test]
fn unrelated_events_are_ignored() {
    let (mut s, _) = SignIn::start();
    assert!(matches!(s.step(SignInEvent::Login(Ok("t".to_string()))), SignInAction::Ignore));
    assert_eq!(s.step, SignInStep::Unlock);
    assert!(matches!(s.step(SignInEvent::Account("a".to_string())), SignInAction::Ignore));
    assert_eq!(s.step, SignInStep::Unlock);
}

#[test]
fn greeting_uses_the_first_word() {
    assert_eq!(greeting(Some("Jane Doe,,,")).unwrap(), "Hello Jane,");
    assert_eq!(greeting(Some("Jane")).unwrap(), "Hello Jane,");
    assert_eq!(greeting(Some("")).unwrap(), "Hello ,");
    assert_eq!(greeting(Some(" Jane")).unwrap(), "Hello ,");
    assert_eq!(greeting(Some("J\u{f6}rg M\u{fc}ller")).unwrap(), "Hello J\u{f6}rg,");
    assert!(greeting(None).is_none());
}
