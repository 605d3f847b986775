pub mod preferences;
pub mod timetable;

use vstd::prelude::*;

use crate::models::secret::ServiceProvider;
use crate::models::smart::{first_index, is_first, lemma_first_none, lemma_first_some, lemma_first_unique};

verus! {

/// Where the connection to the school service stands: signed in with
/// session `S`, no credentials stored, failed with a message, or not yet
/// known.
pub enum SchulmanagerState<S> {
    Available(S),
    NoCredentials,
    Error(String),
    Uninitialized,
}

impl<S> Default for SchulmanagerState<S> {
    fn default() -> (state: Self)
        ensures
            state is Uninitialized,
    {
        SchulmanagerState::Uninitialized
    }
}

/// What the sign-in to the school service waits for.
#[derive(Debug, Clone, Copy, PartialEq, Eq, Structural)]
pub enum SignInStep {
    /// The secret store to be unlocked.
    Unlock,
    /// The configured account name.
    Account,
    /// The stored session token of the account.
    Token,
    /// The school service to accept the stored token.
    TokenLogin,
    /// The stored Office 365 password of the account.
    Password,
    /// The school service to accept the account and password.
    PasswordLogin,
    /// Nothing: the sign-in has ended.
    Done,
}

/// The position of a step in the order in which the sign-in goes through them.
pub open spec fn step_rank(step: SignInStep) -> int {
    match step {
        SignInStep::Unlock => 0,
        SignInStep::Account => 1,
        SignInStep::Token => 2,
        SignInStep::TokenLogin => 3,
        SignInStep::Password => 4,
        SignInStep::PasswordLogin => 5,
        SignInStep::Done => 6,
    }
}

/// A sign-in in progress: what it waits for, and the account it signs in.
pub struct SignIn {
    pub step: SignInStep,
    pub account: String,
}

/// What happened, as reported to the sign-in.
pub enum SignInEvent {
    /// The secret store was unlocked, or failed to unlock with a message.
    Unlocked(Result<(), String>),
    /// The configured account name was read.
    Account(String),
    /// A secret was looked up: found, not stored, or failed with a message.
    Secret(Result<Option<String>, String>),
    /// A sign-in at the school service succeeded with a session whose token
    /// is given, or failed with a message.
    Login(Result<String, String>),
}

/// What the sign-in asks for next.
pub enum SignInAction {
    UnlockStore,
    ReadAccount,
    LookupSecret(ServiceProvider),
    LoginWithToken(String),
    LoginWithPassword { email: String, password: String },
    /// Signed in: store the session token for the account, then use the
    /// session.
    SignedIn { store_token: String },
    /// No credentials are stored.
    NoCredentials,
    /// Failed with a message.
    Failed(String),
    /// The event does not belong to the current step and changes nothing.
    Ignore,
}

/// The next step and action of a sign-in at `step` for `account` on `event`.
pub open spec fn spec_sign_in_step(step: SignInStep, account: Seq<char>, event: SignInEvent) -> (
    SignInStep,
    SignInActionView,
) {
    match (step, event) {
        (SignInStep::Unlock, SignInEvent::Unlocked(Ok(()))) => (
            SignInStep::Account,
            SignInActionView::ReadAccount,
        ),
        (SignInStep::Unlock, SignInEvent::Unlocked(Err(msg))) => (
            SignInStep::Done,
            SignInActionView::Failed(msg@),
        ),
        (SignInStep::Account, SignInEvent::Account(name)) => if name@.len() == 0 {
            (SignInStep::Done, SignInActionView::NoCredentials)
        } else {
            (SignInStep::Token, SignInActionView::LookupSecret(ServiceProvider::SchulmanagerJwt))
        },
        (SignInStep::Token, SignInEvent::Secret(Ok(Some(token)))) => (
            SignInStep::TokenLogin,
            SignInActionView::LoginWithToken(token@),
        ),
        (SignInStep::Token, SignInEvent::Secret(Ok(None))) => (
            SignInStep::Password,
            SignInActionView::LookupSecret(ServiceProvider::MicrosoftO365),
        ),
        (SignInStep::Token, SignInEvent::Secret(Err(msg))) => (
            SignInStep::Done,
            SignInActionView::Failed(msg@),
        ),
        (SignInStep::TokenLogin, SignInEvent::Login(Ok(token))) => (
            SignInStep::Done,
            SignInActionView::SignedIn(token@),
        ),
        (SignInStep::TokenLogin, SignInEvent::Login(Err(_))) => (
            SignInStep::Password,
            SignInActionView::LookupSecret(ServiceProvider::MicrosoftO365),
        ),
        (SignInStep::Password, SignInEvent::Secret(Ok(Some(password)))) => (
            SignInStep::PasswordLogin,
            SignInActionView::LoginWithPassword(account, password@),
        ),
        (SignInStep::Password, SignInEvent::Secret(Ok(None))) => (
            SignInStep::Done,
            SignInActionView::NoCredentials,
        ),
        (SignInStep::Password, SignInEvent::Secret(Err(msg))) => (
            SignInStep::Done,
            SignInActionView::Failed(msg@),
        ),
        (SignInStep::PasswordLogin, SignInEvent::Login(Ok(token))) => (
            SignInStep::Done,
            SignInActionView::SignedIn(token@),
        ),
        (SignInStep::PasswordLogin, SignInEvent::Login(Err(msg))) => (
            SignInStep::Done,
            SignInActionView::Failed(msg@),
        ),
        _ => (step, SignInActionView::Ignore),
    }
}

/// The view of a sign-in action, its texts as character sequences.
pub enum SignInActionView {
    UnlockStore,
    ReadAccount,
    LookupSecret(ServiceProvider),
    LoginWithToken(Seq<char>),
    LoginWithPassword(Seq<char>, Seq<char>),
    SignedIn(Seq<char>),
    NoCredentials,
    Failed(Seq<char>),
    Ignore,
}

impl View for SignInAction {
    type V = SignInActionView;

    open spec fn view(&self) -> SignInActionView {
        match self {
            SignInAction::UnlockStore => SignInActionView::UnlockStore,
            SignInAction::ReadAccount => SignInActionView::ReadAccount,
            SignInAction::LookupSecret(p) => SignInActionView::LookupSecret(*p),
            SignInAction::LoginWithToken(t) => SignInActionView::LoginWithToken(t@),
            SignInAction::LoginWithPassword { email, password } => SignInActionView::LoginWithPassword(
                email@,
                password@,
            ),
            SignInAction::SignedIn { store_token } => SignInActionView::SignedIn(store_token@),
            SignInAction::NoCredentials => SignInActionView::NoCredentials,
            SignInAction::Failed(msg) => SignInActionView::Failed(msg@),
            SignInAction::Ignore => SignInActionView::Ignore,
        }
    }
}

impl SignIn {
    /// A sign-in that first unlocks the secret store.
    pub fn start() -> (res: (SignIn, SignInAction))
        ensures
            res.0.step == SignInStep::Unlock,
            res.0.account@ == Seq::<char>::empty(),
            res.1@ == SignInActionView::UnlockStore,
    {
        (SignIn { step: SignInStep::Unlock, account: String::new() }, SignInAction::UnlockStore)
    }

    /// Takes in `event` and tells what to do next.
    pub fn step(&mut self, event: SignInEvent) -> (action: SignInAction)
        ensures
            (final(self).step, action@) == spec_sign_in_step(old(self).step, old(self).account@, event),
            final(self).account@ == (match (old(self).step, event) {
                (SignInStep::Account, SignInEvent::Account(name)) => name@,
                _ => old(self).account@,
            }),
    {
        match (self.step, event) {
            (SignInStep::Unlock, SignInEvent::Unlocked(Ok(()))) => {
                self.step = SignInStep::Account;
                SignInAction::ReadAccount
            },
            (SignInStep::Unlock, SignInEvent::Unlocked(Err(msg))) => {
                self.step = SignInStep::Done;
                SignInAction::Failed(msg)
            },
            (SignInStep::Account, SignInEvent::Account(name)) => {
                let empty = name.as_str().is_empty();
                self.account = name;
                if empty {
                    self.step = SignInStep::Done;
                    SignInAction::NoCredentials
                } else {
                    self.step = SignInStep::Token;
                    SignInAction::LookupSecret(ServiceProvider::SchulmanagerJwt)
                }
            },
            (SignInStep::Token, SignInEvent::Secret(Ok(Some(token)))) => {
                self.step = SignInStep::TokenLogin;
                SignInAction::LoginWithToken(token)
            },
            (SignInStep::Token, SignInEvent::Secret(Ok(None))) => {
                self.step = SignInStep::Password;
                SignInAction::LookupSecret(ServiceProvider::MicrosoftO365)
            },
            (SignInStep::Token, SignInEvent::Secret(Err(msg))) => {
                self.step = SignInStep::Done;
                SignInAction::Failed(msg)
            },
            (SignInStep::TokenLogin, SignInEvent::Login(Ok(token))) => {
                self.step = SignInStep::Done;
                SignInAction::SignedIn { store_token: token }
            },
            (SignInStep::TokenLogin, SignInEvent::Login(Err(_))) => {
                self.step = SignInStep::Password;
                SignInAction::LookupSecret(ServiceProvider::MicrosoftO365)
            },
            (SignInStep::Password, SignInEvent::Secret(Ok(Some(password)))) => {
                self.step = SignInStep::PasswordLogin;
                SignInAction::LoginWithPassword { email: self.account.clone(), password }
            },
            (SignInStep::Password, SignInEvent::Secret(Ok(None))) => {
                self.step = SignInStep::Done;
                SignInAction::NoCredentials
            },
            (SignInStep::Password, SignInEvent::Secret(Err(msg))) => {
                self.step = SignInStep::Done;
                SignInAction::Failed(msg)
            },
            (SignInStep::PasswordLogin, SignInEvent::Login(Ok(token))) => {
                self.step = SignInStep::Done;
                SignInAction::SignedIn { store_token: token }
            },
            (SignInStep::PasswordLogin, SignInEvent::Login(Err(msg))) => {
                self.step = SignInStep::Done;
                SignInAction::Failed(msg)
            },
            _ => SignInAction::Ignore,
        }
    }
}

/// Every event either changes nothing or moves the sign-in forwards, so a
/// sign-in ends after at most six events that are not ignored.
pub proof fn lemma_sign_in_progresses(step: SignInStep, account: Seq<char>, event: SignInEvent)
    ensures
        ({
            let (next, action) = spec_sign_in_step(step, account, event);
            &&& action is Ignore <==> next == step
            &&& !(action is Ignore) ==> step_rank(next) > step_rank(step)
            &&& step == SignInStep::Done ==> action is Ignore
        }),
{
}

/// A sign-in ends signed in, without credentials, or failed exactly when it
/// reaches `Done`; a stored token is tried before the password, and the
/// password is tried with the configured account.
pub proof fn lemma_sign_in_outcomes(step: SignInStep, account: Seq<char>, event: SignInEvent)
    ensures
        ({
            let (next, action) = spec_sign_in_step(step, account, event);
            &&& (next == SignInStep::Done && step != SignInStep::Done) <==> (action is SignedIn
                || action is NoCredentials || action is Failed)
            &&& action is LoginWithPassword ==> step == SignInStep::Password && action
                == SignInActionView::LoginWithPassword(account, action->LoginWithPassword_1)
            &&& action == SignInActionView::LookupSecret(ServiceProvider::MicrosoftO365) ==> (step
                == SignInStep::Token || step == SignInStep::TokenLogin)
        }),
{
}

/// What each event leads to. A login that the school service accepts, with
/// the stored token or with the password, ends the sign-in signed in with the
/// token it gave; a rejected token falls back to the stored password, any
/// other failure ends the sign-in with its message. The sign-in ends without
/// credentials exactly when the account name is empty or no password is
/// stored; it logs in with a token exactly when one is stored, and with the
/// configured account and the stored password exactly when a password is
/// stored.
pub proof fn lemma_sign_in_transitions(step: SignInStep, account: Seq<char>, event: SignInEvent)
    ensures
        ({
            let (next, action) = spec_sign_in_step(step, account, event);
            let logging_in = step == SignInStep::TokenLogin || step == SignInStep::PasswordLogin;
            &&& (logging_in ==> (event matches SignInEvent::Login(Ok(t)) ==> next == SignInStep::Done
                && action == SignInActionView::SignedIn(t@)))
            &&& (action is SignedIn ==> logging_in && (event matches SignInEvent::Login(Ok(t))
                && action == SignInActionView::SignedIn(t@)))
            &&& (step == SignInStep::TokenLogin ==> (event matches SignInEvent::Login(Err(_)) ==> next
                == SignInStep::Password && action == SignInActionView::LookupSecret(
                ServiceProvider::MicrosoftO365,
            )))
            &&& (action is NoCredentials <==> ((step == SignInStep::Account && (event matches SignInEvent::Account(
                name,
            ) && name@.len() == 0)) || (step == SignInStep::Password && (event matches SignInEvent::Secret(
                Ok(None),
            )))))
            &&& (action is Failed ==> (step == SignInStep::Unlock || step == SignInStep::Token || step
                == SignInStep::Password || step == SignInStep::PasswordLogin))
            &&& (step == SignInStep::Unlock ==> (event matches SignInEvent::Unlocked(Err(e)) ==> next
                == SignInStep::Done && action == SignInActionView::Failed(e@)))
            &&& (step == SignInStep::Unlock ==> (event matches SignInEvent::Unlocked(Ok(())) ==> next
                == SignInStep::Account && action == SignInActionView::ReadAccount))
            &&& ((step == SignInStep::Token || step == SignInStep::Password) ==> (
            event matches SignInEvent::Secret(Err(e)) ==> next == SignInStep::Done && action
                == SignInActionView::Failed(e@)))
            &&& (step == SignInStep::PasswordLogin ==> (event matches SignInEvent::Login(Err(e)) ==> next
                == SignInStep::Done && action == SignInActionView::Failed(e@)))
            &&& (step == SignInStep::Account ==> (event matches SignInEvent::Account(name) ==> (name@.len()
                > 0 ==> next == SignInStep::Token && action == SignInActionView::LookupSecret(
                ServiceProvider::SchulmanagerJwt,
            ))))
            &&& (step == SignInStep::Token ==> (event matches SignInEvent::Secret(Ok(None)) ==> next
                == SignInStep::Password && action == SignInActionView::LookupSecret(
                ServiceProvider::MicrosoftO365,
            )))
            &&& (action is LoginWithToken <==> (step == SignInStep::Token && (event matches SignInEvent::Secret(
                Ok(Some(_)),
            ))))
            &&& (step == SignInStep::Token ==> (event matches SignInEvent::Secret(Ok(Some(t))) ==> next
                == SignInStep::TokenLogin && action == SignInActionView::LoginWithToken(t@)))
            &&& (action is LoginWithPassword <==> (step == SignInStep::Password && (
            event matches SignInEvent::Secret(Ok(Some(_))))))
            &&& (step == SignInStep::Password ==> (event matches SignInEvent::Secret(Ok(Some(p))) ==> next
                == SignInStep::PasswordLogin && action == SignInActionView::LoginWithPassword(account, p@)))
        }),
{
}

/// The first word of a name is the part of it before its first space: a
/// prefix of the name without spaces, which is the whole name or is followed
/// by a space.
pub proof fn lemma_first_word(name: Seq<char>)
    ensures
        first_word(name).len() <= name.len(),
        first_word(name) == name.take(first_word(name).len() as int),
        forall|j: int| 0 <= j < first_word(name).len() ==> #[trigger] first_word(name)[j] != ' ',
        first_word(name).len() < name.len() ==> name[first_word(name).len() as int] == ' ',
{
    match first_index(name, ' ') {
        Some(k) => {
            assert(is_first(name, ' ', k));
            assert(first_word(name) =~= name.take(k));
        },
        None => {
            assert forall|j: int| 0 <= j < name.len() implies name[j] != ' ' by {
                if name[j] == ' ' {
                    lemma_first_some(name, ' ', j);
                }
            }
            assert(name.take(name.len() as int) =~= name);
        },
    }
}

/// The greeting is `Hello `, then the first word of the name, then a comma.
pub proof fn lemma_greeting_text(full_name: Seq<char>)
    ensures
        spec_greeting(full_name) == "Hello "@ + first_word(full_name) + ","@,
        spec_greeting(full_name).len() == first_word(full_name).len() + 7,
{
    reveal_strlit("Hello ");
    reveal_strlit(",");
}

/// The first word of `name`: its characters before the first space, all of
/// it when it has no space.
pub open spec fn first_word(name: Seq<char>) -> Seq<char> {
    match first_index(name, ' ') {
        Some(k) => name.take(k),
        None => name,
    }
}

/// The greeting for the user whose full name (the GECOS field of the user
/// database) is `full_name`: `Hello `, the first word of the name, and `,`.
pub open spec fn spec_greeting(full_name: Seq<char>) -> Seq<char> {
    "Hello "@ + first_word(full_name) + ","@
}

pub fn greeting(full_name: Option<&str>) -> (text: Option<String>)
    ensures
        match full_name {
            Some(name) => text matches Some(t) && t@ == spec_greeting(name@),
            None => text is None,
        },
{
    match full_name {
        None => None,
        Some(name) => {
            let n = name.unicode_len();
            let mut k: usize = 0;
            let mut found = false;
            while !found && k < n
                invariant
                    k <= n,
                    n == name@.len(),
                    forall|j: int| 0 <= j < k ==> name@[j] != ' ',
                    found ==> k < n && name@[k as int] == ' ',
                decreases n - k + (if found {
                    0int
                } else {
                    1
                }),
            {
                if name.get_char(k) == ' ' {
                    found = true;
                } else {
                    k += 1;
                }
            }
            proof {
                if found {
                    lemma_first_unique(name@, ' ', k as int);
                } else {
                    lemma_first_none(name@, ' ');
                    assert(name@.take(k as int) =~= name@);
                }
            }
            let word = name.substring_char(0, k);
            let mut text = "Hello ".to_owned();
            text.append(word);
            text.append(",");
            Some(text)
        },
    }
}

} // verus!
