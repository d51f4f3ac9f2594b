//! The lifecycle of the session token: whether the token at hand can be
//! used, and if not, how a new one is had. A token that has expired is
//! refreshed; where the refresh fails, the stored credentials log in again;
//! where that fails too, the command gives up. Nothing is tried twice.
//!
//! The machine decides and its surroundings act: each step gives the next
//! state and the action to perform, and takes what came of the last action
//! as its event.
use vstd::prelude::*;
use crate::auth::TokenPair;
use crate::credentials::Credentials;
use crate::error::AuthError;
use crate::token::{claims_segment, expiry_of, token_expiry};
use crate::text::split;

verus! {

/// Where the lifecycle stands.
pub enum Lifecycle {
    /// No access token is known.
    Absent,
    /// `token` can be used.
    Valid { token: String },
    /// The access token of `pair` has expired.
    Expired { pair: TokenPair },
    /// The refresh of `pair` is under way: asked for while `fresh` is
    /// empty, answered with the token in `fresh` once it is being stored.
    RefreshPending { pair: TokenPair, fresh: Option<String> },
    /// The refresh failed and a login is under way: first the stored
    /// credentials are loaded, then they log in, then the pair in `renewed`
    /// is stored.
    ReloginPending { credentials: Option<Credentials>, renewed: Option<TokenPair> },
    /// The command has to give up, for the reason `error`.
    Fatal { error: AuthError },
}

/// What came of the last action.
pub enum Event {
    /// Nothing yet: the lifecycle starts.
    Begin,
    /// The refresh was answered.
    Refreshed(Result<String, AuthError>),
    /// The credential store was read.
    CredentialsLoaded(Result<Credentials, AuthError>),
    /// The login was answered.
    LoggedIn(Result<TokenPair, AuthError>),
    /// The tokens, and after a login the credentials, were written.
    Stored(Result<(), AuthError>),
}

/// What the surroundings of the lifecycle have to do next.
pub enum Action {
    /// Hand `token` to the command.
    Return { token: String },
    /// Abort the command with `error`.
    Fail { error: AuthError },
    /// Ask the server to renew `expired_token` with `refresh_token`.
    Refresh { expired_token: String, refresh_token: String },
    /// Load the stored credentials.
    LoadCredentials,
    /// Log in with `identifier` and `secret`.
    Login { identifier: String, secret: String },
    /// Write both tokens to the environment file and, where there are any,
    /// the credentials to the credential store.
    Store { access: String, refresh: String, credentials: Option<Credentials> },
}

/// A state over sequences of characters.
pub enum LifecycleView {
    Absent,
    Valid { token: Seq<char> },
    Expired { pair: (Seq<char>, Seq<char>) },
    RefreshPending { pair: (Seq<char>, Seq<char>), fresh: Option<Seq<char>> },
    ReloginPending {
        credentials: Option<(Seq<char>, Seq<char>)>,
        renewed: Option<(Seq<char>, Seq<char>)>,
    },
    Fatal { error: AuthError },
}

/// An event over sequences of characters.
pub enum EventView {
    Begin,
    Refreshed(Result<Seq<char>, AuthError>),
    CredentialsLoaded(Result<(Seq<char>, Seq<char>), AuthError>),
    LoggedIn(Result<(Seq<char>, Seq<char>), AuthError>),
    Stored(Result<(), AuthError>),
}

/// An action over sequences of characters.
pub enum ActionView {
    Return { token: Seq<char> },
    Fail { error: AuthError },
    Refresh { expired_token: Seq<char>, refresh_token: Seq<char> },
    LoadCredentials,
    Login { identifier: Seq<char>, secret: Seq<char> },
    Store { access: Seq<char>, refresh: Seq<char>, credentials: Option<(Seq<char>, Seq<char>)> },
}

impl View for Lifecycle {
    type V = LifecycleView;

    open spec fn view(&self) -> LifecycleView {
        match *self {
            Lifecycle::Absent => LifecycleView::Absent,
            Lifecycle::Valid { token } => LifecycleView::Valid { token: token@ },
            Lifecycle::Expired { pair } => LifecycleView::Expired { pair: pair@ },
            Lifecycle::RefreshPending { pair, fresh } => LifecycleView::RefreshPending {
                pair: pair@,
                fresh: match fresh {
                    Some(token) => Some(token@),
                    None => None,
                },
            },
            Lifecycle::ReloginPending { credentials, renewed } => LifecycleView::ReloginPending {
                credentials: match credentials {
                    Some(c) => Some(c@),
                    None => None,
                },
                renewed: match renewed {
                    Some(pair) => Some(pair@),
                    None => None,
                },
            },
            Lifecycle::Fatal { error } => LifecycleView::Fatal { error },
        }
    }
}

impl View for Event {
    type V = EventView;

    open spec fn view(&self) -> EventView {
        match *self {
            Event::Begin => EventView::Begin,
            Event::Refreshed(outcome) => EventView::Refreshed(
                match outcome {
                    Ok(token) => Ok(token@),
                    Err(e) => Err(e),
                },
            ),
            Event::CredentialsLoaded(outcome) => EventView::CredentialsLoaded(
                match outcome {
                    Ok(c) => Ok(c@),
                    Err(e) => Err(e),
                },
            ),
            Event::LoggedIn(outcome) => EventView::LoggedIn(
                match outcome {
                    Ok(pair) => Ok(pair@),
                    Err(e) => Err(e),
                },
            ),
            Event::Stored(outcome) => EventView::Stored(outcome),
        }
    }
}

impl View for Action {
    type V = ActionView;

    open spec fn view(&self) -> ActionView {
        match *self {
            Action::Return { token } => ActionView::Return { token: token@ },
            Action::Fail { error } => ActionView::Fail { error },
            Action::Refresh { expired_token, refresh_token } => ActionView::Refresh {
                expired_token: expired_token@,
                refresh_token: refresh_token@,
            },
            Action::LoadCredentials => ActionView::LoadCredentials,
            Action::Login { identifier, secret } => ActionView::Login {
                identifier: identifier@,
                secret: secret@,
            },
            Action::Store { access, refresh, credentials } => ActionView::Store {
                access: access@,
                refresh: refresh@,
                credentials: match credentials {
                    Some(c) => Some(c@),
                    None => None,
                },
            },
        }
    }
}

/// The state of a pair of tokens at the time `now`, where `expiry` is the
/// expiry that the access token states. Without an access token there is
/// nothing to use; a token without an expiry never expires; one with an
/// expiry holds before it and has expired from it on.
pub open spec fn inspected(pair: (Seq<char>, Seq<char>), expiry: Option<u64>, now: u64)
    -> LifecycleView {
    if pair.0.len() == 0 {
        LifecycleView::Absent
    } else {
        match expiry {
            Some(time) => if now < time {
                LifecycleView::Valid { token: pair.0 }
            } else {
                LifecycleView::Expired { pair }
            },
            None => LifecycleView::Valid { token: pair.0 },
        }
    }
}

/// The end of the lifecycle with `error`.
pub open spec fn failed(error: AuthError) -> (LifecycleView, ActionView) {
    (LifecycleView::Fatal { error }, ActionView::Fail { error })
}

/// The state after `event` in `state`, and the action to perform.
pub open spec fn next(state: LifecycleView, event: EventView) -> (LifecycleView, ActionView) {
    match state {
        LifecycleView::Absent => (state, ActionView::Fail { error: AuthError::MissingToken }),
        LifecycleView::Valid { token } => (state, ActionView::Return { token }),
        LifecycleView::Fatal { error } => (state, ActionView::Fail { error }),
        LifecycleView::Expired { pair } => match event {
            EventView::Begin => (
                LifecycleView::RefreshPending { pair, fresh: None },
                ActionView::Refresh { expired_token: pair.0, refresh_token: pair.1 },
            ),
            _ => failed(AuthError::Fatal),
        },
        LifecycleView::RefreshPending { pair, fresh: None } => match event {
            EventView::Refreshed(Ok(token)) => (
                LifecycleView::RefreshPending { pair, fresh: Some(token) },
                ActionView::Store { access: token, refresh: pair.1, credentials: None },
            ),
            EventView::Refreshed(Err(_)) => (
                LifecycleView::ReloginPending { credentials: None, renewed: None },
                ActionView::LoadCredentials,
            ),
            _ => failed(AuthError::Fatal),
        },
        LifecycleView::RefreshPending { pair, fresh: Some(token) } => match event {
            EventView::Stored(Ok(_)) => (
                LifecycleView::Valid { token },
                ActionView::Return { token },
            ),
            EventView::Stored(Err(error)) => failed(error),
            _ => failed(AuthError::Fatal),
        },
        LifecycleView::ReloginPending { credentials: None, renewed } => match event {
            EventView::CredentialsLoaded(Ok(found)) => if renewed is None {
                (
                    LifecycleView::ReloginPending { credentials: Some(found), renewed: None },
                    ActionView::Login { identifier: found.0, secret: found.1 },
                )
            } else {
                failed(AuthError::Fatal)
            },
            EventView::CredentialsLoaded(Err(error)) => if renewed is None {
                failed(error)
            } else {
                failed(AuthError::Fatal)
            },
            _ => failed(AuthError::Fatal),
        },
        LifecycleView::ReloginPending { credentials: Some(used), renewed: None } => match event {
            EventView::LoggedIn(Ok(pair)) => (
                LifecycleView::ReloginPending { credentials: Some(used), renewed: Some(pair) },
                ActionView::Store { access: pair.0, refresh: pair.1, credentials: Some(used) },
            ),
            EventView::LoggedIn(Err(error)) => failed(error),
            _ => failed(AuthError::Fatal),
        },
        LifecycleView::ReloginPending { credentials: Some(used), renewed: Some(pair) } => match event {
            EventView::Stored(Ok(_)) => (
                LifecycleView::Valid { token: pair.0 },
                ActionView::Return { token: pair.0 },
            ),
            EventView::Stored(Err(error)) => failed(error),
            _ => failed(AuthError::Fatal),
        },
    }
}

/// The first step for a pair of tokens at the time `now`, where `expiry` is
/// the expiry that the access token states.
pub open spec fn started_with(pair: (Seq<char>, Seq<char>), expiry: Option<u64>, now: u64) -> (
    LifecycleView,
    ActionView,
) {
    next(inspected(pair, expiry, now), EventView::Begin)
}

/// The first step for a pair of tokens at the time `now`.
pub open spec fn started(pair: (Seq<char>, Seq<char>), now: u64) -> (LifecycleView, ActionView) {
    started_with(pair, token_expiry(pair.0), now)
}

/// The state has no next step: the command gets its token or aborts.
pub open spec fn is_final(state: LifecycleView) -> bool {
    state is Absent || state is Valid || state is Fatal
}

/// How many steps a state is from its end, at most.
pub open spec fn steps_left(state: LifecycleView) -> nat {
    match state {
        LifecycleView::Absent => 0,
        LifecycleView::Valid { .. } => 0,
        LifecycleView::Fatal { .. } => 0,
        LifecycleView::Expired { .. } => 6,
        LifecycleView::RefreshPending { fresh: None, .. } => 5,
        LifecycleView::RefreshPending { fresh: Some(_), .. } => 1,
        LifecycleView::ReloginPending { credentials: None, .. } => 4,
        LifecycleView::ReloginPending { credentials: Some(_), renewed: None } => 3,
        LifecycleView::ReloginPending { credentials: Some(_), renewed: Some(_) } => 1,
    }
}

/// A string of the same characters.
fn copy_of(text: &String) -> (copy: String)
    ensures
        copy@ == text@,
{
    text.as_str().to_owned()
}

/// The state of `pair` at the time `now`, where `expiry` is the expiry that
/// its access token states.
pub fn inspect(pair: TokenPair, expiry: Option<u64>, now: u64) -> (state: Lifecycle)
    ensures
        state@ == inspected(pair@, expiry, now),
{
    if pair.access.as_str().unicode_len() == 0 {
        return Lifecycle::Absent;
    }
    match expiry {
        Some(time) => {
            if now < time {
                Lifecycle::Valid { token: pair.access }
            } else {
                Lifecycle::Expired { pair }
            }
        },
        None => Lifecycle::Valid { token: pair.access },
    }
}

/// The end of the lifecycle with `error`.
fn fail(error: AuthError) -> (step: (Lifecycle, Action))
    ensures
        (step.0@, step.1@) == failed(error),
{
    (Lifecycle::Fatal { error }, Action::Fail { error })
}

/// Takes `event` in `state`: gives the next state and the action to perform.
/// A final state stays as it is and repeats its verdict. An event that does
/// not answer what the state waits for ends the lifecycle in `Fatal`.
pub fn step(state: Lifecycle, event: Event) -> (step: (Lifecycle, Action))
    ensures
        (step.0@, step.1@) == next(state@, event@),
{
    match state {
        Lifecycle::Absent => (Lifecycle::Absent, Action::Fail { error: AuthError::MissingToken }),
        Lifecycle::Valid { token } => {
            let handed = copy_of(&token);
            (Lifecycle::Valid { token }, Action::Return { token: handed })
        },
        Lifecycle::Fatal { error } => (Lifecycle::Fatal { error }, Action::Fail { error }),
        Lifecycle::Expired { pair } => match event {
            Event::Begin => {
                let expired_token = copy_of(&pair.access);
                let refresh_token = copy_of(&pair.refresh);
                (
                    Lifecycle::RefreshPending { pair, fresh: None },
                    Action::Refresh { expired_token, refresh_token },
                )
            },
            _ => fail(AuthError::Fatal),
        },
        Lifecycle::RefreshPending { pair, fresh: None } => match event {
            Event::Refreshed(Ok(token)) => {
                let access = copy_of(&token);
                let refresh = copy_of(&pair.refresh);
                (
                    Lifecycle::RefreshPending { pair, fresh: Some(token) },
                    Action::Store { access, refresh, credentials: None },
                )
            },
            Event::Refreshed(Err(_)) => (
                Lifecycle::ReloginPending { credentials: None, renewed: None },
                Action::LoadCredentials,
            ),
            _ => fail(AuthError::Fatal),
        },
        Lifecycle::RefreshPending { pair, fresh: Some(token) } => match event {
            Event::Stored(Ok(_)) => {
                let handed = copy_of(&token);
                (Lifecycle::Valid { token }, Action::Return { token: handed })
            },
            Event::Stored(Err(error)) => fail(error),
            _ => fail(AuthError::Fatal),
        },
        Lifecycle::ReloginPending { credentials: None, renewed } => match event {
            Event::CredentialsLoaded(Ok(found)) => {
                if renewed.is_none() {
                    let identifier = copy_of(&found.identifier);
                    let secret = copy_of(&found.secret);
                    (
                        Lifecycle::ReloginPending { credentials: Some(found), renewed: None },
                        Action::Login { identifier, secret },
                    )
                } else {
                    fail(AuthError::Fatal)
                }
            },
            Event::CredentialsLoaded(Err(error)) => {
                if renewed.is_none() {
                    fail(error)
                } else {
                    fail(AuthError::Fatal)
                }
            },
            _ => fail(AuthError::Fatal),
        },
        Lifecycle::ReloginPending { credentials: Some(used), renewed: None } => match event {
            Event::LoggedIn(Ok(pair)) => {
                let access = copy_of(&pair.access);
                let refresh = copy_of(&pair.refresh);
                let kept = Credentials {
                    identifier: copy_of(&used.identifier),
                    secret: copy_of(&used.secret),
                };
                (
                    Lifecycle::ReloginPending { credentials: Some(used), renewed: Some(pair) },
                    Action::Store { access, refresh, credentials: Some(kept) },
                )
            },
            Event::LoggedIn(Err(error)) => fail(error),
            _ => fail(AuthError::Fatal),
        },
        Lifecycle::ReloginPending { credentials: Some(_), renewed: Some(pair) } => match event {
            Event::Stored(Ok(_)) => {
                let handed = copy_of(&pair.access);
                (Lifecycle::Valid { token: pair.access }, Action::Return { token: handed })
            },
            Event::Stored(Err(error)) => fail(error),
            _ => fail(AuthError::Fatal),
        },
    }
}

/// `artisan_middleware::timestamp::current_timestamp`: the seconds since
/// 1970 on the clock of the machine. Nothing is known of the result. The
/// outside function panics on a clock that stands before 1970.
#[verifier::external_body]
fn current_time() -> u64 {
    artisan_middleware::timestamp::current_timestamp()
}

/// The first step for `pair` at the time `now`: the token is handed back
/// where it can be used, a refresh is asked for where it has expired, and
/// the command fails where there is no token.
pub fn get_token_at(pair: TokenPair, now: u64) -> (step: (Lifecycle, Action))
    ensures
        (step.0@, step.1@) == started(pair@, now),
{
    let expiry = expiry_of(pair.access.as_str());
    self::step(inspect(pair, expiry, now), Event::Begin)
}

/// The first step for `pair` now, by the clock of the machine.
pub fn get_token(pair: TokenPair) -> (step: (Lifecycle, Action))
    ensures
        exists|now: u64| (step.0@, step.1@) == #[trigger] started(pair@, now),
{
    let now = current_time();
    let step = get_token_at(pair, now);
    assert((step.0@, step.1@) == started(pair@, now));
    step
}

/// A token of three parts whose claims state the expiry `expiry` is handed
/// back unchanged before that time, and refreshed from that time on.
pub proof fn lemma_token_with_expiry(pair: (Seq<char>, Seq<char>), expiry: u64, now: u64)
    requires
        claims_segment(pair.0) is Some,
        token_expiry(pair.0) == Some(expiry),
    ensures
        now < expiry ==> started(pair, now) == (
            LifecycleView::Valid { token: pair.0 },
            ActionView::Return { token: pair.0 },
        ),
        now >= expiry ==> started(pair, now) == (
            LifecycleView::RefreshPending { pair, fresh: None },
            ActionView::Refresh { expired_token: pair.0, refresh_token: pair.1 },
        ),
{
    assert(pair.0.len() > 0) by {
        if pair.0.len() == 0 {
            assert(split(pair.0, '.').len() == 1);
        }
    }
}

/// A token that is not of three parts is handed back unchanged, whatever the
/// time.
pub proof fn lemma_opaque_token(pair: (Seq<char>, Seq<char>), now: u64)
    requires
        pair.0.len() > 0,
        claims_segment(pair.0) is None,
    ensures
        started(pair, now) == (
            LifecycleView::Valid { token: pair.0 },
            ActionView::Return { token: pair.0 },
        ),
{
}

/// A token whose claims cannot be read, or state no expiry, is handed back
/// unchanged, whatever the time.
pub proof fn lemma_token_without_expiry(pair: (Seq<char>, Seq<char>), now: u64)
    requires
        pair.0.len() > 0,
        token_expiry(pair.0) is None,
    ensures
        started(pair, now) == (
            LifecycleView::Valid { token: pair.0 },
            ActionView::Return { token: pair.0 },
        ),
{
}

/// A final state stays, whatever the event; every other step brings the
/// lifecycle nearer to its end.
pub proof fn lemma_step_descends(state: LifecycleView, event: EventView)
    ensures
        is_final(state) ==> next(state, event).0 == state,
        !is_final(state) ==> steps_left(next(state, event).0) < steps_left(state),
        is_final(state) <==> steps_left(state) == 0,
{
}

/// The state after the events of `events`, taken in order from `state`.
pub open spec fn after(state: LifecycleView, events: Seq<EventView>) -> LifecycleView
    decreases events.len(),
{
    if events.len() == 0 {
        state
    } else {
        after(next(state, events.first()).0, events.drop_first())
    }
}

/// How many times a refresh is asked for while the events of `events` are
/// taken in order from `state`.
pub open spec fn refreshes(state: LifecycleView, events: Seq<EventView>) -> nat
    decreases events.len(),
{
    if events.len() == 0 {
        0
    } else {
        let (then, action) = next(state, events.first());
        let asked: nat = if action is Refresh {
            1
        } else {
            0
        };
        asked + refreshes(then, events.drop_first())
    }
}

/// How many times a login is asked for while the events of `events` are
/// taken in order from `state`.
pub open spec fn logins(state: LifecycleView, events: Seq<EventView>) -> nat
    decreases events.len(),
{
    if events.len() == 0 {
        0
    } else {
        let (then, action) = next(state, events.first());
        let asked: nat = if action is Login {
            1
        } else {
            0
        };
        asked + logins(then, events.drop_first())
    }
}

/// Whatever the events, the lifecycle is over after as many of them as the
/// state has steps left: after six at most.
pub proof fn lemma_lifecycle_ends(state: LifecycleView, events: Seq<EventView>)
    ensures
        steps_left(state) <= 6,
        events.len() >= steps_left(state) ==> is_final(after(state, events)),
    decreases events.len(),
{
    if events.len() > 0 {
        lemma_step_descends(state, events.first());
        lemma_lifecycle_ends(next(state, events.first()).0, events.drop_first());
    }
}

/// Nothing is tried twice: whatever the events, a refresh is asked for at
/// most once and a login at most once.
pub proof fn lemma_one_fallback_each(state: LifecycleView, events: Seq<EventView>)
    ensures
        refreshes(state, events) <= 1,
        logins(state, events) <= 1,
        !(state is Expired) ==> refreshes(state, events) == 0,
        steps_left(state) < 4 ==> logins(state, events) == 0,
    decreases events.len(),
{
    if events.len() > 0 {
        lemma_step_descends(state, events.first());
        lemma_one_fallback_each(next(state, events.first()).0, events.drop_first());
    }
}

/// The action of a step tells where the lifecycle stands: it hands a token
/// back exactly in `Valid`, and that token; it fails exactly in `Absent` and
/// `Fatal`, with the error of the state.
pub proof fn lemma_verdict(state: LifecycleView, event: EventView)
    ensures
        ({
            let (after, action) = next(state, event);
            &&& action is Return <==> after is Valid
            &&& action is Fail <==> after is Absent || after is Fatal
            &&& after matches LifecycleView::Valid { token } ==> action == (ActionView::Return {
                token,
            })
            &&& after matches LifecycleView::Fatal { error } ==> action == (ActionView::Fail {
                error,
            })
            &&& after is Absent ==> action == (ActionView::Fail {
                error: AuthError::MissingToken,
            })
        }),
{
}

/// A login stores what it was made with: the tokens that the server gave,
/// both of them, and the credentials that logged in. A refresh stores the
/// new access token beside the refresh token that it was made with, and no
/// credentials.
pub proof fn lemma_store_is_complete(state: LifecycleView, event: EventView)
    ensures
        ({
            let (after, action) = next(state, event);
            action matches ActionView::Store { access, refresh, credentials } ==> {
                ||| (state matches LifecycleView::RefreshPending { pair, fresh: None }
                    && event == EventView::Refreshed(Ok(access)) && refresh == pair.1
                    && credentials is None)
                ||| (state matches LifecycleView::ReloginPending {
                    credentials: Some(used),
                    renewed: None,
                } && event == EventView::LoggedIn(Ok((access, refresh))) && credentials == Some(
                    used,
                ))
            }
        }),
{
}

} // verus!
