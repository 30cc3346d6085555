//! Credential lifecycle for named OAuth2 / OpenID Connect profiles: the
//! persisted record, the decisions of the authorization-code and refresh
//! flows, and the expiry-driven choice between a cached token and a refresh.
//!
//! The library decides and computes; it opens no file, socket or browser.
//! Its caller does, and reports back what came of it.

pub mod callback;
pub mod config_file;
pub mod errors;
pub mod login_flow;
pub mod login_options;
pub mod provider;
pub mod refresh_flow;

pub use crate::callback::{parse_callback, Callback, CALLBACK_ADDRESS, CALLBACK_RESPONSE};
pub use crate::config_file::{
    save_next, ConfigBasePath, ConfigFile, ConfigFileView, ReadOutcome, SaveNext, SaveStep,
    StoreEntry, Token, TokenView,
};
pub use crate::errors::{handle_error, LibError, LibErrorView};
pub use crate::login_flow::{
    google_login, AuthorizeRequest, LoginAction, LoginEvent, LoginState,
};
pub use crate::login_options::{LoginOption, LoginOptions};
pub use crate::provider::{TokenResponse, ISSUER_URL};
pub use crate::refresh_flow::{
    refresh_google_login, RefreshAction, RefreshEvent, RefreshRequest,
    RefreshState,
};

use crate::config_file::{loaded, ReadOutcomeView};
use crate::errors::result_view;
use crate::refresh_flow::{
    refresh_step, RefreshActionView, RefreshEventView, RefreshStateView, RefreshStep,
};
use vstd::prelude::*;
use vstd::string::*;

verus! {

/// Which of a profile's two cached tokens is asked for.
#[derive(Clone, Copy, Debug, PartialEq, Eq)]
pub enum TokenKind {
    Access,
    Id,
}

/// The expiry by which a cached token is judged: its own, or `0` where
/// there is no token.
pub open spec fn expiry_of(token: Option<TokenView>) -> u64 {
    match token {
        Some(token) => token.exp,
        None => 0,
    }
}

/// Whether a cached token has to be renewed at `now`: when its expiry lies
/// before `now`. A token that expires at `now` itself is still used.
pub open spec fn is_expired(token: Option<TokenView>, now: u64) -> bool {
    expiry_of(token) < now
}

/// The token of the given kind in a record.
pub open spec fn cached_token(config: ConfigFileView, kind: TokenKind) -> Option<TokenView> {
    match kind {
        TokenKind::Access => config.access_token,
        TokenKind::Id => config.id_token,
    }
}

/// The token of the given kind, or the error of a record that lacks it.
pub open spec fn token_or_corrupt(config: ConfigFileView, kind: TokenKind) -> Result<
    TokenView,
    LibErrorView,
> {
    match cached_token(config, kind) {
        Some(token) => Ok(token),
        None => Err(LibErrorView::CouldNotReadConfigCorrupt(config.name)),
    }
}

/// What is to be done for a token that was asked for.
#[derive(Debug)]
pub enum TokenDecision {
    /// The cached token is good: hand it out and contact nobody.
    Use(Token),
    /// The cached token is stale: the refresh flow has begun and stands
    /// here.
    Refresh(RefreshState, RefreshAction),
    Fail(LibError),
}

/// Mathematical model of a [`TokenDecision`].
pub enum TokenDecisionView {
    Use(TokenView),
    Refresh(RefreshStateView, RefreshActionView),
    Fail(LibErrorView),
}

impl View for TokenDecision {
    type V = TokenDecisionView;

    open spec fn view(&self) -> TokenDecisionView {
        match *self {
            TokenDecision::Use(token) => TokenDecisionView::Use(token@),
            TokenDecision::Refresh(state, action) => TokenDecisionView::Refresh(state@, action@),
            TokenDecision::Fail(error) => TokenDecisionView::Fail(error@),
        }
    }
}

/// The step with which the refresh flow begins at `now`.
pub open spec fn refresh_begin(config: ConfigFileView, now: u64) -> RefreshStep {
    refresh_step(config, RefreshStateView::Start, RefreshEventView::Begin { now })
}

/// The decision on a record that was just read: refresh exactly if the
/// token is expired, else hand out what is cached.
pub open spec fn decision(config: ConfigFileView, kind: TokenKind, now: u64) -> TokenDecisionView {
    if is_expired(cached_token(config, kind), now) {
        let begin = refresh_begin(config, now);
        TokenDecisionView::Refresh(begin.state, begin.action)
    } else {
        match token_or_corrupt(config, kind) {
            Ok(token) => TokenDecisionView::Use(token),
            Err(error) => TokenDecisionView::Fail(error),
        }
    }
}

/// Checks a cached token against the clock and, if it is expired, begins
/// the refresh of `config`. `None` says that the token is still good and
/// that nothing is to be done.
pub fn check_token(token: Option<Token>, config: &mut ConfigFile, now: u64) -> (refresh: Option<
    (RefreshState, RefreshAction),
>)
    ensures
        refresh is Some <==> is_expired(token.deep_view(), now),
        refresh matches Some(begun) ==> (RefreshStep {
            config: final(config)@,
            state: begun.0@,
            action: begun.1@,
        }) == refresh_begin(old(config)@, now),
        refresh is None ==> final(config)@ == old(config)@,
{
    let token_expiration: u64 = match token {
        Some(token) => token.exp,
        None => 0,
    };
    if token_expiration < now {
        Some(refresh_google_login(config, RefreshState::Start, RefreshEvent::Begin { now }))
    } else {
        None
    }
}

/// The token of the given kind as the record holds it. A record without
/// it, after a refresh, is corrupt.
pub fn token_of(config: &ConfigFile, kind: TokenKind) -> (token: Result<Token, LibError>)
    ensures
        result_view(token) == token_or_corrupt(config@, kind),
{
    let cached = match kind {
        TokenKind::Access => &config.access_token,
        TokenKind::Id => &config.id_token,
    };
    match cached {
        Some(token) => Ok(token.clone()),
        None => Err(LibError::CouldNotReadConfigCorrupt(config.name.clone())),
    }
}

/// Decides, for a record that was just read, whether its token of the
/// given kind can be handed out or has to be refreshed first.
///
/// After a refresh that ended in `Save`, [`token_of`] gives the token.
pub fn ensure_valid(config: &mut ConfigFile, kind: TokenKind, now: u64) -> (decided: TokenDecision)
    ensures
        decided@ == decision(old(config)@, kind, now),
        final(config)@ == old(config)@,
{
    let cached = match kind {
        TokenKind::Access => match &config.access_token {
            Some(token) => Some(token.clone()),
            None => None,
        },
        TokenKind::Id => match &config.id_token {
            Some(token) => Some(token.clone()),
            None => None,
        },
    };
    match check_token(cached, config, now) {
        Some((state, action)) => TokenDecision::Refresh(state, action),
        None => match token_of(config, kind) {
            Ok(token) => TokenDecision::Use(token),
            Err(error) => TokenDecision::Fail(error),
        },
    }
}

/// The record that a read gave, if it gave one.
pub open spec fn record_of(name: Seq<char>, outcome: ReadOutcomeView) -> Option<ConfigFileView> {
    match loaded(name, outcome) {
        Ok(config) => Some(config),
        Err(_) => None,
    }
}

/// The decision on what came of reading the profile `name`: a read that
/// failed is handed on as it is, and nothing is refreshed; a record that
/// was read is decided on as [`decision`] says.
pub open spec fn decision_on(
    name: Seq<char>,
    outcome: ReadOutcomeView,
    kind: TokenKind,
    now: u64,
) -> TokenDecisionView {
    match loaded(name, outcome) {
        Ok(config) => decision(config, kind, now),
        Err(error) => TokenDecisionView::Fail(error),
    }
}

/// Decides, from what came of reading the profile `config_name`, how its
/// token of the given kind is to be had. Gives the record too, where one
/// was read: it is the one that a refresh goes on with.
pub fn ensure_valid_loaded(
    config_name: &str,
    outcome: ReadOutcome,
    kind: TokenKind,
    now: u64,
) -> (decided: (Option<ConfigFile>, TokenDecision))
    ensures
        decided.0.deep_view() == record_of(config_name@, outcome@),
        decided.1@ == decision_on(config_name@, outcome@, kind, now),
{
    match ConfigFile::read_config(config_name, outcome) {
        Ok(config) => {
            let mut config = config;
            let decision = ensure_valid(&mut config, kind, now);
            (Some(config), decision)
        },
        Err(error) => (None, TokenDecision::Fail(error)),
    }
}

/// Decides, from what came of reading the profile `config_name`, how its
/// access token is to be had: from the cache, by a refresh, or not at all
/// because the profile could not be read.
pub fn get_access_token_from_config(config_name: &str, outcome: ReadOutcome, now: u64) -> (decided:
    (Option<ConfigFile>, TokenDecision))
    ensures
        decided.0.deep_view() == record_of(config_name@, outcome@),
        decided.1@ == decision_on(config_name@, outcome@, TokenKind::Access, now),
{
    ensure_valid_loaded(config_name, outcome, TokenKind::Access, now)
}

/// A profile that could not be read gives its error and nothing else: no
/// refresh is begun and no record is handed out. A missing base directory
/// gives `NoSuchConfiguration`.
pub proof fn lemma_failed_load_is_handed_on(
    name: Seq<char>,
    outcome: ReadOutcomeView,
    kind: TokenKind,
    now: u64,
)
    requires
        !(outcome is Record),
    ensures
        loaded(name, outcome) matches Err(error) && decision_on(name, outcome, kind, now)
            == TokenDecisionView::Fail(error),
        !(decision_on(name, outcome, kind, now) is Refresh),
        record_of(name, outcome) is None,
        outcome is NoDirectory ==> decision_on(name, outcome, kind, now)
            == TokenDecisionView::Fail(LibErrorView::NoSuchConfiguration(name)),
{
}

/// A token is refreshed exactly when its expiry lies before `now`. One
/// that is still good is handed out, or found missing, without any step
/// of the refresh flow.
pub proof fn lemma_refresh_exactly_when_expired(config: ConfigFileView, kind: TokenKind, now: u64)
    ensures
        decision(config, kind, now) is Refresh <==> expiry_of(cached_token(config, kind)) < now,
        expiry_of(cached_token(config, kind)) >= now ==> match cached_token(config, kind) {
            Some(token) => decision(config, kind, now) == TokenDecisionView::Use(token),
            None => decision(config, kind, now) == TokenDecisionView::Fail(
                LibErrorView::CouldNotReadConfigCorrupt(config.name),
            ),
        },
{
}

/// The expiries of the two tokens are judged apart: whether one kind is
/// refreshed does not depend on the other token.
pub proof fn lemma_kinds_are_independent(
    config: ConfigFileView,
    other: Option<TokenView>,
    now: u64,
)
    ensures
        decision(ConfigFileView { id_token: other, ..config }, TokenKind::Access, now)
            is Refresh <==> decision(config, TokenKind::Access, now) is Refresh,
        decision(ConfigFileView { access_token: other, ..config }, TokenKind::Id, now)
            is Refresh <==> decision(config, TokenKind::Id, now) is Refresh,
{
}

/// How the user is told that a record lacks the token of the given kind.
pub open spec fn missing_token_text(kind: TokenKind, name: Seq<char>) -> Seq<char> {
    match kind {
        TokenKind::Access => "Could not read access token from "@ + name
            + ". Is the configuration corrupt?"@,
        TokenKind::Id => "Could not read id token from "@ + name
            + ". Is the configuration corrupt?"@,
    }
}

/// Tells the user that the record `name` lacks the token of the given
/// kind.
pub fn missing_token_message(kind: TokenKind, name: &str) -> (text: String)
    ensures
        text@ == missing_token_text(kind, name@),
{
    let mut text = match kind {
        TokenKind::Access => String::from_str("Could not read access token from "),
        TokenKind::Id => String::from_str("Could not read id token from "),
    };
    text.append(name);
    text.append(". Is the configuration corrupt?");
    text
}

} // verus!
