//! The authorization-code flow with PKCE, as a machine that decides while
//! its caller talks to the browser and to the provider.
//!
//! The caller performs each [`LoginAction`] and reports what came of it as
//! the next [`LoginEvent`]. `Save` and `Fail` end the flow. The machine
//! keeps the order on which the flow's safety rests: the listener is bound
//! before the browser is opened, the callback's state is compared before a
//! code is exchanged, and the record changes only once the ID token is
//! verified.

use vstd::prelude::*;
use vstd::string::*;
use crate::callback::{
    callback_in, parse_callback, parse_url, parsed_url, url_as_text, Callback, CallbackView,
};
use crate::config_file::{copy_strings, ConfigFile, ConfigFileView, Token, TokenView};
use crate::errors::{result_view, LibError, LibErrorView};
use crate::provider::{
    access_token_expiry, claim_expiry, expiry_at, verified_id_token, TokenResponse,
    TokenResponseView, ISSUER_URL,
};

verus! {

/// What the authorize URL is built from. The URL asks for an authorization
/// code, carries a PKCE challenge and a fresh nonce, and these values.
#[derive(Debug)]
pub struct AuthorizeRequest {
    pub issuer: String,
    pub client_id: String,
    pub client_secret: String,
    /// The redirect URL in the form in which a URL parser writes it.
    pub redirect_url: String,
    pub scopes: Vec<String>,
    /// The state that the callback has to echo.
    pub csrf_state: String,
    /// Value of the parameter `access_type`.
    pub access_type: String,
    /// Whether the provider is to ask for consent again.
    pub force_consent: bool,
}

/// Mathematical model of an [`AuthorizeRequest`].
pub struct AuthorizeRequestView {
    pub issuer: Seq<char>,
    pub client_id: Seq<char>,
    pub client_secret: Seq<char>,
    pub redirect_url: Seq<char>,
    pub scopes: Seq<Seq<char>>,
    pub csrf_state: Seq<char>,
    pub access_type: Seq<char>,
    pub force_consent: bool,
}

impl View for AuthorizeRequest {
    type V = AuthorizeRequestView;

    open spec fn view(&self) -> AuthorizeRequestView {
        AuthorizeRequestView {
            issuer: self.issuer@,
            client_id: self.client_id@,
            client_secret: self.client_secret@,
            redirect_url: self.redirect_url@,
            scopes: self.scopes.deep_view(),
            csrf_state: self.csrf_state@,
            access_type: self.access_type@,
            force_consent: self.force_consent,
        }
    }
}

/// Where a login stands.
#[derive(Debug)]
pub enum LoginState {
    /// Nothing has been asked of anyone.
    Init,
    /// The authorize URL is being built and the listener bound.
    Authorizing { csrf_state: String, now: u64 },
    /// The listener is bound and waits for the redirect, which has to
    /// echo `csrf_state`; the browser is sent to the authorize URL.
    AwaitingCallback { csrf_state: String, now: u64 },
    /// The authorization code is with the provider.
    Exchanging { now: u64 },
    /// The provider answered; the ID token is being verified.
    /// `access_token_exp` is the expiry of the access token in `response`.
    Verifying { response: TokenResponse, access_token_exp: u64 },
    /// The record holds the new tokens and is to be saved.
    Persisted,
    Failed,
}

/// Mathematical model of a [`LoginState`].
pub enum LoginStateView {
    Init,
    Authorizing { csrf_state: Seq<char>, now: u64 },
    AwaitingCallback { csrf_state: Seq<char>, now: u64 },
    Exchanging { now: u64 },
    Verifying { response: TokenResponseView, access_token_exp: u64 },
    Persisted,
    Failed,
}

impl View for LoginState {
    type V = LoginStateView;

    open spec fn view(&self) -> LoginStateView {
        match *self {
            LoginState::Init => LoginStateView::Init,
            LoginState::Authorizing { csrf_state, now } => LoginStateView::Authorizing {
                csrf_state: csrf_state@,
                now,
            },
            LoginState::AwaitingCallback { csrf_state, now } => LoginStateView::AwaitingCallback {
                csrf_state: csrf_state@,
                now,
            },
            LoginState::Exchanging { now } => LoginStateView::Exchanging { now },
            LoginState::Verifying { response, access_token_exp } => LoginStateView::Verifying {
                response: response@,
                access_token_exp,
            },
            LoginState::Persisted => LoginStateView::Persisted,
            LoginState::Failed => LoginStateView::Failed,
        }
    }
}

/// What the caller reports.
#[derive(Debug)]
pub enum LoginEvent {
    /// The flow is asked to begin at Unix time `now`, with a state token
    /// that was drawn at random for it.
    Start { now: u64, csrf_state: String },
    /// The provider's discovery document could not be had.
    DiscoveryFailed,
    /// The listener could not be bound, or its connection could not be
    /// read or answered.
    ListenerFailed(std::io::Error),
    /// The authorize URL is built and the listener is bound.
    ListenerBound,
    /// The browser could not be opened.
    BrowserFailed(std::io::Error),
    /// The first line of the request that reached the listener.
    CallbackReceived { request_line: String },
    /// The listener ended without a request.
    NoCallback,
    /// The provider refused the code or could not be reached.
    ExchangeFailed,
    Exchanged(TokenResponse),
    /// Signature, nonce or claims of the ID token did not hold.
    IdTokenRejected,
    /// The ID token holds; `expiration` is its expiration claim.
    IdTokenVerified { expiration: i64 },
}

/// Mathematical model of a [`LoginEvent`].
pub enum LoginEventView {
    Start { now: u64, csrf_state: Seq<char> },
    DiscoveryFailed,
    ListenerFailed(std::io::Error),
    ListenerBound,
    BrowserFailed(std::io::Error),
    CallbackReceived { request_line: Seq<char> },
    NoCallback,
    ExchangeFailed,
    Exchanged(TokenResponseView),
    IdTokenRejected,
    IdTokenVerified { expiration: i64 },
}

impl View for LoginEvent {
    type V = LoginEventView;

    open spec fn view(&self) -> LoginEventView {
        match *self {
            LoginEvent::Start { now, csrf_state } => LoginEventView::Start {
                now,
                csrf_state: csrf_state@,
            },
            LoginEvent::DiscoveryFailed => LoginEventView::DiscoveryFailed,
            LoginEvent::ListenerFailed(error) => LoginEventView::ListenerFailed(error),
            LoginEvent::ListenerBound => LoginEventView::ListenerBound,
            LoginEvent::BrowserFailed(error) => LoginEventView::BrowserFailed(error),
            LoginEvent::CallbackReceived { request_line } => LoginEventView::CallbackReceived {
                request_line: request_line@,
            },
            LoginEvent::NoCallback => LoginEventView::NoCallback,
            LoginEvent::ExchangeFailed => LoginEventView::ExchangeFailed,
            LoginEvent::Exchanged(response) => LoginEventView::Exchanged(response@),
            LoginEvent::IdTokenRejected => LoginEventView::IdTokenRejected,
            LoginEvent::IdTokenVerified { expiration } => LoginEventView::IdTokenVerified {
                expiration,
            },
        }
    }
}

/// What the caller is to do next.
#[derive(Debug)]
pub enum LoginAction {
    /// Discover the provider, build the authorize URL for this request,
    /// and bind the listener.
    Authorize(AuthorizeRequest),
    /// Open the browser on the authorize URL, wait for one request at the
    /// listener, read its first line and answer it.
    OpenBrowser,
    /// Exchange this code, with the PKCE verifier, for tokens.
    ExchangeCode { code: String },
    /// Verify signature, nonce and claims of this ID token.
    VerifyIdToken { id_token: String },
    /// Write the record to the store.
    Save,
    /// Give up with this error; nothing is written.
    Fail(LibError),
}

/// Mathematical model of a [`LoginAction`].
pub enum LoginActionView {
    Authorize(AuthorizeRequestView),
    OpenBrowser,
    ExchangeCode { code: Seq<char> },
    VerifyIdToken { id_token: Seq<char> },
    Save,
    Fail(LibErrorView),
}

impl View for LoginAction {
    type V = LoginActionView;

    open spec fn view(&self) -> LoginActionView {
        match *self {
            LoginAction::Authorize(request) => LoginActionView::Authorize(request@),
            LoginAction::OpenBrowser => LoginActionView::OpenBrowser,
            LoginAction::ExchangeCode { code } => LoginActionView::ExchangeCode { code: code@ },
            LoginAction::VerifyIdToken { id_token } => LoginActionView::VerifyIdToken {
                id_token: id_token@,
            },
            LoginAction::Save => LoginActionView::Save,
            LoginAction::Fail(error) => LoginActionView::Fail(error@),
        }
    }
}

/// The record, the state and the action that follow an event.
pub struct LoginStep {
    pub config: ConfigFileView,
    pub state: LoginStateView,
    pub action: LoginActionView,
}

/// The step that gives up with `error` and leaves the record as it is.
pub open spec fn login_failure(config: ConfigFileView, error: LibErrorView) -> LoginStep {
    LoginStep { config, state: LoginStateView::Failed, action: LoginActionView::Fail(error) }
}

/// The request from which the authorize URL of `config` is built: offline
/// access, so that a refresh token is granted, and forced consent, so that
/// it is granted again on every login.
pub open spec fn authorize_request_of(
    config: ConfigFileView,
    redirect_url: Seq<char>,
    csrf_state: Seq<char>,
) -> AuthorizeRequestView {
    AuthorizeRequestView {
        issuer: ISSUER_URL@,
        client_id: config.client_id,
        client_secret: config.client_secret,
        redirect_url,
        scopes: config.scopes,
        csrf_state,
        access_type: "offline"@,
        force_consent: true,
    }
}

/// The step that begins a login: the redirect URL of the record has to be
/// a URL.
pub open spec fn login_begin(config: ConfigFileView, now: u64, csrf_state: Seq<char>) -> LoginStep {
    match parsed_url(config.redirect_url) {
        Ok(redirect_url) => LoginStep {
            config,
            state: LoginStateView::Authorizing { csrf_state, now },
            action: LoginActionView::Authorize(
                authorize_request_of(config, redirect_url, csrf_state),
            ),
        },
        Err(error) => login_failure(config, LibErrorView::UrlError(error)),
    }
}

/// The step on a callback, read or not: only one that echoes `csrf_state`
/// lets the code go to the provider.
pub open spec fn login_on_callback(
    config: ConfigFileView,
    csrf_state: Seq<char>,
    now: u64,
    callback: Result<CallbackView, LibErrorView>,
) -> LoginStep {
    match callback {
        Ok(callback) => if callback.state == csrf_state {
            LoginStep {
                config,
                state: LoginStateView::Exchanging { now },
                action: LoginActionView::ExchangeCode { code: callback.code },
            }
        } else {
            login_failure(config, LibErrorView::TokenCsrfError)
        },
        Err(error) => login_failure(config, error),
    }
}

/// The step on the provider's answer to the code, received at `now`: it
/// has to hold an ID token.
pub open spec fn login_on_response(
    config: ConfigFileView,
    now: u64,
    response: TokenResponseView,
) -> LoginStep {
    match response.id_token {
        Some(id_token) => LoginStep {
            config,
            state: LoginStateView::Verifying {
                response,
                access_token_exp: expiry_at(now, response.expires_in),
            },
            action: LoginActionView::VerifyIdToken { id_token },
        },
        None => login_failure(config, LibErrorView::NoIdToken),
    }
}

/// The record after a login: scopes as granted, and the three tokens of
/// the response.
pub open spec fn logged_in(
    config: ConfigFileView,
    scopes: Seq<Seq<char>>,
    refresh_token: Seq<char>,
    id_token: TokenView,
    access_token: TokenView,
) -> ConfigFileView {
    ConfigFileView {
        scopes,
        refresh_token: Some(refresh_token),
        id_token: Some(id_token),
        access_token: Some(access_token),
        ..config
    }
}

/// The step once the ID token of `response` is verified: the response has
/// to hold a refresh token and at least one granted scope. Only then does
/// the record change.
pub open spec fn login_on_verified(
    config: ConfigFileView,
    response: TokenResponseView,
    access_token_exp: u64,
    expiration: i64,
) -> LoginStep {
    match (response.id_token, response.refresh_token, response.scopes) {
        (None, _, _) => login_failure(config, LibErrorView::NoIdToken),
        (Some(_), None, _) => login_failure(config, LibErrorView::NoRefreshToken),
        (Some(id_token), Some(refresh_token), Some(scopes)) => if scopes.len() > 0 {
            LoginStep {
                config: logged_in(
                    config,
                    scopes,
                    refresh_token,
                    verified_id_token(id_token, expiration),
                    TokenView { secret: response.access_token, exp: access_token_exp },
                ),
                state: LoginStateView::Persisted,
                action: LoginActionView::Save,
            }
        } else {
            login_failure(config, LibErrorView::NoScopes)
        },
        (Some(_), Some(_), None) => login_failure(config, LibErrorView::NoScopes),
    }
}

/// The transitions of the login flow.
pub open spec fn login_step(
    config: ConfigFileView,
    state: LoginStateView,
    event: LoginEventView,
) -> LoginStep {
    match (state, event) {
        (LoginStateView::Init, LoginEventView::Start { now, csrf_state }) => login_begin(
            config,
            now,
            csrf_state,
        ),
        (LoginStateView::Authorizing { .. }, LoginEventView::DiscoveryFailed) => login_failure(
            config,
            LibErrorView::OpenIdError("Failed to discover OpenID Provider"@),
        ),
        (LoginStateView::Authorizing { .. }, LoginEventView::ListenerFailed(error)) =>
            login_failure(config, LibErrorView::IoError(error)),
        (LoginStateView::Authorizing { csrf_state, now }, LoginEventView::ListenerBound) =>
            LoginStep {
                config,
                state: LoginStateView::AwaitingCallback { csrf_state, now },
                action: LoginActionView::OpenBrowser,
            },
        (LoginStateView::AwaitingCallback { .. }, LoginEventView::BrowserFailed(error)) =>
            login_failure(config, LibErrorView::IoError(error)),
        (LoginStateView::AwaitingCallback { .. }, LoginEventView::ListenerFailed(error)) =>
            login_failure(config, LibErrorView::IoError(error)),
        (
            LoginStateView::AwaitingCallback { csrf_state, now },
            LoginEventView::CallbackReceived { request_line },
        ) => login_on_callback(config, csrf_state, now, callback_in(request_line)),
        (LoginStateView::Exchanging { .. }, LoginEventView::ExchangeFailed) => login_failure(
            config,
            LibErrorView::CouldNotExchangeCode,
        ),
        (LoginStateView::Exchanging { now }, LoginEventView::Exchanged(response)) =>
            login_on_response(config, now, response),
        (LoginStateView::Verifying { .. }, LoginEventView::IdTokenRejected) => login_failure(
            config,
            LibErrorView::CouldNotReadClaims,
        ),
        (
            LoginStateView::Verifying { response, access_token_exp },
            LoginEventView::IdTokenVerified { expiration },
        ) => login_on_verified(config, response, access_token_exp, expiration),
        (LoginStateView::AwaitingCallback { .. }, LoginEventView::NoCallback) => login_failure(
            config,
            LibErrorView::NoResponse,
        ),
        _ => login_failure(config, LibErrorView::UnexpectedEvent),
    }
}

fn fail(error: LibError) -> (next: (LoginState, LoginAction))
    ensures
        next.0@ == LoginStateView::Failed,
        next.1@ == LoginActionView::Fail(error@),
{
    (LoginState::Failed, LoginAction::Fail(error))
}

/// What the authorize URL of `config` is built from, given its redirect
/// URL as a URL parser writes it and the state that the callback is to echo.
pub fn authorize_request(config: &ConfigFile, redirect_url: String, csrf_state: String) -> (request:
    AuthorizeRequest)
    ensures
        request@ == authorize_request_of(config@, redirect_url@, csrf_state@),
{
    AuthorizeRequest {
        issuer: String::from_str(ISSUER_URL),
        client_id: config.client_id.clone(),
        client_secret: config.client_secret.clone(),
        redirect_url,
        scopes: copy_strings(config.scopes.as_slice()),
        csrf_state,
        access_type: String::from_str("offline"),
        force_consent: true,
    }
}

/// Begins a login: checks the redirect URL and says what the authorize URL
/// is to be built from.
pub fn begin_login(config: &ConfigFile, now: u64, csrf_state: String) -> (next: (
    LoginState,
    LoginAction,
))
    ensures
        (LoginStep { config: config@, state: next.0@, action: next.1@ }) == login_begin(
            config@,
            now,
            csrf_state@,
        ),
{
    match parse_url(config.redirect_url.as_str()) {
        Ok(url) => {
            let request = authorize_request(config, url_as_text(&url), csrf_state.clone());
            (LoginState::Authorizing { csrf_state, now }, LoginAction::Authorize(request))
        },
        Err(error) => fail(LibError::UrlError(error)),
    }
}

/// Decides on a callback that was read, or on the error of reading it:
/// the code goes to the provider only if the callback echoes `csrf_state`.
pub fn accept_callback(
    callback: Result<Callback, LibError>,
    csrf_state: &String,
    now: u64,
) -> (next: (LoginState, LoginAction))
    ensures
        forall|config: ConfigFileView|
            (LoginStep { config, state: next.0@, action: next.1@ }) == #[trigger] login_on_callback(
                config,
                csrf_state@,
                now,
                result_view(callback),
            ),
{
    match callback {
        Ok(callback) => if callback.state == *csrf_state {
            (LoginState::Exchanging { now }, LoginAction::ExchangeCode { code: callback.code })
        } else {
            fail(LibError::TokenCsrfError)
        },
        Err(error) => fail(error),
    }
}

/// Decides on the provider's answer to the code, received at `now`.
pub fn accept_response(response: TokenResponse, now: u64) -> (next: (LoginState, LoginAction))
    ensures
        forall|config: ConfigFileView|
            (LoginStep { config, state: next.0@, action: next.1@ }) == #[trigger] login_on_response(
                config,
                now,
                response@,
            ),
{
    let access_token_exp: u64 = access_token_expiry(now, response.expires_in);
    match &response.id_token {
        Some(id_token) => {
            let id_token = id_token.clone();
            (
                LoginState::Verifying { response, access_token_exp },
                LoginAction::VerifyIdToken { id_token },
            )
        },
        None => fail(LibError::NoIdToken),
    }
}

/// Takes the tokens of a verified response into the record, if the
/// response holds all that a login has to give.
pub fn accept_verified(
    config: &mut ConfigFile,
    response: TokenResponse,
    access_token_exp: u64,
    expiration: i64,
) -> (next: (LoginState, LoginAction))
    ensures
        (LoginStep { config: final(config)@, state: next.0@, action: next.1@ })
            == login_on_verified(old(config)@, response@, access_token_exp, expiration),
{
    let TokenResponse { access_token, expires_in: _, refresh_token, id_token, scopes } = response;
    match (id_token, refresh_token, scopes) {
        (None, _, _) => fail(LibError::NoIdToken),
        (Some(_), None, _) => fail(LibError::NoRefreshToken),
        (Some(id_token), Some(refresh_token), Some(scopes)) => if scopes.len() > 0 {
            config.scopes = scopes;
            config.refresh_token = Some(refresh_token);
            config.id_token = Some(Token::new(id_token, claim_expiry(expiration)));
            config.access_token = Some(Token::new(access_token, access_token_exp));
            (LoginState::Persisted, LoginAction::Save)
        } else {
            fail(LibError::NoScopes)
        },
        (Some(_), Some(_), None) => fail(LibError::NoScopes),
    }
}

/// Advances the login of `config` by one event.
///
/// The record changes in one step only: the one that ends in `Save`. An
/// event that the state does not await ends the flow.
pub fn google_login(config: &mut ConfigFile, state: LoginState, event: LoginEvent) -> (next: (
    LoginState,
    LoginAction,
))
    ensures
        (LoginStep { config: final(config)@, state: next.0@, action: next.1@ }) == login_step(
            old(config)@,
            state@,
            event@,
        ),
{
    match (state, event) {
        (LoginState::Init, LoginEvent::Start { now, csrf_state }) => begin_login(
            config,
            now,
            csrf_state,
        ),
        (LoginState::Authorizing { .. }, LoginEvent::DiscoveryFailed) => fail(
            LibError::OpenIdError(String::from_str("Failed to discover OpenID Provider")),
        ),
        (LoginState::Authorizing { .. }, LoginEvent::ListenerFailed(error)) => fail(
            LibError::IoError(error),
        ),
        (LoginState::Authorizing { csrf_state, now }, LoginEvent::ListenerBound) => (
            LoginState::AwaitingCallback { csrf_state, now },
            LoginAction::OpenBrowser,
        ),
        (LoginState::AwaitingCallback { .. }, LoginEvent::BrowserFailed(error)) => fail(
            LibError::IoError(error),
        ),
        (LoginState::AwaitingCallback { .. }, LoginEvent::ListenerFailed(error)) => fail(
            LibError::IoError(error),
        ),
        (
            LoginState::AwaitingCallback { csrf_state, now },
            LoginEvent::CallbackReceived { request_line },
        ) => {
            let next = accept_callback(parse_callback(request_line.as_str()), &csrf_state, now);
            assert((LoginStep { config: config@, state: next.0@, action: next.1@ })
                == login_on_callback(
                config@,
                csrf_state@,
                now,
                callback_in(request_line@),
            ));
            next
        },
        (LoginState::Exchanging { .. }, LoginEvent::ExchangeFailed) => fail(
            LibError::CouldNotExchangeCode,
        ),
        (LoginState::Exchanging { now }, LoginEvent::Exchanged(response)) => {
            let ghost answered = response@;
            let next = accept_response(response, now);
            assert((LoginStep { config: config@, state: next.0@, action: next.1@ })
                == login_on_response(config@, now, answered));
            next
        },
        (LoginState::Verifying { .. }, LoginEvent::IdTokenRejected) => fail(
            LibError::CouldNotReadClaims,
        ),
        (
            LoginState::Verifying { response, access_token_exp },
            LoginEvent::IdTokenVerified { expiration },
        ) => accept_verified(config, response, access_token_exp, expiration),
        (LoginState::AwaitingCallback { .. }, LoginEvent::NoCallback) => fail(
            LibError::NoResponse,
        ),
        _ => fail(LibError::UnexpectedEvent),
    }
}

/// A callback whose state differs from the one that was sent ends the
/// login with `TokenCsrfError`: no code goes to the provider, and the
/// record is left as it is.
pub proof fn lemma_csrf_mismatch_fails(
    config: ConfigFileView,
    csrf_state: Seq<char>,
    now: u64,
    callback: CallbackView,
)
    requires
        callback.state != csrf_state,
    ensures
        login_on_callback(config, csrf_state, now, Ok(callback)) == login_failure(
            config,
            LibErrorView::TokenCsrfError,
        ),
{
}

/// A code is exchanged only for a callback that was read and that echoes
/// the state that was sent, and it is the code of that callback.
pub proof fn lemma_exchange_needs_matching_state(
    config: ConfigFileView,
    state: LoginStateView,
    event: LoginEventView,
)
    requires
        login_step(config, state, event).action is ExchangeCode,
    ensures
        ({
            &&& state matches LoginStateView::AwaitingCallback { csrf_state, now }
            &&& event matches LoginEventView::CallbackReceived { request_line }
            &&& callback_in(request_line) matches Ok(callback)
            &&& callback.state == csrf_state
            &&& login_step(config, state, event).action == (LoginActionView::ExchangeCode {
                code: callback.code,
            })
        }),
{
}

/// A login whose response holds no refresh token fails, whatever else the
/// response holds: from the moment it arrives no step saves, and the
/// record is left as it is.
pub proof fn lemma_login_needs_refresh_token(
    config: ConfigFileView,
    now: u64,
    response: TokenResponseView,
    event: LoginEventView,
)
    requires
        response.refresh_token is None,
    ensures
        ({
            let arrived = login_step(
                config,
                LoginStateView::Exchanging { now },
                LoginEventView::Exchanged(response),
            );
            let next = login_step(arrived.config, arrived.state, event);
            &&& arrived.config == config
            &&& !(arrived.action is Save)
            &&& next.config == config
            &&& next.state is Failed
            &&& next.action is Fail
            &&& (response.id_token is Some && event is IdTokenVerified) ==> next.action
                == LoginActionView::Fail(LibErrorView::NoRefreshToken)
        }),
{
}

/// The record changes in one step only, the one that ends in `Save`; and
/// that step comes only after the ID token is verified.
pub proof fn lemma_login_saves_verified_only(
    config: ConfigFileView,
    state: LoginStateView,
    event: LoginEventView,
)
    ensures
        ({
            let step = login_step(config, state, event);
            &&& step.action is Save ==> state is Verifying && event is IdTokenVerified
            &&& step.action is Save <==> step.state is Persisted
            &&& !(step.action is Save) ==> step.config == config
        }),
{
}

/// A flow that has ended stays ended: no event makes it ask for anything
/// or touch the record again.
pub proof fn lemma_login_ends(config: ConfigFileView, state: LoginStateView, event: LoginEventView)
    requires
        state is Persisted || state is Failed,
    ensures
        login_step(config, state, event) == login_failure(config, LibErrorView::UnexpectedEvent),
{
}

/// How far a login has come. A failed login is past every other.
pub open spec fn progress(state: LoginStateView) -> nat {
    match state {
        LoginStateView::Init => 0,
        LoginStateView::Authorizing { .. } => 1,
        LoginStateView::AwaitingCallback { .. } => 2,
        LoginStateView::Exchanging { .. } => 3,
        LoginStateView::Verifying { .. } => 4,
        LoginStateView::Persisted => 5,
        LoginStateView::Failed => 6,
    }
}

/// A login never goes back and never stays: each event takes it to the
/// next state or ends it. So every action is asked for at most once: the
/// browser is opened once, one code is exchanged, and the record is saved
/// once.
pub proof fn lemma_login_advances(
    config: ConfigFileView,
    state: LoginStateView,
    event: LoginEventView,
)
    ensures
        ({
            let next = login_step(config, state, event).state;
            next is Failed || progress(next) == progress(state) + 1
        }),
        ({
            let step = login_step(config, state, event);
            &&& step.action is Authorize ==> state is Init && step.state is Authorizing
            &&& step.action is OpenBrowser ==> state is Authorizing && step.state
                is AwaitingCallback
            &&& step.action is ExchangeCode ==> state is AwaitingCallback && step.state
                is Exchanging
            &&& step.action is VerifyIdToken ==> state is Exchanging && step.state is Verifying
            &&& step.action is Save ==> state is Verifying && step.state is Persisted
            &&& step.action is Fail <==> step.state is Failed
        }),
{
}

/// The browser is opened only once the listener is bound, so that no
/// redirect can come before someone listens; and the state that the
/// callback has to echo is the one that went into the authorize URL.
pub proof fn lemma_listener_is_bound_before_browser_opens(
    config: ConfigFileView,
    state: LoginStateView,
    event: LoginEventView,
)
    requires
        login_step(config, state, event).action is OpenBrowser,
    ensures
        event is ListenerBound,
        ({
            &&& state matches LoginStateView::Authorizing { csrf_state, now }
            &&& login_step(config, state, event).state == (LoginStateView::AwaitingCallback {
                csrf_state,
                now,
            })
        }),
{
}

/// Where a login stands, and what its record holds, after `events` have
/// been reported one by one from `state` on.
pub open spec fn login_after(
    config: ConfigFileView,
    state: LoginStateView,
    events: Seq<LoginEventView>,
) -> LoginStep
    decreases events.len(),
{
    if events.len() == 0 {
        LoginStep { config, state, action: LoginActionView::Fail(LibErrorView::UnexpectedEvent) }
    } else {
        let before = login_after(config, state, events.drop_last());
        login_step(before.config, before.state, events.last())
    }
}

/// The step that the event at position `i` of `events` brings about.
pub open spec fn login_step_at(
    config: ConfigFileView,
    state: LoginStateView,
    events: Seq<LoginEventView>,
    i: int,
) -> LoginStep {
    login_after(config, state, events.take(i + 1))
}

/// The order in which a login asks for its actions. Giving up has no
/// place in it.
pub open spec fn turn(action: LoginActionView) -> nat {
    match action {
        LoginActionView::Authorize(_) => 1,
        LoginActionView::OpenBrowser => 2,
        LoginActionView::ExchangeCode { .. } => 3,
        LoginActionView::VerifyIdToken { .. } => 4,
        LoginActionView::Save => 5,
        LoginActionView::Fail(_) => 6,
    }
}

/// Whatever is reported, and in whatever order: a login that has not
/// failed after `events` has asked for one action per event, each in its
/// turn.
pub proof fn lemma_login_keeps_its_order(
    config: ConfigFileView,
    state: LoginStateView,
    events: Seq<LoginEventView>,
)
    ensures
        ({
            let reached = login_after(config, state, events);
            &&& reached.state is Failed || progress(reached.state) == progress(state)
                + events.len()
            &&& events.len() > 0 ==> turn(reached.action) == progress(reached.state)
            &&& !(reached.state is Failed) ==> forall|i: int|
                0 <= i < events.len() ==> turn(
                    #[trigger] login_step_at(config, state, events, i).action,
                ) == progress(state) + i + 1
        }),
    decreases events.len(),
{
    if events.len() > 0 {
        let earlier = events.drop_last();
        lemma_login_keeps_its_order(config, state, earlier);
        let before = login_after(config, state, earlier);
        lemma_login_advances(before.config, before.state, events.last());
        let reached = login_after(config, state, events);
        if !(reached.state is Failed) {
            assert forall|i: int| 0 <= i < events.len() implies turn(
                #[trigger] login_step_at(config, state, events, i).action,
            ) == progress(state) + i + 1 by {
                if i < events.len() - 1 {
                    assert(events.take(i + 1) =~= earlier.take(i + 1));
                    assert(login_step_at(config, state, events, i) == login_step_at(
                        config,
                        state,
                        earlier,
                        i,
                    ));
                } else {
                    assert(events.take(i + 1) =~= events);
                }
            }
        }
    }
}

/// In no run of a login is anything asked for twice, except to give up:
/// the browser is opened once, one code is exchanged, the record is saved
/// once.
pub proof fn lemma_login_asks_once(
    config: ConfigFileView,
    state: LoginStateView,
    events: Seq<LoginEventView>,
    i: int,
    j: int,
)
    requires
        0 <= i < j < events.len(),
    ensures
        ({
            let first = login_step_at(config, state, events, i).action;
            let second = login_step_at(config, state, events, j).action;
            second is Fail || turn(first) < turn(second)
        }),
{
    let upto = events.take(j + 1);
    lemma_login_keeps_its_order(config, state, upto);
    let second = login_after(config, state, upto);
    if !(second.state is Failed) {
        assert(upto.take(i + 1) =~= events.take(i + 1));
        assert(login_step_at(config, state, upto, i) == login_step_at(config, state, events, i));
        assert(upto.take(j + 1) =~= upto);
        assert(login_step_at(config, state, upto, j) == second);
    } else {
        lemma_login_advances(
            login_after(config, state, upto.drop_last()).config,
            login_after(config, state, upto.drop_last()).state,
            upto.last(),
        );
    }
}

/// Whatever is reported, the record stays as it was until the step that
/// asks to save it.
pub proof fn lemma_login_changes_record_on_save_only(
    config: ConfigFileView,
    state: LoginStateView,
    events: Seq<LoginEventView>,
)
    requires
        forall|i: int|
            0 <= i < events.len() ==> !(#[trigger] login_step_at(config, state, events, i).action
                is Save),
    ensures
        login_after(config, state, events).config == config,
    decreases events.len(),
{
    if events.len() > 0 {
        let earlier = events.drop_last();
        assert forall|i: int| 0 <= i < earlier.len() implies !(#[trigger] login_step_at(
            config,
            state,
            earlier,
            i,
        ).action is Save) by {
            assert(events.take(i + 1) =~= earlier.take(i + 1));
            assert(login_step_at(config, state, events, i) == login_step_at(
                config,
                state,
                earlier,
                i,
            ));
        }
        lemma_login_changes_record_on_save_only(config, state, earlier);
        let before = login_after(config, state, earlier);
        lemma_login_saves_verified_only(before.config, before.state, events.last());
        assert(events.take(events.len() as int) =~= events);
        assert(login_step_at(config, state, events, events.len() - 1) == login_after(
            config,
            state,
            events,
        ));
    }
}

/// The kind of the error says what a login gave up on. A rejected ID
/// token, a refused code, a failed discovery and a listener that heard
/// nothing each have a kind that nothing else in a login gives.
pub proof fn lemma_login_errors_name_their_cause(
    config: ConfigFileView,
    state: LoginStateView,
    event: LoginEventView,
)
    ensures
        ({
            let action = login_step(config, state, event).action;
            &&& action == LoginActionView::Fail(LibErrorView::CouldNotReadClaims) <==> state
                is Verifying && event is IdTokenRejected
            &&& action == LoginActionView::Fail(LibErrorView::CouldNotExchangeCode) <==> state
                is Exchanging && event is ExchangeFailed
            &&& (action matches LoginActionView::Fail(error) && error is OpenIdError) <==> state
                is Authorizing && event is DiscoveryFailed
            &&& action == LoginActionView::Fail(LibErrorView::NoResponse) <==> state
                is AwaitingCallback && event is NoCallback
            &&& action == LoginActionView::Fail(LibErrorView::TokenCsrfError) ==> state
                is AwaitingCallback && event is CallbackReceived
            &&& action == LoginActionView::Fail(LibErrorView::MalformedCallback) ==> state
                is AwaitingCallback && event is CallbackReceived
            &&& (action matches LoginActionView::Fail(error) && error is UrlError) ==> state
                is Init && event is Start
            &&& (action matches LoginActionView::Fail(error) && error is IoError) ==> event
                is BrowserFailed || event is ListenerFailed
        }),
{
}

/// A login whose ID token is rejected ends with `CouldNotReadClaims`, and
/// the record is left as it is: no token that was not verified reaches it.
pub proof fn lemma_rejected_id_token_fails(
    config: ConfigFileView,
    response: TokenResponseView,
    access_token_exp: u64,
)
    ensures
        login_step(
            config,
            LoginStateView::Verifying { response, access_token_exp },
            LoginEventView::IdTokenRejected,
        ) == login_failure(config, LibErrorView::CouldNotReadClaims),
{
}

} // verus!
