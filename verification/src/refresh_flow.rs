//! Renewal of a profile's tokens from its refresh token, as a machine that
//! decides while its caller talks to the provider.
//!
//! The caller performs each [`RefreshAction`] and reports what came of it
//! as the next [`RefreshEvent`]. `Save` and `Fail` end the flow.

use vstd::prelude::*;
use vstd::string::*;
use crate::config_file::{copy_strings, ConfigFile, ConfigFileView, Token};
use crate::errors::{LibError, LibErrorView};
use crate::provider::{
    access_token_expiry, claim_expiry, expiry_at, received_access_token, verified_id_token,
    TokenResponse, TokenResponseView,
};

verus! {

/// What the provider is sent to renew the tokens of a profile.
#[derive(Debug)]
pub struct RefreshRequest {
    pub client_id: String,
    pub client_secret: String,
    pub refresh_token: String,
    pub scopes: Vec<String>,
}

/// Mathematical model of a [`RefreshRequest`].
pub struct RefreshRequestView {
    pub client_id: Seq<char>,
    pub client_secret: Seq<char>,
    pub refresh_token: Seq<char>,
    pub scopes: Seq<Seq<char>>,
}

impl View for RefreshRequest {
    type V = RefreshRequestView;

    open spec fn view(&self) -> RefreshRequestView {
        RefreshRequestView {
            client_id: self.client_id@,
            client_secret: self.client_secret@,
            refresh_token: self.refresh_token@,
            scopes: self.scopes.deep_view(),
        }
    }
}

/// Where a refresh stands.
#[derive(Debug)]
pub enum RefreshState {
    /// Nothing has been sent.
    Start,
    /// The refresh token is with the provider; `now` is when it was sent.
    Exchanging { now: u64 },
    /// The new ID token is being verified.
    Verifying { id_token: String },
    /// The record holds the new tokens and is to be saved.
    Persisted,
    Failed,
}

/// Mathematical model of a [`RefreshState`].
pub enum RefreshStateView {
    Start,
    Exchanging { now: u64 },
    Verifying { id_token: Seq<char> },
    Persisted,
    Failed,
}

impl View for RefreshState {
    type V = RefreshStateView;

    open spec fn view(&self) -> RefreshStateView {
        match *self {
            RefreshState::Start => RefreshStateView::Start,
            RefreshState::Exchanging { now } => RefreshStateView::Exchanging { now },
            RefreshState::Verifying { id_token } => RefreshStateView::Verifying {
                id_token: id_token@,
            },
            RefreshState::Persisted => RefreshStateView::Persisted,
            RefreshState::Failed => RefreshStateView::Failed,
        }
    }
}

/// What the caller reports.
#[derive(Debug)]
pub enum RefreshEvent {
    /// The flow is asked to begin, at Unix time `now`.
    Begin { now: u64 },
    /// The provider's discovery document could not be had.
    DiscoveryFailed,
    /// The provider refused the refresh token or could not be reached.
    ExchangeFailed,
    Exchanged(TokenResponse),
    /// Signature or claims of the ID token did not hold.
    ClaimsRejected,
    /// The ID token holds; `expiration` is its expiration claim.
    ClaimsVerified { expiration: i64 },
}

/// Mathematical model of a [`RefreshEvent`].
pub enum RefreshEventView {
    Begin { now: u64 },
    DiscoveryFailed,
    ExchangeFailed,
    Exchanged(TokenResponseView),
    ClaimsRejected,
    ClaimsVerified { expiration: i64 },
}

impl View for RefreshEvent {
    type V = RefreshEventView;

    open spec fn view(&self) -> RefreshEventView {
        match *self {
            RefreshEvent::Begin { now } => RefreshEventView::Begin { now },
            RefreshEvent::DiscoveryFailed => RefreshEventView::DiscoveryFailed,
            RefreshEvent::ExchangeFailed => RefreshEventView::ExchangeFailed,
            RefreshEvent::Exchanged(response) => RefreshEventView::Exchanged(response@),
            RefreshEvent::ClaimsRejected => RefreshEventView::ClaimsRejected,
            RefreshEvent::ClaimsVerified { expiration } => RefreshEventView::ClaimsVerified {
                expiration,
            },
        }
    }
}

/// What the caller is to do next.
#[derive(Debug)]
pub enum RefreshAction {
    /// Discover the provider and exchange the refresh token.
    Exchange(RefreshRequest),
    /// Verify signature and standard claims of this ID token, without a
    /// nonce.
    VerifyIdToken { id_token: String },
    /// Write the record to the store.
    Save,
    /// Give up with this error; nothing is written.
    Fail(LibError),
}

/// Mathematical model of a [`RefreshAction`].
pub enum RefreshActionView {
    Exchange(RefreshRequestView),
    VerifyIdToken { id_token: Seq<char> },
    Save,
    Fail(LibErrorView),
}

impl View for RefreshAction {
    type V = RefreshActionView;

    open spec fn view(&self) -> RefreshActionView {
        match *self {
            RefreshAction::Exchange(request) => RefreshActionView::Exchange(request@),
            RefreshAction::VerifyIdToken { id_token } => RefreshActionView::VerifyIdToken {
                id_token: id_token@,
            },
            RefreshAction::Save => RefreshActionView::Save,
            RefreshAction::Fail(error) => RefreshActionView::Fail(error@),
        }
    }
}

/// The record, the state and the action that follow an event.
pub struct RefreshStep {
    pub config: ConfigFileView,
    pub state: RefreshStateView,
    pub action: RefreshActionView,
}

/// The step that gives up with `error` and leaves the record as it is.
pub open spec fn refresh_failure(config: ConfigFileView, error: LibErrorView) -> RefreshStep {
    RefreshStep { config, state: RefreshStateView::Failed, action: RefreshActionView::Fail(error) }
}

/// The request that renews the tokens of `config` with `refresh_token`.
pub open spec fn refresh_request_of(
    config: ConfigFileView,
    refresh_token: Seq<char>,
) -> RefreshRequestView {
    RefreshRequestView {
        client_id: config.client_id,
        client_secret: config.client_secret,
        refresh_token,
        scopes: config.scopes,
    }
}

/// The record once a refresh response received at `now` is taken in: a
/// new access token, and a new refresh token where the provider rotated it.
pub open spec fn with_refreshed_access(
    config: ConfigFileView,
    now: u64,
    response: TokenResponseView,
) -> ConfigFileView {
    ConfigFileView {
        access_token: Some(received_access_token(now, response)),
        refresh_token: match response.refresh_token {
            Some(rotated) => Some(rotated),
            None => config.refresh_token,
        },
        ..config
    }
}

/// The transitions of the refresh flow.
pub open spec fn refresh_step(
    config: ConfigFileView,
    state: RefreshStateView,
    event: RefreshEventView,
) -> RefreshStep {
    match (state, event) {
        (RefreshStateView::Start, RefreshEventView::Begin { now }) => match config.refresh_token {
            Some(refresh_token) => RefreshStep {
                config,
                state: RefreshStateView::Exchanging { now },
                action: RefreshActionView::Exchange(refresh_request_of(config, refresh_token)),
            },
            None => refresh_failure(config, LibErrorView::NoRefreshTokenForConfig(config.name)),
        },
        (RefreshStateView::Exchanging { now }, RefreshEventView::DiscoveryFailed) => refresh_failure(
            config,
            LibErrorView::OpenIdError("Failed to discover OpenID Provider"@),
        ),
        (RefreshStateView::Exchanging { now }, RefreshEventView::Exchanged(response)) => {
            let renewed = with_refreshed_access(config, now, response);
            match response.id_token {
                Some(id_token) => RefreshStep {
                    config: renewed,
                    state: RefreshStateView::Verifying { id_token },
                    action: RefreshActionView::VerifyIdToken { id_token },
                },
                None => refresh_failure(renewed, LibErrorView::NoIdToken),
            }
        },
        (RefreshStateView::Verifying { id_token }, RefreshEventView::ClaimsRejected) =>
            refresh_failure(config, LibErrorView::CouldNotReadClaims),
        (
            RefreshStateView::Verifying { id_token },
            RefreshEventView::ClaimsVerified { expiration },
        ) => RefreshStep {
            config: ConfigFileView {
                id_token: Some(verified_id_token(id_token, expiration)),
                ..config
            },
            state: RefreshStateView::Persisted,
            action: RefreshActionView::Save,
        },
        (RefreshStateView::Exchanging { .. }, RefreshEventView::ExchangeFailed) => refresh_failure(
            config,
            LibErrorView::CouldNotRefreshToken,
        ),
        _ => refresh_failure(config, LibErrorView::UnexpectedEvent),
    }
}

/// Advances the refresh of `config` by one event.
///
/// The record changes only where the provider answered: the access token
/// (and a rotated refresh token) on `Exchanged`, the ID token on
/// `ClaimsVerified`. An event that the state does not await ends the flow.
pub fn refresh_google_login(
    config: &mut ConfigFile,
    state: RefreshState,
    event: RefreshEvent,
) -> (next: (RefreshState, RefreshAction))
    ensures
        (RefreshStep { config: final(config)@, state: next.0@, action: next.1@ }) == refresh_step(
            old(config)@,
            state@,
            event@,
        ),
{
    match (state, event) {
        (RefreshState::Start, RefreshEvent::Begin { now }) => match &config.refresh_token {
            Some(refresh_token) => {
                let request = RefreshRequest {
                    client_id: config.client_id.clone(),
                    client_secret: config.client_secret.clone(),
                    refresh_token: refresh_token.clone(),
                    scopes: copy_strings(config.scopes.as_slice()),
                };
                (RefreshState::Exchanging { now }, RefreshAction::Exchange(request))
            },
            None => (
                RefreshState::Failed,
                RefreshAction::Fail(LibError::NoRefreshTokenForConfig(config.name.clone())),
            ),
        },
        (RefreshState::Exchanging { now }, RefreshEvent::DiscoveryFailed) => (
            RefreshState::Failed,
            RefreshAction::Fail(
                LibError::OpenIdError(String::from_str("Failed to discover OpenID Provider")),
            ),
        ),
        (RefreshState::Exchanging { now }, RefreshEvent::Exchanged(response)) => {
            let exp: u64 = access_token_expiry(now, response.expires_in);
            config.access_token = Some(Token::new(response.access_token, exp));
            match response.refresh_token {
                Some(rotated) => {
                    config.refresh_token = Some(rotated);
                },
                None => {},
            }
            match response.id_token {
                Some(id_token) => (
                    RefreshState::Verifying { id_token: id_token.clone() },
                    RefreshAction::VerifyIdToken { id_token },
                ),
                None => (RefreshState::Failed, RefreshAction::Fail(LibError::NoIdToken)),
            }
        },
        (RefreshState::Verifying { id_token }, RefreshEvent::ClaimsRejected) => (
            RefreshState::Failed,
            RefreshAction::Fail(LibError::CouldNotReadClaims),
        ),
        (RefreshState::Verifying { id_token }, RefreshEvent::ClaimsVerified { expiration }) => {
            config.id_token = Some(Token::new(id_token, claim_expiry(expiration)));
            (RefreshState::Persisted, RefreshAction::Save)
        },
        (RefreshState::Exchanging { .. }, RefreshEvent::ExchangeFailed) => (
            RefreshState::Failed,
            RefreshAction::Fail(LibError::CouldNotRefreshToken),
        ),
        _ => (RefreshState::Failed, RefreshAction::Fail(LibError::UnexpectedEvent)),
    }
}

/// A profile without a refresh token cannot be refreshed: the flow ends at
/// once with `NoRefreshTokenForConfig`, the record is left as it is, and
/// the provider is never asked.
pub proof fn lemma_refresh_needs_refresh_token(config: ConfigFileView, now: u64)
    requires
        config.refresh_token is None,
    ensures
        refresh_step(config, RefreshStateView::Start, RefreshEventView::Begin { now })
            == refresh_failure(config, LibErrorView::NoRefreshTokenForConfig(config.name)),
        !(refresh_step(config, RefreshStateView::Start, RefreshEventView::Begin { now }).action
            is Exchange),
{
}

/// A refresh renews tokens and nothing else: name, client, scopes,
/// redirect URL and version of the record stay, whatever happens. The
/// refresh token stays too, unless the provider's answer holds a new one.
pub proof fn lemma_refresh_keeps_identity(
    config: ConfigFileView,
    state: RefreshStateView,
    event: RefreshEventView,
)
    ensures
        ({
            let after = refresh_step(config, state, event).config;
            &&& after.version == config.version
            &&& after.name == config.name
            &&& after.client_id == config.client_id
            &&& after.client_secret == config.client_secret
            &&& after.scopes == config.scopes
            &&& after.redirect_url == config.redirect_url
            &&& after.refresh_token != config.refresh_token ==> ({
                &&& event matches RefreshEventView::Exchanged(response)
                &&& state is Exchanging
                &&& response.refresh_token is Some
                &&& after.refresh_token == response.refresh_token
            })
        }),
{
}

/// The record is saved only once a new ID token is verified, and the flow
/// is then over.
pub proof fn lemma_refresh_saves_verified_only(
    config: ConfigFileView,
    state: RefreshStateView,
    event: RefreshEventView,
)
    ensures
        ({
            let step = refresh_step(config, state, event);
            step.action is Save <==> state is Verifying && event is ClaimsVerified
        }),
        refresh_step(config, state, event).action is Save <==> refresh_step(
            config,
            state,
            event,
        ).state is Persisted,
{
}

/// A flow that has ended stays ended: no event makes it ask for anything
/// or touch the record again.
pub proof fn lemma_refresh_ends(
    config: ConfigFileView,
    state: RefreshStateView,
    event: RefreshEventView,
)
    requires
        state is Persisted || state is Failed,
    ensures
        refresh_step(config, state, event) == refresh_failure(
            config,
            LibErrorView::UnexpectedEvent,
        ),
{
}

/// How far a refresh has come. A failed refresh is past every other.
pub open spec fn progress(state: RefreshStateView) -> nat {
    match state {
        RefreshStateView::Start => 0,
        RefreshStateView::Exchanging { .. } => 1,
        RefreshStateView::Verifying { .. } => 2,
        RefreshStateView::Persisted => 3,
        RefreshStateView::Failed => 4,
    }
}

/// A refresh never goes back and never stays: each event takes it to the
/// next state or ends it. So the refresh token is exchanged at most once
/// and the record is saved at most once.
pub proof fn lemma_refresh_advances(
    config: ConfigFileView,
    state: RefreshStateView,
    event: RefreshEventView,
)
    ensures
        ({
            let next = refresh_step(config, state, event).state;
            next is Failed || progress(next) == progress(state) + 1
        }),
        ({
            let step = refresh_step(config, state, event);
            &&& step.action is Exchange ==> state is Start && step.state is Exchanging
            &&& step.action is VerifyIdToken ==> state is Exchanging && step.state is Verifying
            &&& step.action is Save ==> state is Verifying && step.state is Persisted
            &&& step.action is Fail <==> step.state is Failed
        }),
{
}

/// Where a refresh stands, and what its record holds, after `events` have
/// been reported one by one from `state` on.
pub open spec fn refresh_after(
    config: ConfigFileView,
    state: RefreshStateView,
    events: Seq<RefreshEventView>,
) -> RefreshStep
    decreases events.len(),
{
    if events.len() == 0 {
        RefreshStep {
            config,
            state,
            action: RefreshActionView::Fail(LibErrorView::UnexpectedEvent),
        }
    } else {
        let before = refresh_after(config, state, events.drop_last());
        refresh_step(before.config, before.state, events.last())
    }
}

/// The step that the event at position `i` of `events` brings about.
pub open spec fn refresh_step_at(
    config: ConfigFileView,
    state: RefreshStateView,
    events: Seq<RefreshEventView>,
    i: int,
) -> RefreshStep {
    refresh_after(config, state, events.take(i + 1))
}

/// The order in which a refresh asks for its actions. Giving up has no
/// place in it.
pub open spec fn turn(action: RefreshActionView) -> nat {
    match action {
        RefreshActionView::Exchange(_) => 1,
        RefreshActionView::VerifyIdToken { .. } => 2,
        RefreshActionView::Save => 3,
        RefreshActionView::Fail(_) => 4,
    }
}

/// Whatever is reported, and in whatever order: a refresh that has not
/// failed after `events` has asked for one action per event, each in its
/// turn.
pub proof fn lemma_refresh_keeps_its_order(
    config: ConfigFileView,
    state: RefreshStateView,
    events: Seq<RefreshEventView>,
)
    ensures
        ({
            let reached = refresh_after(config, state, events);
            &&& reached.state is Failed || progress(reached.state) == progress(state)
                + events.len()
            &&& events.len() > 0 ==> turn(reached.action) == progress(reached.state)
            &&& !(reached.state is Failed) ==> forall|i: int|
                0 <= i < events.len() ==> turn(
                    #[trigger] refresh_step_at(config, state, events, i).action,
                ) == progress(state) + i + 1
        }),
    decreases events.len(),
{
    if events.len() > 0 {
        let earlier = events.drop_last();
        lemma_refresh_keeps_its_order(config, state, earlier);
        let before = refresh_after(config, state, earlier);
        lemma_refresh_advances(before.config, before.state, events.last());
        let reached = refresh_after(config, state, events);
        if !(reached.state is Failed) {
            assert forall|i: int| 0 <= i < events.len() implies turn(
                #[trigger] refresh_step_at(config, state, events, i).action,
            ) == progress(state) + i + 1 by {
                if i < events.len() - 1 {
                    assert(events.take(i + 1) =~= earlier.take(i + 1));
                    assert(refresh_step_at(config, state, events, i) == refresh_step_at(
                        config,
                        state,
                        earlier,
                        i,
                    ));
                } else {
                    assert(events.take(i + 1) =~= events);
                }
            }
        }
    }
}

/// In no run of a refresh is anything asked for twice, except to give up:
/// the refresh token is exchanged once and the record is saved once.
pub proof fn lemma_refresh_asks_once(
    config: ConfigFileView,
    state: RefreshStateView,
    events: Seq<RefreshEventView>,
    i: int,
    j: int,
)
    requires
        0 <= i < j < events.len(),
    ensures
        ({
            let first = refresh_step_at(config, state, events, i).action;
            let second = refresh_step_at(config, state, events, j).action;
            second is Fail || turn(first) < turn(second)
        }),
{
    let upto = events.take(j + 1);
    lemma_refresh_keeps_its_order(config, state, upto);
    let second = refresh_after(config, state, upto);
    if !(second.state is Failed) {
        assert(upto.take(i + 1) =~= events.take(i + 1));
        assert(refresh_step_at(config, state, upto, i) == refresh_step_at(
            config,
            state,
            events,
            i,
        ));
        assert(upto.take(j + 1) =~= upto);
        assert(refresh_step_at(config, state, upto, j) == second);
    } else {
        lemma_refresh_advances(
            refresh_after(config, state, upto.drop_last()).config,
            refresh_after(config, state, upto.drop_last()).state,
            upto.last(),
        );
    }
}

/// Whatever is reported, a refresh leaves name, client, scopes, redirect
/// URL and version of the record as they were.
pub proof fn lemma_refresh_run_keeps_identity(
    config: ConfigFileView,
    state: RefreshStateView,
    events: Seq<RefreshEventView>,
)
    ensures
        ({
            let after = refresh_after(config, state, events).config;
            &&& after.version == config.version
            &&& after.name == config.name
            &&& after.client_id == config.client_id
            &&& after.client_secret == config.client_secret
            &&& after.scopes == config.scopes
            &&& after.redirect_url == config.redirect_url
        }),
    decreases events.len(),
{
    if events.len() > 0 {
        lemma_refresh_run_keeps_identity(config, state, events.drop_last());
        let before = refresh_after(config, state, events.drop_last());
        lemma_refresh_keeps_identity(before.config, before.state, events.last());
    }
}

/// The kind of the error says what a refresh gave up on.
pub proof fn lemma_refresh_errors_name_their_cause(
    config: ConfigFileView,
    state: RefreshStateView,
    event: RefreshEventView,
)
    ensures
        ({
            let action = refresh_step(config, state, event).action;
            &&& action == RefreshActionView::Fail(LibErrorView::CouldNotRefreshToken) <==> state
                is Exchanging && event is ExchangeFailed
            &&& action == RefreshActionView::Fail(LibErrorView::CouldNotReadClaims) <==> state
                is Verifying && event is ClaimsRejected
            &&& (action matches RefreshActionView::Fail(error) && error is OpenIdError) <==> state
                is Exchanging && event is DiscoveryFailed
            &&& (action matches RefreshActionView::Fail(error) && error
                is NoRefreshTokenForConfig) <==> state is Start && event is Begin
                && config.refresh_token is None
            &&& action == RefreshActionView::Fail(LibErrorView::NoIdToken) ==> state is Exchanging
                && event is Exchanged
        }),
{
}

/// A refresh never clears or alters the refresh token of the record when
/// the provider issues none; and when the provider issues one, that one
/// is in the record from then on. This holds in every state and for every
/// event.
pub proof fn lemma_refresh_token_stays_unless_rotated(
    config: ConfigFileView,
    state: RefreshStateView,
    event: RefreshEventView,
)
    ensures
        ({
            let after = refresh_step(config, state, event).config;
            match (state, event) {
                (RefreshStateView::Exchanging { .. }, RefreshEventView::Exchanged(response)) =>
                    match response.refresh_token {
                        Some(rotated) => after.refresh_token == Some(rotated),
                        None => after.refresh_token == config.refresh_token,
                    },
                _ => after.refresh_token == config.refresh_token,
            }
        }),
{
}

/// Whether no answer among `events` holds a refresh token.
pub open spec fn none_rotates(events: Seq<RefreshEventView>) -> bool {
    forall|i: int|
        0 <= i < events.len() ==> match #[trigger] events[i] {
            RefreshEventView::Exchanged(response) => response.refresh_token is None,
            _ => true,
        }
}

/// Whatever is reported and however the refresh ends: as long as no
/// answer holds a new refresh token, the record keeps the one it has.
pub proof fn lemma_refresh_run_keeps_refresh_token(
    config: ConfigFileView,
    state: RefreshStateView,
    events: Seq<RefreshEventView>,
)
    requires
        none_rotates(events),
    ensures
        refresh_after(config, state, events).config.refresh_token == config.refresh_token,
    decreases events.len(),
{
    if events.len() > 0 {
        let earlier = events.drop_last();
        assert(none_rotates(earlier)) by {
            assert forall|i: int| 0 <= i < earlier.len() implies match #[trigger] earlier[i] {
                RefreshEventView::Exchanged(response) => response.refresh_token is None,
                _ => true,
            } by {
                assert(earlier[i] == events[i]);
            }
        }
        lemma_refresh_run_keeps_refresh_token(config, state, earlier);
        let before = refresh_after(config, state, earlier);
        assert(events.last() == events[events.len() - 1]);
        lemma_refresh_token_stays_unless_rotated(before.config, before.state, events.last());
    }
}

/// A refresh that begins at `now` with a refresh token, is answered with
/// an ID token, and sees that token verified, ends in `Save` with: the
/// new access token, expiring at `now` plus its lifetime (see
/// [`expiry_at`]); the new ID token with the expiry of its claim;
/// and the refresh token that the record had, unless the answer holds a
/// new one, which is then taken.
pub proof fn lemma_complete_refresh(
    config: ConfigFileView,
    now: u64,
    response: TokenResponseView,
    expiration: i64,
)
    requires
        config.refresh_token is Some,
        response.id_token is Some,
    ensures
        ({
            let begun = refresh_step(
                config,
                RefreshStateView::Start,
                RefreshEventView::Begin { now },
            );
            let answered = refresh_step(
                begun.config,
                begun.state,
                RefreshEventView::Exchanged(response),
            );
            let verified = refresh_step(
                answered.config,
                answered.state,
                RefreshEventView::ClaimsVerified { expiration },
            );
            &&& begun.action == RefreshActionView::Exchange(
                refresh_request_of(config, config.refresh_token->0),
            )
            &&& answered.action == (RefreshActionView::VerifyIdToken {
                id_token: response.id_token->0,
            })
            &&& verified.action is Save
            &&& verified.state is Persisted
            &&& verified.config.access_token matches Some(access)
            &&& access.secret == response.access_token
            &&& access.exp == expiry_at(now, response.expires_in)
            &&& verified.config.id_token == Some(
                verified_id_token(response.id_token->0, expiration),
            )
            &&& verified.config.refresh_token == match response.refresh_token {
                Some(rotated) => Some(rotated),
                None => config.refresh_token,
            }
        }),
{
}

} // verus!
