//! The record with which a login starts: what is stored for the profile,
//! overridden by what the user names for this login.

use vstd::prelude::*;
use vstd::string::*;
use crate::config_file::{fresh_record, ConfigFile, ConfigFileView, CURRENT_VERSION};

verus! {

/// What the user names for a login. Each value that is given replaces the
/// stored one.
#[derive(Debug)]
pub struct LoginOptions {
    pub client_id: Option<String>,
    pub client_secret: Option<String>,
    pub scopes: Option<Vec<String>>,
    pub redirect_url: Option<String>,
}

/// Mathematical model of [`LoginOptions`].
pub struct LoginOptionsView {
    pub client_id: Option<Seq<char>>,
    pub client_secret: Option<Seq<char>>,
    pub scopes: Option<Seq<Seq<char>>>,
    pub redirect_url: Option<Seq<char>>,
}

impl View for LoginOptions {
    type V = LoginOptionsView;

    open spec fn view(&self) -> LoginOptionsView {
        LoginOptionsView {
            client_id: self.client_id.deep_view(),
            client_secret: self.client_secret.deep_view(),
            scopes: self.scopes.deep_view(),
            redirect_url: self.redirect_url.deep_view(),
        }
    }
}

/// A value without which a new profile cannot be made.
#[derive(Clone, Copy, Debug, PartialEq, Eq)]
pub enum LoginOption {
    ClientId,
    ClientSecret,
    Scopes,
    RedirectUrl,
}

/// `given` where there is one, else `stored`.
pub open spec fn preferred<T>(given: Option<T>, stored: T) -> T {
    match given {
        Some(value) => value,
        None => stored,
    }
}

/// The record with which the login of the profile `name` starts. A stored
/// record keeps its name and its tokens. Without one, all four options are
/// needed; the first that is missing is named.
pub open spec fn login_record(
    existing: Option<ConfigFileView>,
    name: Seq<char>,
    options: LoginOptionsView,
) -> Result<ConfigFileView, LoginOption> {
    match existing {
        Some(stored) => Ok(
            ConfigFileView {
                client_id: preferred(options.client_id, stored.client_id),
                client_secret: preferred(options.client_secret, stored.client_secret),
                scopes: preferred(options.scopes, stored.scopes),
                redirect_url: preferred(options.redirect_url, stored.redirect_url),
                ..stored
            },
        ),
        None => match options {
            LoginOptionsView { client_id: None, .. } => Err(LoginOption::ClientId),
            LoginOptionsView { client_secret: None, .. } => Err(LoginOption::ClientSecret),
            LoginOptionsView { scopes: None, .. } => Err(LoginOption::Scopes),
            LoginOptionsView { redirect_url: None, .. } => Err(LoginOption::RedirectUrl),
            LoginOptionsView {
                client_id: Some(client_id),
                client_secret: Some(client_secret),
                scopes: Some(scopes),
                redirect_url: Some(redirect_url),
            } => Ok(fresh_record(name, client_id, client_secret, scopes, redirect_url)),
        },
    }
}

/// How the user is told that `option` is missing for the profile `name`.
pub open spec fn missing_option_text(option: LoginOption, name: Seq<char>) -> Seq<char> {
    match option {
        LoginOption::ClientId => "You must specify a client id for the configuration "@ + name,
        LoginOption::ClientSecret => "You must specify a client secret for the configuration "@
            + name,
        LoginOption::Scopes => "You must specify at least one scope for the configuration "@
            + name,
        LoginOption::RedirectUrl => "You must specify a redirect URL for the configuration "@
            + name,
    }
}

impl LoginOption {
    /// Tells the user that this option is missing for the profile `name`.
    pub fn message(&self, name: &str) -> (text: String)
        ensures
            text@ == missing_option_text(*self, name@),
    {
        let mut text = match self {
            LoginOption::ClientId => String::from_str(
                "You must specify a client id for the configuration ",
            ),
            LoginOption::ClientSecret => String::from_str(
                "You must specify a client secret for the configuration ",
            ),
            LoginOption::Scopes => String::from_str(
                "You must specify at least one scope for the configuration ",
            ),
            LoginOption::RedirectUrl => String::from_str(
                "You must specify a redirect URL for the configuration ",
            ),
        };
        text.append(name);
        text
    }
}

impl ConfigFile {
    /// Makes the one record with which a login starts, from what is stored
    /// for the profile and what the user names.
    pub fn for_login(existing: Option<ConfigFile>, name: &str, options: LoginOptions) -> (config:
        Result<ConfigFile, LoginOption>)
        ensures
            match config {
                Ok(config) => login_record(existing.deep_view(), name@, options@) == Ok::<
                    ConfigFileView,
                    LoginOption,
                >(config@),
                Err(missing) => login_record(existing.deep_view(), name@, options@) == Err::<
                    ConfigFileView,
                    LoginOption,
                >(missing),
            },
    {
        let LoginOptions { client_id, client_secret, scopes, redirect_url } = options;
        match existing {
            Some(stored) => {
                let mut config = stored;
                match client_id {
                    Some(client_id) => {
                        config.client_id = client_id;
                    },
                    None => {},
                }
                match client_secret {
                    Some(client_secret) => {
                        config.client_secret = client_secret;
                    },
                    None => {},
                }
                match scopes {
                    Some(scopes) => {
                        config.scopes = scopes;
                    },
                    None => {},
                }
                match redirect_url {
                    Some(redirect_url) => {
                        config.redirect_url = redirect_url;
                    },
                    None => {},
                }
                Ok(config)
            },
            None => match (client_id, client_secret, scopes, redirect_url) {
                (None, _, _, _) => Err(LoginOption::ClientId),
                (Some(_), None, _, _) => Err(LoginOption::ClientSecret),
                (Some(_), Some(_), None, _) => Err(LoginOption::Scopes),
                (Some(_), Some(_), Some(_), None) => Err(LoginOption::RedirectUrl),
                (Some(client_id), Some(client_secret), Some(scopes), Some(redirect_url)) => Ok(
                    ConfigFile {
                        version: CURRENT_VERSION,
                        name: String::from_str(name),
                        client_id,
                        client_secret,
                        scopes,
                        redirect_url,
                        refresh_token: None,
                        id_token: None,
                        access_token: None,
                    },
                ),
            },
        }
    }
}

} // verus!
