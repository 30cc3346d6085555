//! The errors of the credential lifecycle, one variant per cause.

use vstd::prelude::*;
use vstd::string::*;

verus! {

/// `std::io::Error`, carried as it is.
#[verifier::external_type_specification]
#[verifier::external_body]
pub struct ExIoError(std::io::Error);

/// `serde_json::Error`, carried as it is.
#[verifier::external_type_specification]
#[verifier::external_body]
pub struct ExJsonError(serde_json::Error);

/// `url::ParseError`, carried as it is.
#[verifier::external_type_specification]
#[verifier::external_body]
pub struct ExUrlParseError(url::ParseError);

/// Everything that can go wrong while a profile is read, refreshed or
/// logged in. Each kind of failure has a variant of its own, so that a
/// caller can tell them apart without reading text. A failure of the
/// system (file, socket, browser) is an `IoError` with the system's error,
/// whatever was being done.
#[derive(Debug)]
pub enum LibError {
    NoSuchConfiguration(String),
    HomeDirectoryNotFound,
    ConfigsDirectoryNotADirectory(String),
    IoError(std::io::Error),
    /// The name of the home directory is no Unicode.
    FilenameError,
    JsonError(serde_json::Error),
    UrlError(url::ParseError),
    TokenCsrfError,
    NoIdToken,
    NoRefreshToken,
    /// The provider refused the refresh token or could not be reached.
    CouldNotRefreshToken,
    /// Signature, nonce or claims of an ID token did not hold.
    CouldNotReadClaims,
    NoScopes,
    /// The listener ended without a request.
    NoResponse,
    NoRefreshTokenForConfig(String),
    CouldNotReadConfigCorrupt(String),
    /// The provider's discovery document could not be had.
    OpenIdError(String),
    MalformedCallback,
    /// The provider refused the authorization code or could not be
    /// reached.
    CouldNotExchangeCode,
    /// A flow was told of something that it did not await.
    UnexpectedEvent,
}

/// Mathematical model of a [`LibError`]: text as sequences of characters,
/// errors of other libraries as they are.
pub enum LibErrorView {
    NoSuchConfiguration(Seq<char>),
    HomeDirectoryNotFound,
    ConfigsDirectoryNotADirectory(Seq<char>),
    IoError(std::io::Error),
    FilenameError,
    JsonError(serde_json::Error),
    UrlError(url::ParseError),
    TokenCsrfError,
    NoIdToken,
    NoRefreshToken,
    CouldNotRefreshToken,
    CouldNotReadClaims,
    NoScopes,
    NoResponse,
    NoRefreshTokenForConfig(Seq<char>),
    CouldNotReadConfigCorrupt(Seq<char>),
    OpenIdError(Seq<char>),
    MalformedCallback,
    CouldNotExchangeCode,
    UnexpectedEvent,
}

impl View for LibError {
    type V = LibErrorView;

    open spec fn view(&self) -> LibErrorView {
        match *self {
            LibError::NoSuchConfiguration(name) => LibErrorView::NoSuchConfiguration(name@),
            LibError::HomeDirectoryNotFound => LibErrorView::HomeDirectoryNotFound,
            LibError::ConfigsDirectoryNotADirectory(path) =>
                LibErrorView::ConfigsDirectoryNotADirectory(path@),
            LibError::IoError(e) => LibErrorView::IoError(e),
            LibError::FilenameError => LibErrorView::FilenameError,
            LibError::JsonError(e) => LibErrorView::JsonError(e),
            LibError::UrlError(e) => LibErrorView::UrlError(e),
            LibError::TokenCsrfError => LibErrorView::TokenCsrfError,
            LibError::NoIdToken => LibErrorView::NoIdToken,
            LibError::NoRefreshToken => LibErrorView::NoRefreshToken,
            LibError::CouldNotRefreshToken => LibErrorView::CouldNotRefreshToken,
            LibError::CouldNotReadClaims => LibErrorView::CouldNotReadClaims,
            LibError::NoScopes => LibErrorView::NoScopes,
            LibError::NoResponse => LibErrorView::NoResponse,
            LibError::NoRefreshTokenForConfig(name) => LibErrorView::NoRefreshTokenForConfig(
                name@,
            ),
            LibError::CouldNotReadConfigCorrupt(name) => LibErrorView::CouldNotReadConfigCorrupt(
                name@,
            ),
            LibError::OpenIdError(message) => LibErrorView::OpenIdError(message@),
            LibError::MalformedCallback => LibErrorView::MalformedCallback,
            LibError::CouldNotExchangeCode => LibErrorView::CouldNotExchangeCode,
            LibError::UnexpectedEvent => LibErrorView::UnexpectedEvent,
        }
    }
}

impl DeepView for LibError {
    type V = LibErrorView;

    open spec fn deep_view(&self) -> LibErrorView {
        self@
    }
}

impl From<std::io::Error> for LibError {
    fn from(e: std::io::Error) -> (error: LibError) {
        LibError::IoError(e)
    }
}

impl vstd::std_specs::convert::FromSpecImpl<std::io::Error> for LibError {
    open spec fn obeys_from_spec() -> bool {
        true
    }

    open spec fn from_spec(e: std::io::Error) -> LibError {
        LibError::IoError(e)
    }
}

impl From<serde_json::Error> for LibError {
    fn from(e: serde_json::Error) -> (error: LibError) {
        LibError::JsonError(e)
    }
}

impl vstd::std_specs::convert::FromSpecImpl<serde_json::Error> for LibError {
    open spec fn obeys_from_spec() -> bool {
        true
    }

    open spec fn from_spec(e: serde_json::Error) -> LibError {
        LibError::JsonError(e)
    }
}

impl From<url::ParseError> for LibError {
    fn from(e: url::ParseError) -> (error: LibError) {
        LibError::UrlError(e)
    }
}

impl vstd::std_specs::convert::FromSpecImpl<url::ParseError> for LibError {
    open spec fn obeys_from_spec() -> bool {
        true
    }

    open spec fn from_spec(e: url::ParseError) -> LibError {
        LibError::UrlError(e)
    }
}

/// Whether the error ends in text of the system, which this library does
/// not fix: an I/O error, or a JSON error, which may hold one.
pub open spec fn has_foreign_detail(e: LibErrorView) -> bool {
    e is IoError || e is JsonError
}

/// The name of a `url::ParseError`, as its `Debug` writes it: the name of
/// the variant.
pub uninterp spec fn url_error_name(error: url::ParseError) -> Seq<char>;

/// The text that describes an error. Where the error ends in text of the
/// system, this is the text in front of it.
pub open spec fn message_text(e: LibErrorView) -> Seq<char> {
    match e {
        LibErrorView::NoSuchConfiguration(name) => "No such configuration: "@ + name,
        LibErrorView::HomeDirectoryNotFound => "Can not find home directory"@,
        LibErrorView::ConfigsDirectoryNotADirectory(path) => "Configs directory "@ + path
            + " is not a directory"@,
        LibErrorView::IoError(_) => "Error: "@,
        LibErrorView::FilenameError => "Filename error"@,
        LibErrorView::JsonError(_) => "JSON error "@,
        LibErrorView::UrlError(error) => "URL parse error "@ + url_error_name(error),
        LibErrorView::TokenCsrfError =>
            "The state sent to the server, and the state received from the server do not match - this may be a sign of a CSRF attack"@,
        LibErrorView::NoIdToken => "No ID token present"@,
        LibErrorView::NoRefreshToken => "No refresh token present"@,
        LibErrorView::CouldNotRefreshToken => "Could not refresh token"@,
        LibErrorView::CouldNotReadClaims => "Could not read claims"@,
        LibErrorView::NoScopes => "There were no scopes in the response"@,
        LibErrorView::NoResponse => "Could not get a response from the login flow"@,
        LibErrorView::NoRefreshTokenForConfig(name) =>
            "There is no refresh token available for configuration "@ + name,
        LibErrorView::CouldNotReadConfigCorrupt(name) => "Could not read access token from "@
            + name + ". Is the configuration corrupt?"@,
        LibErrorView::OpenIdError(message) => "OpenID error: "@ + message,
        LibErrorView::MalformedCallback => "The callback request could not be read"@,
        LibErrorView::CouldNotExchangeCode => "Could not exchange the authorization code"@,
        LibErrorView::UnexpectedEvent => "The flow was told of something it did not await"@,
    }
}

/// `std::io::Error` as text, by its `Display`. Nothing is claimed of the
/// text: it is the operating system's.
#[verifier::external_body]
fn io_error_text(e: &std::io::Error) -> (text: String) {
    format!("{}", e)
}

/// `serde_json::Error` as text, by its `Debug`. Nothing is claimed of the
/// text: for an error of reading or writing it holds the system's.
#[verifier::external_body]
fn json_error_text(e: &serde_json::Error) -> (text: String) {
    format!("{:?}", e)
}

/// `url::ParseError` as text, by its derived `Debug`. Claimed: the text
/// depends on the error alone (it is `url_error_name(e)`).
#[verifier::external_body]
fn url_error_text(e: &url::ParseError) -> (text: String)
    ensures
        text@ == url_error_name(*e),
{
    format!("{:?}", e)
}

/// `head` followed by `tail`.
fn joined(head: &str, tail: &str) -> (text: String)
    ensures
        text@ == head@ + tail@,
{
    let mut text = String::from_str(head);
    text.append(tail);
    text
}

impl LibError {
    /// The text that reports this error to a person.
    pub fn message(&self) -> (text: String)
        ensures
            !has_foreign_detail(self@) ==> text@ == message_text(self@),
            has_foreign_detail(self@) ==> message_text(self@).is_prefix_of(text@),
    {
        match self {
            LibError::NoSuchConfiguration(name) => joined("No such configuration: ", name.as_str()),
            LibError::HomeDirectoryNotFound => String::from_str("Can not find home directory"),
            LibError::ConfigsDirectoryNotADirectory(path) => {
                let mut text = joined("Configs directory ", path.as_str());
                text.append(" is not a directory");
                text
            },
            LibError::IoError(e) => joined("Error: ", io_error_text(e).as_str()),
            LibError::FilenameError => String::from_str("Filename error"),
            LibError::JsonError(e) => joined("JSON error ", json_error_text(e).as_str()),
            LibError::UrlError(e) => joined("URL parse error ", url_error_text(e).as_str()),
            LibError::TokenCsrfError => String::from_str(
                "The state sent to the server, and the state received from the server do not match - this may be a sign of a CSRF attack",
            ),
            LibError::NoIdToken => String::from_str("No ID token present"),
            LibError::NoRefreshToken => String::from_str("No refresh token present"),
            LibError::CouldNotRefreshToken => String::from_str("Could not refresh token"),
            LibError::CouldNotReadClaims => String::from_str("Could not read claims"),
            LibError::NoScopes => String::from_str("There were no scopes in the response"),
            LibError::NoResponse => String::from_str(
                "Could not get a response from the login flow",
            ),
            LibError::NoRefreshTokenForConfig(name) => joined(
                "There is no refresh token available for configuration ",
                name.as_str(),
            ),
            LibError::CouldNotReadConfigCorrupt(name) => {
                let mut text = joined("Could not read access token from ", name.as_str());
                text.append(". Is the configuration corrupt?");
                text
            },
            LibError::OpenIdError(message) => joined("OpenID error: ", message.as_str()),
            LibError::MalformedCallback => String::from_str(
                "The callback request could not be read",
            ),
            LibError::CouldNotExchangeCode => String::from_str(
                "Could not exchange the authorization code",
            ),
            LibError::UnexpectedEvent => String::from_str(
                "The flow was told of something it did not await",
            ),
        }
    }
}

/// Model of a `Result` whose two sides have models.
pub open spec fn result_view<T: DeepView, E: DeepView>(r: Result<T, E>) -> Result<T::V, E::V> {
    match r {
        Ok(value) => Ok(value.deep_view()),
        Err(error) => Err(error.deep_view()),
    }
}

/// The report of a failure: what failed, then each cause on a line of its
/// own, the nearest first.
pub open spec fn error_report(message: Seq<char>, causes: Seq<Seq<char>>) -> Seq<char>
    decreases causes.len(),
{
    if causes.len() == 0 {
        "ERROR: "@ + message
    } else {
        error_report(message, causes.drop_last()) + "\n    caused by: "@ + causes.last()
    }
}

/// Writes the report of a failure with its chain of causes.
pub fn handle_error(causes: &Vec<String>, msg: &str) -> (report: String)
    ensures
        report@ == error_report(msg@, causes.deep_view()),
{
    let mut report = joined("ERROR: ", msg);
    let mut done: usize = 0;
    while done < causes.len()
        invariant
            done <= causes.len(),
            report@ == error_report(msg@, causes.deep_view().take(done as int)),
        decreases causes.len() - done,
    {
        let ghost before = causes.deep_view().take(done as int);
        let ghost after = causes.deep_view().take(done + 1);
        assert(after.drop_last() =~= before);
        assert(after.last() == causes[done as int]@);
        report.append("\n    caused by: ");
        report.append(causes[done].as_str());
        done += 1;
    }
    assert(causes.deep_view().take(done as int) =~= causes.deep_view());
    report
}

} // verus!
