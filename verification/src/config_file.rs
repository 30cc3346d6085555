//! The persisted profile record and the tokens it caches.

use vstd::prelude::*;
use vstd::string::*;
use crate::errors::{result_view, LibError, LibErrorView};

verus! {

/// A token together with its absolute expiry in Unix seconds.
///
/// An expiry of `0` stands for "already expired": it is what a token gets
/// when the provider named no lifetime.
#[derive(Debug)]
pub struct Token {
    pub secret: String,
    pub exp: u64,
}

/// Mathematical model of a [`Token`].
pub struct TokenView {
    pub secret: Seq<char>,
    pub exp: u64,
}

impl View for Token {
    type V = TokenView;

    open spec fn view(&self) -> TokenView {
        TokenView { secret: self.secret@, exp: self.exp }
    }
}

impl DeepView for Token {
    type V = TokenView;

    open spec fn deep_view(&self) -> TokenView {
        self@
    }
}

impl Token {
    pub fn new(secret: String, exp: u64) -> (token: Token)
        ensures
            token@ == (TokenView { secret: secret@, exp }),
    {
        Token { secret, exp }
    }
}

impl Clone for Token {
    fn clone(&self) -> (token: Token)
        ensures
            token@ == self@,
    {
        Token { secret: self.secret.clone(), exp: self.exp }
    }
}

/// The schema version written into every new record.
pub const CURRENT_VERSION: u32 = 1;

/// One named profile: the client's identity, what it asks for, and the
/// tokens cached for it.
#[derive(Debug)]
pub struct ConfigFile {
    pub version: u32,
    pub name: String,
    pub client_id: String,
    pub client_secret: String,
    pub scopes: Vec<String>,
    pub redirect_url: String,
    pub refresh_token: Option<String>,
    pub id_token: Option<Token>,
    pub access_token: Option<Token>,
}

/// Mathematical model of a [`ConfigFile`].
pub struct ConfigFileView {
    pub version: u32,
    pub name: Seq<char>,
    pub client_id: Seq<char>,
    pub client_secret: Seq<char>,
    pub scopes: Seq<Seq<char>>,
    pub redirect_url: Seq<char>,
    pub refresh_token: Option<Seq<char>>,
    pub id_token: Option<TokenView>,
    pub access_token: Option<TokenView>,
}

impl View for ConfigFile {
    type V = ConfigFileView;

    open spec fn view(&self) -> ConfigFileView {
        ConfigFileView {
            version: self.version,
            name: self.name@,
            client_id: self.client_id@,
            client_secret: self.client_secret@,
            scopes: self.scopes.deep_view(),
            redirect_url: self.redirect_url@,
            refresh_token: self.refresh_token.deep_view(),
            id_token: self.id_token.deep_view(),
            access_token: self.access_token.deep_view(),
        }
    }
}

impl DeepView for ConfigFile {
    type V = ConfigFileView;

    open spec fn deep_view(&self) -> ConfigFileView {
        self@
    }
}

/// The record of a profile that has never logged in.
pub open spec fn fresh_record(
    name: Seq<char>,
    client_id: Seq<char>,
    client_secret: Seq<char>,
    scopes: Seq<Seq<char>>,
    redirect_url: Seq<char>,
) -> ConfigFileView {
    ConfigFileView {
        version: 1,
        name,
        client_id,
        client_secret,
        scopes,
        redirect_url,
        refresh_token: None,
        id_token: None,
        access_token: None,
    }
}

/// Copies a list of strings, keeping their order.
pub fn copy_strings(items: &[String]) -> (copy: Vec<String>)
    ensures
        copy.deep_view() == items.deep_view(),
{
    let mut copy: Vec<String> = Vec::new();
    let mut i: usize = 0;
    while i < items.len()
        invariant
            i <= items.len(),
            copy.len() == i,
            forall|j: int| 0 <= j < i ==> copy[j]@ == items[j]@,
        decreases items.len() - i,
    {
        copy.push(items[i].clone());
        i += 1;
    }
    assert(copy.deep_view() =~= items.deep_view());
    copy
}

impl ConfigFile {
    pub fn new(
        name: &str,
        client_id: &str,
        client_secret: &str,
        scopes: &[String],
        redirect_url: &str,
    ) -> (config: ConfigFile)
        ensures
            config@ == fresh_record(
                name@,
                client_id@,
                client_secret@,
                scopes.deep_view(),
                redirect_url@,
            ),
    {
        ConfigFile {
            version: CURRENT_VERSION,
            name: name.to_owned(),
            client_id: client_id.to_owned(),
            client_secret: client_secret.to_owned(),
            scopes: copy_strings(scopes),
            redirect_url: redirect_url.to_owned(),
            refresh_token: None,
            id_token: None,
            access_token: None,
        }
    }
}

/// `base` and `name` as one path: `name` itself where it starts at the
/// root, else `name` under `base`, with one `/` between the two unless
/// `base` is empty or ends in one.
pub open spec fn join_path(base: Seq<char>, name: Seq<char>) -> Seq<char> {
    if name.len() > 0 && name[0] == '/' {
        name
    } else if base.len() == 0 || base.last() == '/' {
        base + name
    } else {
        base + seq!['/'] + name
    }
}

/// Joins `base` and `name` to one path. Touches no file.
pub fn join(base: &str, name: &str) -> (path: String)
    ensures
        path@ == join_path(base@, name@),
{
    let name_len: usize = name.unicode_len();
    if name_len > 0 && name.get_char(0) == '/' {
        return String::from_str(name);
    }
    let base_len: usize = base.unicode_len();
    let mut path = String::from_str(base);
    if base_len > 0 && base.get_char(base_len - 1) != '/' {
        proof {
            reveal_strlit("/");
        }
        path.append("/");
        assert(path@ == base@ + seq!['/']);
    }
    path.append(name);
    path
}

/// Name of the directory, in the user's home directory, that holds the
/// profiles unless another is named.
pub const DEFAULT_DIRECTORY: &'static str = ".googauth";

/// The directory under which every profile has its file.
#[derive(Debug)]
pub struct ConfigBasePath {
    path: String,
}

impl View for ConfigBasePath {
    type V = Seq<char>;

    closed spec fn view(&self) -> Seq<char> {
        self.path@
    }
}

/// The outcome of looking for the default directory, given the home
/// directory if there is one.
pub open spec fn default_directory(home: Option<Seq<char>>) -> Result<Seq<char>, LibErrorView> {
    match home {
        Some(home) => Ok(join_path(home, DEFAULT_DIRECTORY@)),
        None => Err(LibErrorView::HomeDirectoryNotFound),
    }
}

/// `dirs::home_dir`: the user's home directory, where the system names
/// one; inside, `None` where its name is no Unicode and so cannot be held
/// as text. It depends on the user and the environment, so nothing is
/// claimed of it.
#[verifier::external_body]
fn home_directory() -> (home: Option<Option<String>>) {
    dirs::home_dir().map(|path| path.into_os_string().into_string().ok())
}

impl ConfigBasePath {
    /// The directory `.googauth` in the user's home directory. A home
    /// directory whose name is no Unicode is not taken for another: it
    /// gives `FilenameError`.
    pub fn default() -> (base: Result<ConfigBasePath, LibError>)
        ensures
            result_view(base) == Err::<Seq<char>, LibErrorView>(LibErrorView::FilenameError)
                || exists|home: Option<Seq<char>>|
                result_view(base) == #[trigger] default_directory(home),
    {
        match home_directory() {
            Some(None) => Err(LibError::FilenameError),
            Some(Some(home)) => {
                let ghost found = Some(home@);
                let base = ConfigBasePath::in_home(Some(home));
                assert(result_view(base) == default_directory(found));
                base
            },
            None => {
                let base = ConfigBasePath::in_home(None);
                assert(result_view(base) == default_directory(None));
                base
            },
        }
    }

    /// The default directory for a user with the home directory `home`.
    pub fn in_home(home: Option<String>) -> (base: Result<ConfigBasePath, LibError>)
        ensures
            result_view(base) == default_directory(home.deep_view()),
    {
        match home {
            Some(home) => Ok(ConfigBasePath { path: join(home.as_str(), DEFAULT_DIRECTORY) }),
            None => Err(LibError::HomeDirectoryNotFound),
        }
    }

    pub fn from(path: String) -> (base: ConfigBasePath)
        ensures
            base@ == path@,
    {
        ConfigBasePath { path }
    }

    /// The directory as text.
    pub fn as_str(&self) -> (path: &str)
        ensures
            path@ == self@,
    {
        self.path.as_str()
    }
}

impl DeepView for ConfigBasePath {
    type V = Seq<char>;

    open spec fn deep_view(&self) -> Seq<char> {
        self@
    }
}

impl ConfigFile {
    /// The file of the profile `name` under `config_base_path`. Touches no
    /// file, and never fails.
    pub fn config_file(name: &str, config_base_path: &ConfigBasePath) -> (path: Result<
        String,
        LibError,
    >)
        ensures
            result_view(path) == Ok::<Seq<char>, LibErrorView>(
                join_path(config_base_path@, name@),
            ),
    {
        Ok(join(config_base_path.as_str(), name))
    }

    /// The default directory of the profiles, if the user has a home
    /// directory whose name is Unicode.
    pub fn googauth_dir() -> (path: Option<String>)
        ensures
            path matches Some(directory) ==> exists|home: Seq<char>|
                directory@ == #[trigger] join_path(home, DEFAULT_DIRECTORY@),
    {
        match ConfigBasePath::default() {
            Ok(base) => Some(base.path),
            Err(_) => None,
        }
    }

    /// The file of the profile `name` in the default directory, if the
    /// user has a home directory whose name is Unicode.
    pub fn googauth_file(name: &str) -> (path: Option<String>)
        ensures
            path matches Some(file) ==> exists|home: Seq<char>|
                file@ == join_path(#[trigger] join_path(home, DEFAULT_DIRECTORY@), name@),
    {
        match ConfigFile::googauth_dir() {
            Some(directory) => Some(join(directory.as_str(), name)),
            None => None,
        }
    }
}

/// What came of reading the file of a profile.
#[derive(Debug)]
pub enum ReadOutcome {
    /// The base directory does not exist.
    NoDirectory,
    /// The file is missing or could not be read.
    Unreadable(std::io::Error),
    /// The file does not hold a record.
    Malformed(serde_json::Error),
    Record(ConfigFile),
}

/// Mathematical model of a [`ReadOutcome`].
pub enum ReadOutcomeView {
    NoDirectory,
    Unreadable(std::io::Error),
    Malformed(serde_json::Error),
    Record(ConfigFileView),
}

impl View for ReadOutcome {
    type V = ReadOutcomeView;

    open spec fn view(&self) -> ReadOutcomeView {
        match *self {
            ReadOutcome::NoDirectory => ReadOutcomeView::NoDirectory,
            ReadOutcome::Unreadable(error) => ReadOutcomeView::Unreadable(error),
            ReadOutcome::Malformed(error) => ReadOutcomeView::Malformed(error),
            ReadOutcome::Record(config) => ReadOutcomeView::Record(config@),
        }
    }
}

/// The record of the profile `name`, or why there is none.
pub open spec fn loaded(name: Seq<char>, outcome: ReadOutcomeView) -> Result<
    ConfigFileView,
    LibErrorView,
> {
    match outcome {
        ReadOutcomeView::NoDirectory => Err(LibErrorView::NoSuchConfiguration(name)),
        ReadOutcomeView::Unreadable(error) => Err(LibErrorView::IoError(error)),
        ReadOutcomeView::Malformed(error) => Err(LibErrorView::JsonError(error)),
        ReadOutcomeView::Record(config) => Ok(config),
    }
}

/// One entry of the base directory, as the store found it.
#[derive(Debug)]
pub struct StoreEntry {
    /// Whether the entry is a regular file.
    pub is_file: bool,
    /// The entry's name, if it is Unicode.
    pub file_name: Option<String>,
    /// The record that the file holds, if it holds one.
    pub config: Option<ConfigFile>,
}

/// Mathematical model of a [`StoreEntry`].
pub struct StoreEntryView {
    pub is_file: bool,
    pub file_name: Option<Seq<char>>,
    pub config: Option<ConfigFileView>,
}

impl View for StoreEntry {
    type V = StoreEntryView;

    open spec fn view(&self) -> StoreEntryView {
        StoreEntryView {
            is_file: self.is_file,
            file_name: self.file_name.deep_view(),
            config: self.config.deep_view(),
        }
    }
}

impl DeepView for StoreEntry {
    type V = StoreEntryView;

    open spec fn deep_view(&self) -> StoreEntryView {
        self@
    }
}

/// Model of the entries of a directory, each read or failed.
pub open spec fn entries_view(entries: Seq<Result<StoreEntry, std::io::Error>>) -> Seq<
    Result<StoreEntryView, std::io::Error>,
> {
    Seq::new(
        entries.len(),
        |i: int|
            match entries[i] {
                Ok(entry) => Ok(entry@),
                Err(error) => Err(error),
            },
    )
}

/// The record that an entry gives to a listing: that of a regular file
/// whose name is Unicode and which holds one. Anything else gives none:
/// a directory, a file of another kind, a file whose name is no Unicode,
/// a file whose content is no record, an entry that could not be read.
pub open spec fn record_in(entry: Result<StoreEntryView, std::io::Error>) -> Option<
    ConfigFileView,
> {
    match entry {
        Ok(entry) => if entry.is_file && entry.file_name is Some {
            entry.config
        } else {
            None
        },
        Err(_) => None,
    }
}

/// The records among the first `n` entries, in their order. Only an entry
/// that could not be read ends the listing with an error; an entry that
/// gives no record is passed over, whatever follows it.
pub open spec fn listed_among(
    entries: Seq<Result<StoreEntryView, std::io::Error>>,
    n: nat,
) -> Result<Seq<ConfigFileView>, LibErrorView>
    decreases n,
{
    if n == 0 || n > entries.len() {
        Ok(Seq::empty())
    } else {
        match listed_among(entries, (n - 1) as nat) {
            Err(error) => Err(error),
            Ok(found) => match entries[n - 1] {
                Err(error) => Err(LibErrorView::IoError(error)),
                Ok(_) => match record_in(entries[n - 1]) {
                    Some(config) => Ok(found.push(config)),
                    None => Ok(found),
                },
            },
        }
    }
}

/// The listing of a base directory.
pub open spec fn listed(
    base: Seq<char>,
    is_dir: bool,
    entries: Seq<Result<StoreEntryView, std::io::Error>>,
) -> Result<Seq<ConfigFileView>, LibErrorView> {
    if is_dir {
        listed_among(entries, entries.len())
    } else {
        Err(LibErrorView::ConfigsDirectoryNotADirectory(base))
    }
}

/// Once the listing of the first `n` entries has failed, so has that of
/// any more.
pub proof fn lemma_listing_stays_failed(
    entries: Seq<Result<StoreEntryView, std::io::Error>>,
    n: nat,
    m: nat,
)
    requires
        n <= m <= entries.len(),
        listed_among(entries, n) is Err,
    ensures
        listed_among(entries, m) == listed_among(entries, n),
    decreases m,
{
    if n < m {
        lemma_listing_stays_failed(entries, n, (m - 1) as nat);
    }
}

/// One step of the set of files and calls that saves a record.
#[derive(Debug)]
pub enum SaveStep {
    /// Create this directory and those above it, where they are missing.
    CreateDirectories(String),
    /// Set the permission bits of this path.
    SetPermissions { path: String, mode: u32 },
    /// Create this file, or empty it.
    CreateFile(String),
    /// Write the record into this file.
    WriteRecord(String),
}

/// Mathematical model of a [`SaveStep`].
pub enum SaveStepView {
    CreateDirectories(Seq<char>),
    SetPermissions { path: Seq<char>, mode: u32 },
    CreateFile(Seq<char>),
    WriteRecord(Seq<char>),
}

impl View for SaveStep {
    type V = SaveStepView;

    open spec fn view(&self) -> SaveStepView {
        match *self {
            SaveStep::CreateDirectories(path) => SaveStepView::CreateDirectories(path@),
            SaveStep::SetPermissions { path, mode } => SaveStepView::SetPermissions {
                path: path@,
                mode,
            },
            SaveStep::CreateFile(path) => SaveStepView::CreateFile(path@),
            SaveStep::WriteRecord(path) => SaveStepView::WriteRecord(path@),
        }
    }
}

impl DeepView for SaveStep {
    type V = SaveStepView;

    open spec fn deep_view(&self) -> SaveStepView {
        self@
    }
}

/// Permission bits of the base directory: all for the owner, none for
/// anyone else.
pub const DIRECTORY_MODE: u32 = 0o700;

/// Permission bits of a profile's file: read and write for the owner, none
/// for anyone else.
pub const FILE_MODE: u32 = 0o600;

/// What saving the profile `name` under `base` consists of, in order. With
/// permission bits (`unix`), the directory is closed to others before the
/// file is created, and the file before anything is written into it.
pub open spec fn save_plan(name: Seq<char>, base: Seq<char>, unix: bool) -> Seq<SaveStepView> {
    let file = join_path(base, name);
    if unix {
        seq![
            SaveStepView::CreateDirectories(base),
            SaveStepView::SetPermissions { path: base, mode: DIRECTORY_MODE },
            SaveStepView::CreateFile(file),
            SaveStepView::SetPermissions { path: file, mode: FILE_MODE },
            SaveStepView::WriteRecord(file),
        ]
    } else {
        seq![
            SaveStepView::CreateDirectories(base),
            SaveStepView::CreateFile(file),
            SaveStepView::WriteRecord(file),
        ]
    }
}

impl ConfigFile {
    /// The records of a base directory, given what the store found there.
    pub fn list_configs(
        config_base_path: &ConfigBasePath,
        is_dir: bool,
        entries: Vec<Result<StoreEntry, std::io::Error>>,
    ) -> (configs: Result<Vec<ConfigFile>, LibError>)
        ensures
            result_view(configs) == listed(config_base_path@, is_dir, entries_view(entries@)),
    {
        if !is_dir {
            return Err(
                LibError::ConfigsDirectoryNotADirectory(
                    String::from_str(config_base_path.as_str()),
                ),
            );
        }
        let ghost all = entries_view(entries@);
        let mut found: Vec<ConfigFile> = Vec::new();
        assert(found.deep_view() =~= Seq::<ConfigFileView>::empty());
        for entry in it: entries
            invariant
                is_dir,
                all == entries_view(entries@),
                it.seq() == entries@,
                listed_among(all, it.index() as nat) == Ok::<Seq<ConfigFileView>, LibErrorView>(
                    found.deep_view(),
                ),
        {
            let ghost before = found.deep_view();
            let ghost n = (it.index() + 1) as nat;
            assert(entry == entries@[it.index() as int]);
            assert(n <= all.len());
            match entry {
                Err(error) => {
                    proof {
                        lemma_listing_stays_failed(all, n, all.len());
                    }
                    return Err(LibError::IoError(error));
                },
                Ok(entry) => {
                    if entry.is_file && entry.file_name.is_some() {
                        match entry.config {
                            Some(config) => {
                                found.push(config);
                                assert(found.deep_view() =~= before.push(config@));
                            },
                            None => {},
                        }
                    }
                },
            }
        }
        Ok(found)
    }

    /// The record of the profile `name`, given what came of reading its
    /// file.
    pub fn read_config(name: &str, outcome: ReadOutcome) -> (config: Result<ConfigFile, LibError>)
        ensures
            result_view(config) == loaded(name@, outcome@),
    {
        match outcome {
            ReadOutcome::NoDirectory => Err(LibError::NoSuchConfiguration(String::from_str(name))),
            ReadOutcome::Unreadable(error) => Err(LibError::IoError(error)),
            ReadOutcome::Malformed(error) => Err(LibError::JsonError(error)),
            ReadOutcome::Record(config) => Ok(config),
        }
    }

    /// What the store has to do, in order, to save this record under
    /// `config_base_path`. `unix` says whether files have permission bits.
    /// [`save_next`] says which step is next and how the save ends.
    pub fn save_config(&self, config_base_path: &ConfigBasePath, unix: bool) -> (steps: Vec<
        SaveStep,
    >)
        ensures
            steps.deep_view() == save_plan(self.name@, config_base_path@, unix),
    {
        let base = config_base_path.as_str();
        let file = join(base, self.name.as_str());
        let mut steps: Vec<SaveStep> = Vec::new();
        steps.push(SaveStep::CreateDirectories(String::from_str(base)));
        if unix {
            steps.push(
                SaveStep::SetPermissions { path: String::from_str(base), mode: DIRECTORY_MODE },
            );
        }
        steps.push(SaveStep::CreateFile(file.clone()));
        if unix {
            steps.push(SaveStep::SetPermissions { path: file.clone(), mode: FILE_MODE });
        }
        steps.push(SaveStep::WriteRecord(file));
        assert(steps.deep_view() =~= save_plan(self.name@, config_base_path@, unix));
        steps
    }
}

/// With permission bits, a saved profile is open to its owner alone: the
/// directory is closed to others before the file is created, the file
/// before the record is written, and neither mode grants group or others
/// anything.
pub proof fn lemma_saved_secrets_are_private(name: Seq<char>, base: Seq<char>)
    ensures
        ({
            let plan = save_plan(name, base, true);
            let file = join_path(base, name);
            &&& plan.len() == 5
            &&& plan[1] == (SaveStepView::SetPermissions { path: base, mode: DIRECTORY_MODE })
            &&& plan[2] == SaveStepView::CreateFile(file)
            &&& plan[3] == (SaveStepView::SetPermissions { path: file, mode: FILE_MODE })
            &&& plan[4] == SaveStepView::WriteRecord(file)
        }),
        DIRECTORY_MODE & 0o077 == 0,
        FILE_MODE & 0o077 == 0,
        FILE_MODE & 0o700 == 0o600,
{
    assert(0o700u32 & 0o077 == 0) by (bit_vector);
    assert(0o600u32 & 0o077 == 0) by (bit_vector);
    assert(0o600u32 & 0o700 == 0o600) by (bit_vector);
}

/// An entry that was read and gives no record (a file whose content is no
/// record, a file whose name is no Unicode, a directory) does not end a
/// listing, nor does it show in it: the listing is that of the other
/// entries.
pub proof fn lemma_listing_skips_foreign_entry(
    entries: Seq<Result<StoreEntryView, std::io::Error>>,
    foreign: StoreEntryView,
)
    requires
        record_in(Ok(foreign)) is None,
    ensures
        listed_among(entries.push(Ok(foreign)), entries.len() + 1) == listed_among(
            entries,
            entries.len(),
        ),
{
    lemma_listing_of_prefix(entries, entries.push(Ok(foreign)), entries.len());
}

/// Whether each of the first `n` entries was read.
pub open spec fn all_read(entries: Seq<Result<StoreEntryView, std::io::Error>>, n: nat) -> bool {
    forall|i: int| 0 <= i < n ==> (#[trigger] entries[i]) is Ok
}

/// Where every entry was read, the listing succeeds, however many files
/// are corrupt or foreign, and it is exactly the records of the regular
/// files with Unicode names that hold one: each once, in the order of
/// their entries, and nothing else.
pub proof fn lemma_listing_is_the_records(
    entries: Seq<Result<StoreEntryView, std::io::Error>>,
    n: nat,
)
    requires
        n <= entries.len(),
        all_read(entries, n),
    ensures
        listed_among(entries, n) == Ok::<Seq<ConfigFileView>, LibErrorView>(
            entries.take(n as int).filter_map(
                |entry: Result<StoreEntryView, std::io::Error>| record_in(entry),
            ),
        ),
    decreases n,
{
    let record = |entry: Result<StoreEntryView, std::io::Error>| record_in(entry);
    if n == 0 {
        assert(entries.take(0).filter_map(record) =~= Seq::<ConfigFileView>::empty());
    } else {
        lemma_listing_is_the_records(entries, (n - 1) as nat);
        entries.lemma_filter_map_take_succ(record, n - 1);
        let found = entries.take(n - 1).filter_map(record);
        match record_in(entries[n - 1]) {
            Some(config) => {
                assert(found.push(config) =~= found + seq![config]);
            },
            None => {
                assert(found + Seq::<ConfigFileView>::empty() =~= found);
            },
        }
    }
}

/// A listing fails for one reason only: an entry of the directory could
/// not be read. Its error is then that of the first such entry.
pub proof fn lemma_listing_fails_on_unread_entry_only(
    entries: Seq<Result<StoreEntryView, std::io::Error>>,
    n: nat,
)
    requires
        n <= entries.len(),
    ensures
        listed_among(entries, n) is Ok <==> all_read(entries, n),
        listed_among(entries, n) matches Err(error) ==> exists|i: int|
            {
                &&& 0 <= i < n
                &&& #[trigger] entries[i] matches Err(unread)
                &&& error == LibErrorView::IoError(unread)
                &&& all_read(entries, i as nat)
            },
    decreases n,
{
    if n > 0 {
        lemma_listing_fails_on_unread_entry_only(entries, (n - 1) as nat);
        if listed_among(entries, (n - 1) as nat) is Ok {
            if entries[n - 1] is Err {
                assert(all_read(entries, (n - 1) as nat));
            }
        }
    }
}

/// The listing of the first `n` entries depends on those entries alone.
pub proof fn lemma_listing_of_prefix(
    entries: Seq<Result<StoreEntryView, std::io::Error>>,
    more: Seq<Result<StoreEntryView, std::io::Error>>,
    n: nat,
)
    requires
        n <= entries.len() <= more.len(),
        forall|i: int| 0 <= i < n ==> entries[i] == more[i],
    ensures
        listed_among(entries, n) == listed_among(more, n),
    decreases n,
{
    if n > 0 {
        lemma_listing_of_prefix(entries, more, (n - 1) as nat);
    }
}

/// What the store is to do next while it saves.
#[derive(Debug)]
pub enum SaveNext {
    /// Carry out the step at this position of the plan.
    Perform(usize),
    /// The save is over, with this result.
    Finished(Result<(), LibError>),
}

/// Mathematical model of a [`SaveNext`].
pub enum SaveNextView {
    Perform(usize),
    Finished(Result<(), LibErrorView>),
}

impl View for SaveNext {
    type V = SaveNextView;

    open spec fn view(&self) -> SaveNextView {
        match *self {
            SaveNext::Perform(step) => SaveNextView::Perform(step),
            SaveNext::Finished(Ok(())) => SaveNextView::Finished(Ok(())),
            SaveNext::Finished(Err(error)) => SaveNextView::Finished(Err(error@)),
        }
    }
}

/// How a save goes on once `done` steps of a plan of `steps` are carried
/// out and the last one tried has `failed` or not. A step that fails ends
/// the save with the system's error, and no step follows it; the save
/// succeeds only when every step is carried out.
pub open spec fn save_goes_on(steps: nat, done: usize, failed: Option<std::io::Error>)
    -> SaveNextView {
    match failed {
        Some(error) => SaveNextView::Finished(Err(LibErrorView::IoError(error))),
        None => if done < steps {
            SaveNextView::Perform(done)
        } else {
            SaveNextView::Finished(Ok(()))
        },
    }
}

/// Says how a save goes on: which step of the plan is next, or how the
/// save has ended. `done` counts the steps carried out; `failed` is the
/// error of the step that was tried last, if it failed. Writing the
/// record is a step like the others: a write that fails is an `IoError`.
pub fn save_next(steps: &Vec<SaveStep>, done: usize, failed: Option<std::io::Error>) -> (next:
    SaveNext)
    ensures
        next@ == save_goes_on(steps@.len(), done, failed),
{
    match failed {
        Some(error) => SaveNext::Finished(Err(LibError::IoError(error))),
        None => if done < steps.len() {
            SaveNext::Perform(done)
        } else {
            SaveNext::Finished(Ok(()))
        },
    }
}

/// Setting permissions is not best effort, nor is any other step: once a
/// step has failed nothing more is done, and the save fails with that
/// error. In particular no byte of the record is written into a file
/// whose permissions could not be set.
pub proof fn lemma_failed_step_ends_save(steps: nat, done: usize, error: std::io::Error)
    ensures
        save_goes_on(steps, done, Some(error)) == SaveNextView::Finished(
            Err(LibErrorView::IoError(error)),
        ),
        !(save_goes_on(steps, done, Some(error)) is Perform),
{
}

/// A save succeeds only when nothing has failed and every step of the
/// plan is carried out; and a step is asked for only when all before it
/// are carried out and none has failed.
pub proof fn lemma_save_succeeds_after_last_step(
    steps: nat,
    done: usize,
    failed: Option<std::io::Error>,
)
    ensures
        save_goes_on(steps, done, failed) == SaveNextView::Finished(Ok(())) <==> failed is None
            && done >= steps,
        save_goes_on(steps, done, failed) matches SaveNextView::Perform(step) ==> failed is None
            && step == done && step < steps,
{
}

/// With permission bits, the record is written only after the four steps
/// before it, the closing of the file to others among them, are carried
/// out without a failure.
pub proof fn lemma_record_is_written_last(
    name: Seq<char>,
    base: Seq<char>,
    done: usize,
    failed: Option<std::io::Error>,
)
    requires
        save_goes_on(save_plan(name, base, true).len(), done, failed) matches SaveNextView::Perform(
            step,
        ) && save_plan(name, base, true)[step as int] is WriteRecord,
    ensures
        failed is None,
        done == 4,
        save_plan(name, base, true)[3] == (SaveStepView::SetPermissions {
            path: join_path(base, name),
            mode: FILE_MODE,
        }),
{
}

} // verus!
