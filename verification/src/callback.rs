//! The provider's redirect, as it reaches the loopback listener: one HTTP
//! request line whose target carries `code` and `state` in its query.

use vstd::prelude::*;
use vstd::string::*;
use crate::errors::{result_view, LibError, LibErrorView};

verus! {

/// Address and port on which the single-shot listener waits.
pub const CALLBACK_ADDRESS: &'static str = "127.0.0.1:8080";

/// What the browser is sent once the redirect has arrived.
pub const CALLBACK_RESPONSE: &'static str =
    "HTTP/1.1 200 OK\r\ncontent-length: 27\r\n\r\nGo back to your terminal :)";

/// Base against which the request target is read as a URL.
pub const CALLBACK_BASE: &'static str = "http://localhost";

/// The page that the browser is shown.
pub const CALLBACK_PAGE: &'static str = "Go back to your terminal :)";

/// The response is what it claims to be: a status line, the length of the
/// page in bytes, an empty line, and the page.
pub proof fn lemma_response_frames_page()
    ensures
        CALLBACK_RESPONSE@ == "HTTP/1.1 200 OK\r\ncontent-length: 27\r\n\r\n"@ + CALLBACK_PAGE@,
        CALLBACK_PAGE@.len() == 27,
        forall|i: int| 0 <= i < CALLBACK_PAGE@.len() ==> (CALLBACK_PAGE@[i] as u32) < 128,
{
    reveal_strlit("HTTP/1.1 200 OK\r\ncontent-length: 27\r\n\r\nGo back to your terminal :)");
    reveal_strlit("HTTP/1.1 200 OK\r\ncontent-length: 27\r\n\r\n");
    reveal_strlit("Go back to your terminal :)");
    assert(CALLBACK_RESPONSE@ =~= "HTTP/1.1 200 OK\r\ncontent-length: 27\r\n\r\n"@
        + CALLBACK_PAGE@);
}

/// The characters that separate the parts of a request line: those with
/// the Unicode property `White_Space`.
pub open spec fn is_space(c: char) -> bool {
    let n = c as u32;
    ||| 0x09 <= n <= 0x0d
    ||| n == 0x20
    ||| n == 0x85
    ||| n == 0xa0
    ||| n == 0x1680
    ||| 0x2000 <= n <= 0x200a
    ||| n == 0x2028
    ||| n == 0x2029
    ||| n == 0x202f
    ||| n == 0x205f
    ||| n == 0x3000
}

/// The first position at or after `from` that holds no space, or the
/// length of `s` if only spaces follow.
pub open spec fn skip_spaces(s: Seq<char>, from: int) -> int
    decreases s.len() - from,
{
    if from < 0 || from >= s.len() {
        s.len() as int
    } else if !is_space(s[from]) {
        from
    } else {
        skip_spaces(s, from + 1)
    }
}

/// The first position at or after `from` that holds a space, or the length
/// of `s` if none follows.
pub open spec fn skip_word(s: Seq<char>, from: int) -> int
    decreases s.len() - from,
{
    if from < 0 || from >= s.len() {
        s.len() as int
    } else if is_space(s[from]) {
        from
    } else {
        skip_word(s, from + 1)
    }
}

/// The second of the words that spaces separate in `s`, if there are two.
/// In a request line this is the request target.
pub open spec fn second_word(s: Seq<char>) -> Option<Seq<char>> {
    let first = skip_spaces(s, 0);
    let gap = skip_word(s, first);
    let second = skip_spaces(s, gap);
    let end = skip_word(s, second);
    if second < s.len() {
        Some(s.subrange(second, end))
    } else {
        None
    }
}

/// Whether only spaces stand in `s` from `from` up to `to`.
pub open spec fn all_spaces(s: Seq<char>, from: int, to: int) -> bool {
    forall|k: int| from <= k < to ==> is_space(#[trigger] s[k])
}

/// Whether no space stands in `s` from `from` up to `to`.
pub open spec fn no_spaces(s: Seq<char>, from: int, to: int) -> bool {
    forall|k: int| from <= k < to ==> !is_space(#[trigger] s[k])
}

/// `skip_spaces` passes over spaces only, and stops at the end or at a
/// character that is none.
pub proof fn lemma_skip_spaces(s: Seq<char>, from: int)
    requires
        0 <= from <= s.len(),
    ensures
        from <= skip_spaces(s, from) <= s.len(),
        all_spaces(s, from, skip_spaces(s, from)),
        skip_spaces(s, from) < s.len() ==> !is_space(s[skip_spaces(s, from)]),
    decreases s.len() - from,
{
    if from < s.len() && is_space(s[from]) {
        lemma_skip_spaces(s, from + 1);
    }
}

/// `skip_word` passes over no space, and stops at the end or at a space.
pub proof fn lemma_skip_word(s: Seq<char>, from: int)
    requires
        0 <= from <= s.len(),
    ensures
        from <= skip_word(s, from) <= s.len(),
        no_spaces(s, from, skip_word(s, from)),
        skip_word(s, from) < s.len() ==> is_space(s[skip_word(s, from)]),
    decreases s.len() - from,
{
    if from < s.len() && !is_space(s[from]) {
        lemma_skip_word(s, from + 1);
    }
}

/// What `second_word` finds. Where it finds a word, the line is: spaces,
/// a first word, at least one space, the word found, and then the end or
/// a space. Where it finds none, the line holds one word at most.
pub proof fn lemma_second_word(s: Seq<char>)
    ensures
        ({
            let a = skip_spaces(s, 0);
            let b = skip_word(s, a);
            let c = skip_spaces(s, b);
            let d = skip_word(s, c);
            match second_word(s) {
                Some(word) => {
                    &&& 0 <= a < b < c < d <= s.len()
                    &&& all_spaces(s, 0, a)
                    &&& no_spaces(s, a, b)
                    &&& all_spaces(s, b, c)
                    &&& no_spaces(s, c, d)
                    &&& d < s.len() ==> is_space(s[d])
                    &&& word == s.subrange(c, d)
                },
                None => {
                    &&& 0 <= a <= b <= s.len()
                    &&& all_spaces(s, 0, a)
                    &&& no_spaces(s, a, b)
                    &&& all_spaces(s, b, s.len() as int)
                },
            }
        }),
{
    let a = skip_spaces(s, 0);
    lemma_skip_spaces(s, 0);
    let b = skip_word(s, a);
    lemma_skip_word(s, a);
    let c = skip_spaces(s, b);
    lemma_skip_spaces(s, b);
    let d = skip_word(s, c);
    lemma_skip_word(s, c);
    if c < s.len() {
        assert(a < b) by {
            if a == b {
                assert(is_space(s[b]));
            }
        }
        assert(b < c) by {
            if b == c {
                assert(is_space(s[b]));
            }
        }
    }
}

/// Whether `c` separates words.
pub fn is_space_char(c: char) -> (space: bool)
    ensures
        space == is_space(c),
{
    let n: u32 = c as u32;
    (0x09 <= n && n <= 0x0d) || n == 0x20 || n == 0x85 || n == 0xa0 || n == 0x1680 || (0x2000 <= n
        && n <= 0x200a) || n == 0x2028 || n == 0x2029 || n == 0x202f || n == 0x205f || n == 0x3000
}

fn skip_spaces_in(line: &str, len: usize, from: usize) -> (at: usize)
    requires
        len == line@.len(),
        from <= len,
    ensures
        at == skip_spaces(line@, from as int),
        from <= at <= len,
{
    let mut at: usize = from;
    while at < len
        invariant
            len == line@.len(),
            from <= at <= len,
            skip_spaces(line@, from as int) == skip_spaces(line@, at as int),
        decreases len - at,
    {
        if !is_space_char(line.get_char(at)) {
            return at;
        }
        at += 1;
    }
    at
}

fn skip_word_in(line: &str, len: usize, from: usize) -> (at: usize)
    requires
        len == line@.len(),
        from <= len,
    ensures
        at == skip_word(line@, from as int),
        from <= at <= len,
{
    let mut at: usize = from;
    while at < len
        invariant
            len == line@.len(),
            from <= at <= len,
            skip_word(line@, from as int) == skip_word(line@, at as int),
        decreases len - at,
    {
        if is_space_char(line.get_char(at)) {
            return at;
        }
        at += 1;
    }
    at
}

/// The request target of an HTTP request line: its second word.
pub fn request_target(line: &str) -> (target: Option<String>)
    ensures
        target.deep_view() == second_word(line@),
{
    let len: usize = line.unicode_len();
    let first: usize = skip_spaces_in(line, len, 0);
    let gap: usize = skip_word_in(line, len, first);
    let second: usize = skip_spaces_in(line, len, gap);
    let end: usize = skip_word_in(line, len, second);
    if second < len {
        Some(line.substring_char(second, end).to_owned())
    } else {
        None
    }
}

/// `url::Url`, a parsed URL. Its inside is not looked at; what it holds is
/// spoken of as [`url_text`].
#[verifier::external_type_specification]
#[verifier::external_body]
pub struct ExUrl(url::Url);

/// The text that a parsed URL holds: its serialization.
pub uninterp spec fn url_text(url: url::Url) -> Seq<char>;

/// What `url::Url::parse` makes of a text: the serialization of the URL
/// that it reads there, or the reason why it reads none.
pub uninterp spec fn parsed_url(input: Seq<char>) -> Result<Seq<char>, url::ParseError>;

/// The name and value pairs, decoded and in their order, that
/// `url::Url::query_pairs` gives for the URL with this serialization.
pub uninterp spec fn query_pairs(text: Seq<char>) -> Seq<(Seq<char>, Seq<char>)>;

/// `url::Url::parse`: reads `input` as an absolute URL. Claimed: the
/// outcome, the error too, depends on `input` alone (it is
/// `parsed_url(input)`).
#[verifier::external_body]
pub(crate) fn parse_url(input: &str) -> (parsed: Result<url::Url, url::ParseError>)
    ensures
        match parsed {
            Ok(url) => parsed_url(input@) == Ok::<Seq<char>, url::ParseError>(url_text(url)),
            Err(error) => parsed_url(input@) == Err::<Seq<char>, url::ParseError>(error),
        },
{
    url::Url::parse(input)
}

/// `url::Url::as_str`: the serialization of a parsed URL.
#[verifier::external_body]
pub(crate) fn url_as_text(url: &url::Url) -> (text: String)
    ensures
        text@ == url_text(*url),
{
    url.as_str().to_owned()
}

/// `url::Url::query_pairs`: the query of a parsed URL as decoded pairs.
/// Claimed: they depend on the URL's serialization alone.
#[verifier::external_body]
pub(crate) fn url_query_pairs(url: &url::Url) -> (pairs: Vec<(String, String)>)
    ensures
        pairs.deep_view() == query_pairs(url_text(*url)),
{
    url.query_pairs().map(|(name, value)| (name.into_owned(), value.into_owned())).collect()
}

/// What the provider's redirect carries.
#[derive(Debug)]
pub struct Callback {
    pub code: String,
    pub state: String,
}

/// Mathematical model of a [`Callback`].
pub struct CallbackView {
    pub code: Seq<char>,
    pub state: Seq<char>,
}

impl View for Callback {
    type V = CallbackView;

    open spec fn view(&self) -> CallbackView {
        CallbackView { code: self.code@, state: self.state@ }
    }
}

impl DeepView for Callback {
    type V = CallbackView;

    open spec fn deep_view(&self) -> CallbackView {
        self@
    }
}

/// The value of the first pair at or after `from` whose name is `name`.
pub open spec fn value_from(
    pairs: Seq<(Seq<char>, Seq<char>)>,
    name: Seq<char>,
    from: int,
) -> Option<Seq<char>>
    decreases pairs.len() - from,
{
    if from < 0 || from >= pairs.len() {
        None
    } else if pairs[from].0 == name {
        Some(pairs[from].1)
    } else {
        value_from(pairs, name, from + 1)
    }
}

/// What `value_from` finds: the value of a pair named `name` before which,
/// from `from` on, no pair has that name; or nothing, where no pair from
/// `from` on has it.
pub proof fn lemma_value_from(pairs: Seq<(Seq<char>, Seq<char>)>, name: Seq<char>, from: int)
    requires
        0 <= from <= pairs.len(),
    ensures
        match value_from(pairs, name, from) {
            Some(value) => exists|i: int|
                {
                    &&& from <= i < pairs.len()
                    &&& #[trigger] pairs[i] == (name, value)
                    &&& forall|j: int| from <= j < i ==> (#[trigger] pairs[j]).0 != name
                },
            None => forall|j: int| from <= j < pairs.len() ==> (#[trigger] pairs[j]).0 != name,
        },
    decreases pairs.len() - from,
{
    if from < pairs.len() {
        if pairs[from].0 == name {
            assert(pairs[from] == (name, pairs[from].1));
        } else {
            lemma_value_from(pairs, name, from + 1);
        }
    }
}

/// The value of the first pair whose name is `name`.
pub open spec fn first_value(pairs: Seq<(Seq<char>, Seq<char>)>, name: Seq<char>) -> Option<
    Seq<char>,
> {
    value_from(pairs, name, 0)
}

/// The callback that a query holds: its first `code` and its first
/// `state`. Without either there is none.
pub open spec fn callback_of(pairs: Seq<(Seq<char>, Seq<char>)>) -> Result<
    CallbackView,
    LibErrorView,
> {
    match (first_value(pairs, "code"@), first_value(pairs, "state"@)) {
        (Some(code), Some(state)) => Ok(CallbackView { code, state }),
        _ => Err(LibErrorView::MalformedCallback),
    }
}

/// The callback that a request line holds: that of the query of its
/// target, read as a URL on the loopback host.
pub open spec fn callback_in(line: Seq<char>) -> Result<CallbackView, LibErrorView> {
    match second_word(line) {
        Some(target) => match parsed_url(CALLBACK_BASE@ + target) {
            Ok(text) => callback_of(query_pairs(text)),
            Err(_) => Err(LibErrorView::MalformedCallback),
        },
        None => Err(LibErrorView::MalformedCallback),
    }
}

/// The value of the first pair named `name`.
pub fn find_value(pairs: &Vec<(String, String)>, name: &str) -> (value: Option<String>)
    ensures
        value.deep_view() == first_value(pairs.deep_view(), name@),
{
    let wanted = String::from_str(name);
    let mut at: usize = 0;
    while at < pairs.len()
        invariant
            at <= pairs.len(),
            wanted@ == name@,
            first_value(pairs.deep_view(), name@) == value_from(
                pairs.deep_view(),
                name@,
                at as int,
            ),
        decreases pairs.len() - at,
    {
        assert(pairs.deep_view()[at as int] == (pairs[at as int].0@, pairs[at as int].1@));
        if pairs[at].0 == wanted {
            return Some(pairs[at].1.clone());
        }
        at += 1;
    }
    None
}

/// Extracts `code` and `state` from the decoded pairs of a query.
pub fn callback_from_pairs(pairs: &Vec<(String, String)>) -> (callback: Result<
    Callback,
    LibError,
>)
    ensures
        result_view(callback) == callback_of(pairs.deep_view()),
{
    let code = find_value(pairs, "code");
    let state = find_value(pairs, "state");
    match (code, state) {
        (Some(code), Some(state)) => Ok(Callback { code, state }),
        _ => Err(LibError::MalformedCallback),
    }
}

/// Reads the request line that the listener received.
pub fn parse_callback(request_line: &str) -> (callback: Result<Callback, LibError>)
    ensures
        result_view(callback) == callback_in(request_line@),
{
    match request_target(request_line) {
        Some(target) => {
            let mut address = String::from_str(CALLBACK_BASE);
            address.append(target.as_str());
            match parse_url(address.as_str()) {
                Ok(url) => {
                    let pairs = url_query_pairs(&url);
                    callback_from_pairs(&pairs)
                },
                Err(_) => Err(LibError::MalformedCallback),
            }
        },
        None => Err(LibError::MalformedCallback),
    }
}

} // verus!
