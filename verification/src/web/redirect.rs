//! Redirects: from a query such as `g monkeys` to the URL of the shortcut it names.
use vstd::prelude::*;
use vstd::string::{StrSliceExecFns, StringExecFns};
use vstd::utf8::encode_utf8;

use crate::data_plane::error::{error_view, DataPlaneError, DataPlaneResult, ErrorKind};
use crate::text::{replace_all, replace_all_placeholders, replace_first, replace_first_placeholder};

verus! {

/// Whether `application/x-www-form-urlencoded` keeps a byte as it is.
pub open spec fn form_unchanged(b: u8) -> bool {
    b == 42 || b == 45 || b == 46 || (48 <= b && b <= 57) || (65 <= b && b <= 90) || b == 95 || (97 <= b
        && b <= 122)
}

/// An upper-case hexadecimal digit.
pub open spec fn upper_hex_digit(v: int) -> char {
    if v < 10 {
        (48 + v) as char
    } else {
        (55 + v) as char
    }
}

/// How `application/x-www-form-urlencoded` writes one byte: unchanged, `+` for a space,
/// otherwise `%` and two upper-case hexadecimal digits.
pub open spec fn form_encoded_byte(b: u8) -> Seq<char> {
    if form_unchanged(b) {
        seq![b as char]
    } else if b == 32 {
        seq!['+']
    } else {
        seq!['%', upper_hex_digit(b as int / 16), upper_hex_digit(b as int % 16)]
    }
}

/// The `application/x-www-form-urlencoded` form of a byte string.
pub open spec fn form_urlencoded(bytes: Seq<u8>) -> Seq<char>
    decreases bytes.len(),
{
    if bytes.len() == 0 {
        Seq::empty()
    } else {
        form_encoded_byte(bytes[0]) + form_urlencoded(bytes.skip(1))
    }
}

/// The `application/x-www-form-urlencoded` form of the UTF-8 bytes of a text.
pub open spec fn form_urlencoded_text(text: Seq<char>) -> Seq<char> {
    form_urlencoded(encode_utf8(text))
}

/// Calls `url::form_urlencoded::byte_serialize` and collects the pieces.
///
/// Claimed: the result is the `application/x-www-form-urlencoded` form of the bytes:
/// `*-._`, digits and ASCII letters stay, a space becomes `+`, and every other byte
/// becomes `%` and its two upper-case hexadecimal digits.
#[verifier::external_body]
fn form_urlencode(bytes: &[u8]) -> (encoded: String)
    ensures
        encoded@ == form_urlencoded(bytes@),
{
    url::form_urlencoded::byte_serialize(bytes).collect()
}

/// The `application/x-www-form-urlencoded` form of a text.
pub fn form_urlencode_text(text: &str) -> (encoded: String)
    ensures
        encoded@ == form_urlencoded_text(text@),
{
    form_urlencode(text.as_bytes())
}

/// The first position, from `k` on, of a space.
pub open spec fn first_space_from(s: Seq<char>, k: int) -> Option<int>
    decreases s.len() - k,
{
    if k < 0 || k >= s.len() {
        None
    } else if s[k] == ' ' {
        Some(k)
    } else {
        first_space_from(s, k + 1)
    }
}

/// The alias of a query: what comes before its first space.
pub open spec fn query_alias(raw: Seq<char>) -> Seq<char> {
    match first_space_from(raw, 0) {
        Some(i) => raw.take(i),
        None => raw,
    }
}

/// The parameters of a query: what comes after its first space, if it has one.
pub open spec fn query_parameters(raw: Seq<char>) -> Option<Seq<char>> {
    match first_space_from(raw, 0) {
        Some(i) => Some(raw.skip(i + 1)),
        None => None,
    }
}

/// The text of an optional string slice.
pub open spec fn opt_str_view(s: Option<&str>) -> Option<Seq<char>> {
    match s {
        Some(t) => Some(t@),
        None => None,
    }
}

/// Whether an optional query text is empty: missing, or of no characters.
pub open spec fn raw_is_empty(raw: Option<Seq<char>>) -> bool {
    raw matches Some(r) ==> r.len() == 0
}

proof fn lemma_first_space_from(s: Seq<char>, k: int)
    requires
        0 <= k,
    ensures
        first_space_from(s, k) matches Some(i) ==> k <= i < s.len() && s[i] == ' ' && forall|j: int|
            k <= j < i ==> s[j] != ' ',
        first_space_from(s, k) is None ==> forall|j: int| k <= j < s.len() ==> s[j] != ' ',
    decreases s.len() - k,
{
    if k < s.len() && s[k] != ' ' {
        lemma_first_space_from(s, k + 1);
    }
}

/// Query for redirect.
///
/// A query consists of zero or one shortcut alias and zero or more parameters, where the
/// parameters are space-separated in a single text. Without an alias the query is
/// effectively a noop.
#[derive(Debug)]
pub struct Query<'a> {
    /// Raw value the alias and parameters are parsed from.
    pub raw: Option<&'a str>,
    /// Shortcut alias.
    pub alias: Option<&'a str>,
    /// Parameters for the alias.
    pub parameters: Option<&'a str>,
}

impl<'a> Query<'a> {
    /// The raw value of the query.
    pub open spec fn spec_raw(&self) -> Option<&'a str> {
        self.raw
    }

    /// Whether the query is the parse of `raw`: no alias nor parameters when `raw` is
    /// empty, otherwise the alias before the first space and the parameters after it.
    pub open spec fn parsed_from(&self, raw: Option<&'a str>) -> bool {
        &&& self.spec_raw() == raw
        &&& if raw_is_empty(opt_str_view(raw)) {
            self.alias is None && self.parameters is None
        } else {
            &&& self.alias matches Some(a) && a@ == query_alias(raw->0@)
            &&& opt_str_view(self.parameters) == query_parameters(raw->0@)
        }
    }

    /// Parse a query: its alias is what comes before the first space, its parameters what
    /// comes after it.
    pub fn from(maybe_raw: Option<&'a str>) -> (query: Self)
        ensures
            query.spec_raw() == maybe_raw,
            query.parsed_from(maybe_raw),
    {
        let raw = match maybe_raw {
            None => {
                return Query { raw: maybe_raw, alias: None, parameters: None };
            },
            Some(raw) => raw,
        };
        let n = raw.unicode_len();
        if n == 0 {
            return Query { raw: maybe_raw, alias: None, parameters: None };
        }
        proof {
            lemma_first_space_from(raw@, 0);
        }
        let mut i: usize = 0;
        while i < n
            invariant
                maybe_raw == Some(raw),
                n == raw@.len(),
                i <= n,
                first_space_from(raw@, 0) == first_space_from(raw@, i as int),
            decreases n - i,
        {
            if raw.get_char(i) == ' ' {
                let alias = raw.substring_char(0, i);
                let parameters = raw.substring_char(i + 1, n);
                proof {
                    assert(alias@ =~= raw@.take(i as int));
                    assert(parameters@ =~= raw@.skip(i + 1));
                }
                return Query { raw: maybe_raw, alias: Some(alias), parameters: Some(parameters) };
            }
            i = i + 1;
        }
        Query { raw: maybe_raw, alias: Some(raw), parameters: None }
    }

    /// Get the underlying raw query value.
    pub fn as_raw_ref(&self) -> (raw: Option<&'a str>)
        ensures
            raw == self.spec_raw(),
    {
        self.raw
    }

    /// Whether the query is empty.
    ///
    /// An empty query contains no alias or parameters.
    pub fn is_empty(&self) -> (empty: bool)
        ensures
            empty == raw_is_empty(opt_str_view(self.spec_raw())),
    {
        match self.raw {
            None => true,
            Some(raw) => raw.unicode_len() == 0,
        }
    }
}

/// Where a redirect stands.
#[derive(Debug, Clone, Copy, PartialEq, Eq, Structural)]
pub enum RedirectStage {
    /// Nothing looked up yet.
    Start,
    /// Looking up the alias of the query.
    ResolvingAlias,
    /// Looking up the fallback alias.
    ResolvingFallback,
    /// Looking up the default fallback shortcut.
    ResolvingDefaultFallback,
    /// The answer is given.
    Done,
}

/// What a lookup in the data plane gave.
#[derive(Debug, Clone, PartialEq, Eq)]
pub enum Lookup {
    /// A shortcut with this URL.
    Found(String),
    /// No shortcut, for this reason.
    Failed(DataPlaneError),
}

/// What a redirect does next.
#[derive(Debug, PartialEq, Eq)]
pub enum RedirectAction {
    /// Look up the shortcut with this alias.
    GetShortcutByAlias(String),
    /// Look up the default fallback shortcut.
    GetDefaultFallbackShortcut,
    /// Answer with this URL, or this error.
    Respond(DataPlaneResult<String>),
}

/// A lookup as plain values.
pub enum LookupView {
    Found(Seq<char>),
    Failed((ErrorKind, Seq<char>)),
}

/// An action as plain values.
pub enum RedirectActionView {
    GetShortcutByAlias(Seq<char>),
    GetDefaultFallbackShortcut,
    Respond(Result<Seq<char>, (ErrorKind, Seq<char>)>),
}

pub open spec fn lookup_view(lookup: Option<Lookup>) -> Option<LookupView> {
    match lookup {
        Some(Lookup::Found(url)) => Some(LookupView::Found(url@)),
        Some(Lookup::Failed(e)) => Some(LookupView::Failed(error_view(e))),
        None => None,
    }
}

pub open spec fn action_view(action: RedirectAction) -> RedirectActionView {
    match action {
        RedirectAction::GetShortcutByAlias(alias) => RedirectActionView::GetShortcutByAlias(alias@),
        RedirectAction::GetDefaultFallbackShortcut => RedirectActionView::GetDefaultFallbackShortcut,
        RedirectAction::Respond(Ok(url)) => RedirectActionView::Respond(Ok(url@)),
        RedirectAction::Respond(Err(e)) => RedirectActionView::Respond(Err(error_view(e))),
    }
}

/// The parameters a shortcut gets: those of the query, or none.
pub open spec fn parameters_or_empty(raw: Option<Seq<char>>) -> Seq<char> {
    match raw {
        Some(r) => match query_parameters(r) {
            Some(p) => p,
            None => Seq::empty(),
        },
        None => Seq::empty(),
    }
}

/// What a fallback gets: the whole query, or nothing.
pub open spec fn raw_or_empty(raw: Option<Seq<char>>) -> Seq<char> {
    match raw {
        Some(r) => r,
        None => Seq::empty(),
    }
}

/// The URL of a shortcut found by the query's alias: its first placeholder filled with
/// the encoded parameters.
pub open spec fn shortcut_url(url: Seq<char>, raw: Option<Seq<char>>) -> Seq<char> {
    replace_first_placeholder(url, form_urlencoded_text(parameters_or_empty(raw)))
}

/// The URL of a fallback shortcut: every placeholder filled with the encoded query.
pub open spec fn fallback_url(url: Seq<char>, raw: Option<Seq<char>>) -> Seq<char> {
    replace_all_placeholders(url, form_urlencoded_text(raw_or_empty(raw)))
}

/// Turn to the fallback: the fallback alias if one is given, otherwise the default
/// fallback shortcut.
pub open spec fn fallback_move(fallback: Option<Seq<char>>) -> (RedirectStage, RedirectActionView) {
    match fallback {
        Some(f) => (RedirectStage::ResolvingFallback, RedirectActionView::GetShortcutByAlias(f)),
        None => (RedirectStage::ResolvingDefaultFallback, RedirectActionView::GetDefaultFallbackShortcut),
    }
}

/// The next stage and action of a redirect, given what the last lookup gave.
pub open spec fn redirect_next(
    raw: Option<Seq<char>>,
    fallback: Option<Seq<char>>,
    stage: RedirectStage,
    looked_up: Option<LookupView>,
) -> (RedirectStage, RedirectActionView) {
    match stage {
        RedirectStage::Start => if raw_is_empty(raw) {
            fallback_move(fallback)
        } else {
            (RedirectStage::ResolvingAlias, RedirectActionView::GetShortcutByAlias(query_alias(raw->0)))
        },
        RedirectStage::ResolvingAlias => match looked_up {
            Some(LookupView::Found(url)) => (
                RedirectStage::Done,
                RedirectActionView::Respond(Ok(shortcut_url(url, raw))),
            ),
            _ => fallback_move(fallback),
        },
        RedirectStage::ResolvingFallback => match looked_up {
            Some(LookupView::Found(url)) => (
                RedirectStage::Done,
                RedirectActionView::Respond(Ok(fallback_url(url, raw))),
            ),
            _ => (RedirectStage::ResolvingDefaultFallback, RedirectActionView::GetDefaultFallbackShortcut),
        },
        RedirectStage::ResolvingDefaultFallback => match looked_up {
            Some(LookupView::Found(url)) => (
                RedirectStage::Done,
                RedirectActionView::Respond(Ok(fallback_url(url, raw))),
            ),
            Some(LookupView::Failed(e)) => (RedirectStage::Done, RedirectActionView::Respond(Err(e))),
            None => (RedirectStage::Done, RedirectActionView::GetDefaultFallbackShortcut),
        },
        RedirectStage::Done => (RedirectStage::Done, RedirectActionView::GetDefaultFallbackShortcut),
    }
}

fn fallback_step(fallback: Option<&str>) -> (next: (RedirectStage, RedirectAction))
    ensures
        (next.0, action_view(next.1)) == fallback_move(opt_str_view(fallback)),
{
    match fallback {
        Some(f) => (RedirectStage::ResolvingFallback, RedirectAction::GetShortcutByAlias(f.to_owned())),
        None => (RedirectStage::ResolvingDefaultFallback, RedirectAction::GetDefaultFallbackShortcut),
    }
}

fn fallback_redirect(url: &str, query: &Query) -> (redirect: String)
    ensures
        redirect@ == fallback_url(url@, opt_str_view(query.spec_raw())),
{
    let raw = match query.as_raw_ref() {
        Some(raw) => raw,
        None => "",
    };
    proof {
        reveal_strlit("");
    }
    let encoded = form_urlencode_text(raw);
    replace_all(url, encoded.as_str())
}

/// One step of resolving a query to the URL to redirect to.
///
/// If the query is not empty and its alias resolves to a shortcut, the answer is that
/// shortcut's URL with the parameters put in. Otherwise the fallback alias, and if that
/// resolves to nothing the default fallback shortcut, gives the URL, with the whole
/// query put in. The caller performs each lookup and hands back what it gave.
pub fn redirect_step(
    query: &Query,
    fallback: Option<&str>,
    stage: RedirectStage,
    looked_up: Option<Lookup>,
) -> (next: (RedirectStage, RedirectAction))
    requires
        query.parsed_from(query.spec_raw()),
        stage != RedirectStage::Done,
        stage != RedirectStage::Start ==> looked_up is Some,
    ensures
        (next.0, action_view(next.1)) == redirect_next(
            opt_str_view(query.spec_raw()),
            opt_str_view(fallback),
            stage,
            lookup_view(looked_up),
        ),
{
    match stage {
        RedirectStage::Start => {
            if query.is_empty() {
                fallback_step(fallback)
            } else {
                let alias = match query.alias {
                    Some(alias) => alias,
                    None => "",
                };
                (RedirectStage::ResolvingAlias, RedirectAction::GetShortcutByAlias(alias.to_owned()))
            }
        },
        RedirectStage::ResolvingAlias => match looked_up {
            Some(Lookup::Found(url)) => {
                let parameters = match query.parameters {
                    Some(p) => p,
                    None => "",
                };
                proof {
                    reveal_strlit("");
                }
                let encoded = form_urlencode_text(parameters);
                (RedirectStage::Done, RedirectAction::Respond(Ok(replace_first(url.as_str(), encoded.as_str()))))
            },
            _ => fallback_step(fallback),
        },
        RedirectStage::ResolvingFallback => match looked_up {
            Some(Lookup::Found(url)) => (
                RedirectStage::Done,
                RedirectAction::Respond(Ok(fallback_redirect(url.as_str(), query))),
            ),
            _ => (RedirectStage::ResolvingDefaultFallback, RedirectAction::GetDefaultFallbackShortcut),
        },
        _ => match looked_up {
            Some(Lookup::Found(url)) => (
                RedirectStage::Done,
                RedirectAction::Respond(Ok(fallback_redirect(url.as_str(), query))),
            ),
            Some(Lookup::Failed(e)) => (RedirectStage::Done, RedirectAction::Respond(Err(e))),
            None => (RedirectStage::Done, RedirectAction::GetDefaultFallbackShortcut),
        },
    }
}

/// The HTTP status of a failed redirect: not found when no shortcut was found, an
/// internal error otherwise.
pub fn redirect_error_status(err: &DataPlaneError) -> (status: u16)
    ensures
        status == if error_view(*err).0 == ErrorKind::NotFound {
            404u16
        } else {
            500u16
        },
{
    match err {
        DataPlaneError::NotFound { .. } => 404,
        _ => 500,
    }
}

/// What the data plane answers to an action: a lookup by alias goes to `by_alias`, a
/// lookup of the default fallback to `default`.
pub open spec fn answer(
    by_alias: spec_fn(Seq<char>) -> LookupView,
    default: LookupView,
    action: RedirectActionView,
) -> LookupView {
    match action {
        RedirectActionView::GetShortcutByAlias(alias) => by_alias(alias),
        _ => default,
    }
}

/// The answer of a redirect run for at most `steps` steps from `stage`, each lookup
/// answered by `by_alias` and `default`; none if it takes longer.
pub open spec fn run_redirect(
    raw: Option<Seq<char>>,
    fallback: Option<Seq<char>>,
    by_alias: spec_fn(Seq<char>) -> LookupView,
    default: LookupView,
    stage: RedirectStage,
    looked_up: Option<LookupView>,
    steps: nat,
) -> Option<Result<Seq<char>, (ErrorKind, Seq<char>)>>
    decreases steps,
{
    if steps == 0 {
        None
    } else {
        let (next, action) = redirect_next(raw, fallback, stage, looked_up);
        match action {
            RedirectActionView::Respond(result) => Some(result),
            _ => run_redirect(
                raw,
                fallback,
                by_alias,
                default,
                next,
                Some(answer(by_alias, default, action)),
                (steps - 1) as nat,
            ),
        }
    }
}

/// Where a query redirects to: the shortcut of its alias with the parameters put in, if
/// the query is not empty and its alias resolves; otherwise the fallback alias's shortcut,
/// and failing that the default fallback shortcut, with the whole query put in; or the
/// error of looking up the default fallback.
pub open spec fn redirect_result(
    raw: Option<Seq<char>>,
    fallback: Option<Seq<char>>,
    by_alias: spec_fn(Seq<char>) -> LookupView,
    default: LookupView,
) -> Result<Seq<char>, (ErrorKind, Seq<char>)> {
    if !raw_is_empty(raw) && by_alias(query_alias(raw->0)) is Found {
        Ok(shortcut_url(by_alias(query_alias(raw->0))->Found_0, raw))
    } else if fallback is Some && by_alias(fallback->0) is Found {
        Ok(fallback_url(by_alias(fallback->0)->Found_0, raw))
    } else {
        match default {
            LookupView::Found(url) => Ok(fallback_url(url, raw)),
            LookupView::Failed(e) => Err(e),
        }
    }
}

/// A redirect resolves any query in at most three lookups, to the URL that
/// `redirect_result` gives.
pub proof fn lemma_redirect_resolves(
    raw: Option<Seq<char>>,
    fallback: Option<Seq<char>>,
    by_alias: spec_fn(Seq<char>) -> LookupView,
    default: LookupView,
)
    ensures
        run_redirect(raw, fallback, by_alias, default, RedirectStage::Start, None, 4) == Some(
            redirect_result(raw, fallback, by_alias, default),
        ),
{
    reveal_with_fuel(run_redirect, 5);
}

/// URL parameters of a redirect: the query, and the alias to fall back to.
#[derive(Debug, Clone)]
pub struct UrlParameters {
    query: Option<String>,
    fallback: Option<String>,
}

impl UrlParameters {
    pub closed spec fn spec_query(&self) -> Option<String> {
        self.query
    }

    pub closed spec fn spec_fallback(&self) -> Option<String> {
        self.fallback
    }

    pub fn new(query: Option<String>, fallback: Option<String>) -> (parameters: Self)
        ensures
            parameters.spec_query() == query,
            parameters.spec_fallback() == fallback,
    {
        UrlParameters { query, fallback }
    }

    /// The query, if the request gives one.
    pub fn query(&self) -> (query: Option<&str>)
        ensures
            opt_str_view(query) == opt_string_view(self.spec_query()),
    {
        match &self.query {
            Some(q) => Some(q.as_str()),
            None => None,
        }
    }

    /// The fallback alias, if the request gives one.
    pub fn fallback(&self) -> (fallback: Option<&str>)
        ensures
            opt_str_view(fallback) == opt_string_view(self.spec_fallback()),
    {
        match &self.fallback {
            Some(f) => Some(f.as_str()),
            None => None,
        }
    }
}

/// The text of an optional string.
pub open spec fn opt_string_view(s: Option<String>) -> Option<Seq<char>> {
    match s {
        Some(t) => Some(t@),
        None => None,
    }
}

/// A query is its alias, which holds no space, followed, when it has parameters, by a
/// space and the parameters: splitting loses nothing.
pub proof fn lemma_query_split(raw: Seq<char>)
    ensures
        !query_alias(raw).contains(' '),
        match query_parameters(raw) {
            Some(parameters) => raw == query_alias(raw) + seq![' '] + parameters,
            None => raw == query_alias(raw),
        },
{
    lemma_first_space_from(raw, 0);
    match first_space_from(raw, 0) {
        Some(i) => {
            assert(raw =~= raw.take(i) + seq![' '] + raw.skip(i + 1));
            assert forall|j: int| 0 <= j < raw.take(i).len() implies raw.take(i)[j] != ' ' by {}
        },
        None => {
            assert forall|j: int| 0 <= j < raw.len() implies raw[j] != ' ' by {}
        },
    }
}

proof fn lemma_first_space_at(s: Seq<char>, k: int, i: int)
    requires
        0 <= k <= i < s.len(),
        s[i] == ' ',
        forall|j: int| k <= j < i ==> s[j] != ' ',
    ensures
        first_space_from(s, k) == Some(i),
    decreases i - k,
{
    if k < i {
        lemma_first_space_at(s, k + 1, i);
    }
}

/// A query `alias parameters` (the alias holding no space) looks up its alias, and when
/// that finds a shortcut, redirects to the shortcut's URL with its first `{}` replaced by
/// the form-urlencoding of all the text after the first space, spaces included. When the
/// alias finds nothing, the fallback shortcut (or the default fallback shortcut) gets the
/// whole query, form-urlencoded, in every `{}`.
pub proof fn lemma_redirect_fills_all_parameters(
    alias: Seq<char>,
    parameters: Seq<char>,
    url: Seq<char>,
    fallback: Option<Seq<char>>,
    fallback_url_found: Seq<char>,
)
    requires
        !alias.contains(' '),
    ensures
        redirect_next(Some(alias + seq![' '] + parameters), fallback, RedirectStage::Start, None) == (
            RedirectStage::ResolvingAlias,
            RedirectActionView::GetShortcutByAlias(alias),
        ),
        redirect_next(
            Some(alias + seq![' '] + parameters),
            fallback,
            RedirectStage::ResolvingAlias,
            Some(LookupView::Found(url)),
        ) == (
            RedirectStage::Done,
            RedirectActionView::Respond(
                Ok(replace_first_placeholder(url, form_urlencoded_text(parameters))),
            ),
        ),
        redirect_next(
            Some(alias + seq![' '] + parameters),
            fallback,
            RedirectStage::ResolvingDefaultFallback,
            Some(LookupView::Found(fallback_url_found)),
        ) == (
            RedirectStage::Done,
            RedirectActionView::Respond(
                Ok(
                    replace_all_placeholders(
                        fallback_url_found,
                        form_urlencoded_text(alias + seq![' '] + parameters),
                    ),
                ),
            ),
        ),
        redirect_next(
            Some(alias + seq![' '] + parameters),
            fallback,
            RedirectStage::ResolvingFallback,
            Some(LookupView::Found(fallback_url_found)),
        ) == (
            RedirectStage::Done,
            RedirectActionView::Respond(
                Ok(
                    replace_all_placeholders(
                        fallback_url_found,
                        form_urlencoded_text(alias + seq![' '] + parameters),
                    ),
                ),
            ),
        ),
{
    let raw = alias + seq![' '] + parameters;
    assert forall|j: int| 0 <= j < alias.len() implies raw[j] != ' ' by {
        if raw[j] == ' ' {
            assert(alias[j] == ' ');
            assert(alias.contains(' '));
        }
    }
    lemma_first_space_at(raw, 0, alias.len() as int);
    assert(raw.take(alias.len() as int) =~= alias);
    assert(raw.skip(alias.len() as int + 1) =~= parameters);
}

/// A query that is a single word, without a space, looks up that word, and when that
/// finds a shortcut, redirects to the shortcut's URL with its first `{}` replaced by
/// nothing.
pub proof fn lemma_redirect_without_parameters(alias: Seq<char>, url: Seq<char>, fallback: Option<Seq<char>>)
    requires
        alias.len() > 0,
        !alias.contains(' '),
    ensures
        redirect_next(Some(alias), fallback, RedirectStage::Start, None) == (
            RedirectStage::ResolvingAlias,
            RedirectActionView::GetShortcutByAlias(alias),
        ),
        redirect_next(Some(alias), fallback, RedirectStage::ResolvingAlias, Some(LookupView::Found(url))) == (
            RedirectStage::Done,
            RedirectActionView::Respond(Ok(replace_first_placeholder(url, form_urlencoded_text(Seq::empty())))),
        ),
{
    lemma_first_space_from(alias, 0);
    if first_space_from(alias, 0) is Some {
        let i = first_space_from(alias, 0)->0;
        assert(alias.contains(' '));
    }
}

} // verus!
